//! Adapters at the two ends of an error's life: turning a foreign failure
//! into an [`Error`] on the way up, and deciding at the outermost caller
//! between the value and the end of the process.

use vstd::prelude::*;
use vstd::string::StringExecFns;
use crate::cause::Cause;
use crate::cause::Failure;
use crate::error::Error;
use crate::error::ErrorView;
use crate::metadata::Pairs;
use crate::severity::Severity;

verus! {

/// The error that propagation builds from a foreign failure with the chain
/// `chain`: the description is followed by `: ` and the failure's text, and
/// the failure becomes the cause.
pub open spec fn propagated(
    severity: Severity,
    reference: Seq<char>,
    description: Seq<char>,
    chain: Seq<Seq<char>>,
) -> ErrorView {
    ErrorView {
        severity,
        reference,
        description: description + ": "@ + chain[0],
        metadata: Map::empty(),
        source: Some(chain),
    }
}

/// How a result with a foreign failure maps to one with an [`Error`] of
/// severity `severity`: a value passes through as it is, a failure is
/// wrapped.
pub open spec fn propagates<T, E: Failure>(
    before: core::result::Result<T, E>,
    severity: Severity,
    reference: Seq<char>,
    description: Seq<char>,
    after: core::result::Result<T, Error>,
) -> bool {
    match before {
        Ok(value) => after == core::result::Result::<T, Error>::Ok(value),
        Err(failure) => after is Err && after->Err_0@ == propagated(
            severity,
            reference,
            description,
            failure.chain_texts(),
        ) && after->Err_0.metadata.pairs() == Pairs::empty(),
    }
}

impl Error {
    /// Wraps the foreign failure `cause` in a new error of the given
    /// severity, with the failure's text appended to the description.
    pub fn from_cause(severity: Severity, reference: &str, description: &str, cause: Cause) -> (error:
        Error)
        ensures
            error@ == propagated(severity, reference@, description@, cause@),
            error.metadata.pairs() == Pairs::empty(),
    {
        let mut full = String::from_str(description);
        full.append(": ");
        full.append(cause.to_string().as_str());
        Error::new(severity, reference, full.as_str()).with_source(cause)
    }
}

/// Maps the failure arm of `result` to an [`Error`] of severity `severity`.
fn propagate<T, E: Failure>(
    result: core::result::Result<T, E>,
    severity: Severity,
    reference: &str,
    description: &str,
) -> (after: core::result::Result<T, Error>)
    ensures
        propagates(result, severity, reference@, description@, after),
{
    match result {
        Ok(value) => Ok(value),
        Err(failure) => Err(Error::from_cause(severity, reference, description, failure.into_cause())),
    }
}

/// Propagation of a foreign failure at a chosen severity.
pub trait EphErrorExt<T> {
    /// Wraps a failure in an error of severity `Info`.
    fn map_mcp_inf(self, reference: &str, description: &str) -> core::result::Result<T, Error>;

    /// Wraps a failure in an error of severity `Error`.
    fn map_mcp_err(self, reference: &str, description: &str) -> core::result::Result<T, Error>;

    /// Wraps a failure in an error of severity `Critical`.
    fn map_mcp_crit(self, reference: &str, description: &str) -> core::result::Result<T, Error>;
}

impl<T, E: Failure> EphErrorExt<T> for core::result::Result<T, E> {
    fn map_mcp_inf(self, reference: &str, description: &str) -> (after: core::result::Result<
        T,
        Error,
    >)
        ensures
            propagates(self, Severity::Info, reference@, description@, after),
    {
        propagate(self, Severity::Info, reference, description)
    }

    fn map_mcp_err(self, reference: &str, description: &str) -> (after: core::result::Result<
        T,
        Error,
    >)
        ensures
            propagates(self, Severity::Error, reference@, description@, after),
    {
        propagate(self, Severity::Error, reference, description)
    }

    fn map_mcp_crit(self, reference: &str, description: &str) -> (after: core::result::Result<
        T,
        Error,
    >)
        ensures
            propagates(self, Severity::Critical, reference@, description@, after),
    {
        propagate(self, Severity::Critical, reference, description)
    }
}

/// The status with which the process ends after a failure at the outermost
/// caller. It is not zero.
pub const EXIT_STATUS: i32 = -1;

/// What the outermost caller does with a result.
#[derive(Debug)]
pub enum Exit<T> {
    /// Go on with the value.
    Value(T),
    /// Write `message` to the diagnostic stream once, then end the process
    /// with `status`.
    Terminate { message: String, status: i32 },
}

/// How a result maps to what the outermost caller does: a value is handed
/// on as it is; a failure ends the process with its rendered text as the
/// message and a status that is not zero.
pub open spec fn exits<T, E: Failure>(result: core::result::Result<T, E>, exit: Exit<T>) -> bool {
    match result {
        Ok(value) => exit == Exit::Value(value),
        Err(failure) => exit matches Exit::Terminate { message, status } && message@
            == failure.chain_texts()[0] && status == EXIT_STATUS && status != 0,
    }
}

/// The decision between the value and the end of the process. Carrying out
/// [`Exit::Terminate`] belongs to the outermost caller alone: library code
/// never ends the process.
pub trait OrExit<T> {
    /// Decides what the outermost caller does with this result.
    fn or_exit(self) -> Exit<T>;
}

impl<T, E: Failure> OrExit<T> for core::result::Result<T, E> {
    fn or_exit(self) -> (exit: Exit<T>)
        ensures
            exits(self, exit),
    {
        match self {
            Ok(value) => Exit::Value(value),
            Err(failure) => Exit::Terminate { message: failure.describe(), status: EXIT_STATUS },
        }
    }
}

/// At the outermost caller a failed result with an [`Error`] ends the
/// process with the error's canonical rendering as the message.
pub proof fn lemma_exit_message_is_rendering<T>(
    result: core::result::Result<T, Error>,
    exit: Exit<T>,
)
    requires
        exits(result, exit),
        result is Err,
    ensures
        exit matches Exit::Terminate { message, status } && message@ == result->Err_0@.render()
            && status != 0,
{
}

} // verus!
