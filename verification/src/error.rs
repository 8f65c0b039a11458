//! The error value: severity, reference code, description, metadata and an
//! optional wrapped cause, with its canonical rendering.

use vstd::prelude::*;
use vstd::string::StringExecFns;
use crate::cause::Cause;
use crate::cause::Failure;
use crate::cause::lemma_chain_head;
use crate::metadata::Metadata;
use crate::metadata::Pairs;
use crate::metadata::put;
use crate::severity::Severity;

verus! {

/// What an [`Error`] holds, as plain values. The cause is the chain of the
/// rendered texts of its links, the immediate cause first.
#[verifier::ext_equal]
pub struct ErrorView {
    pub severity: Severity,
    pub reference: Seq<char>,
    pub description: Seq<char>,
    pub metadata: Map<Seq<char>, Seq<char>>,
    pub source: Option<Seq<Seq<char>>>,
}

impl ErrorView {
    /// The rendering without the cause: `[<tag>] Ref: <reference> | <description>`.
    pub open spec fn head(self) -> Seq<char> {
        "["@ + self.severity.tag() + "] Ref: "@ + self.reference + " | "@ + self.description
    }

    /// The canonical rendering: the head, followed by ` | Source: ` and the
    /// text of the immediate cause where there is one. Metadata is no part
    /// of it.
    pub open spec fn render(self) -> Seq<char> {
        match self.source {
            Some(chain) => self.head() + " | Source: "@ + chain[0],
            None => self.head(),
        }
    }

    /// The cause chain that starts at this error itself: its own rendering,
    /// then the chain of what it wraps.
    pub open spec fn chain(self) -> Seq<Seq<char>> {
        match self.source {
            Some(chain) => seq![self.render()] + chain,
            None => seq![self.render()],
        }
    }
}

/// An error with a severity, a reference code such as `NET-001`, a
/// description for people, free-form metadata and, optionally, the failure
/// that caused it.
#[derive(Debug)]
pub struct Error {
    /// How serious the error is.
    pub severity: Severity,
    /// Short stable code, by convention prefixed with a domain code.
    pub reference: String,
    /// What went wrong, for people.
    pub description: String,
    /// Further context. It is kept out of the rendering.
    pub metadata: Metadata,
    /// The failure that caused this one, if one is wrapped.
    pub source: Option<Cause>,
}

impl View for Error {
    type V = ErrorView;

    open spec fn view(&self) -> ErrorView {
        ErrorView {
            severity: self.severity,
            reference: self.reference@,
            description: self.description@,
            metadata: self.metadata@,
            source: self.source_chain(),
        }
    }
}

impl Error {
    /// The chain of the wrapped cause, if a cause is wrapped.
    pub open spec fn source_chain(&self) -> Option<Seq<Seq<char>>> {
        match self.source {
            Some(cause) => Some(cause@),
            None => None,
        }
    }

    /// An error without a cause and without metadata.
    pub fn new(severity: Severity, reference: &str, description: &str) -> (error: Error)
        ensures
            error@ == (ErrorView {
                severity,
                reference: reference@,
                description: description@,
                metadata: Map::empty(),
                source: None,
            }),
            error.metadata.pairs() == Pairs::empty(),
    {
        Error {
            severity,
            reference: reference.to_owned(),
            description: description.to_owned(),
            metadata: Metadata::new(),
            source: None,
        }
    }

    /// Wraps `source` as the cause, in place of any cause wrapped before.
    pub fn with_source(self, source: Cause) -> (error: Error)
        ensures
            error@ == (ErrorView { source: Some(source@), ..self@ }),
            error.metadata.pairs() == self.metadata.pairs(),
    {
        Error {
            severity: self.severity,
            reference: self.reference,
            description: self.description,
            metadata: self.metadata,
            source: Some(source),
        }
    }

    /// Sets the metadata key `key` to `value`. A key that is present takes
    /// the new value; nothing else changes.
    pub fn insert_metadata(self, key: &str, value: &str) -> (error: Error)
        ensures
            error@ == (ErrorView { metadata: self@.metadata.insert(key@, value@), ..self@ }),
            error.metadata.pairs() == put(self.metadata.pairs(), key@, value@),
            error@.render() == self@.render(),
    {
        let mut metadata = self.metadata;
        metadata.insert(key, value);
        Error {
            severity: self.severity,
            reference: self.reference,
            description: self.description,
            metadata,
            source: self.source,
        }
    }

    /// The wrapped cause, if there is one.
    pub fn get_source(&self) -> (source: Option<&Cause>)
        ensures
            match source {
                Some(cause) => self@.source == Some(cause@),
                None => self@.source is None,
            },
    {
        self.source.as_ref()
    }

    /// The canonical rendering.
    pub fn to_string(&self) -> (text: String)
        ensures
            text@ == self@.render(),
    {
        let mut text = String::from_str("[");
        text.append(self.severity.as_str());
        text.append("] Ref: ");
        text.append(self.reference.as_str());
        text.append(" | ");
        text.append(self.description.as_str());
        match &self.source {
            Some(cause) => {
                let cause_text = cause.to_string();
                text.append(" | Source: ");
                text.append(cause_text.as_str());
            },
            None => {},
        }
        text
    }

}

impl Failure for Error {
    open spec fn chain_texts(&self) -> Seq<Seq<char>> {
        self@.chain()
    }

    /// The canonical rendering.
    fn describe(&self) -> (text: String) {
        self.to_string()
    }

    /// This error as a link of a cause chain: its text is the canonical
    /// rendering, and it wraps what the error wrapped.
    fn into_cause(self) -> (cause: Cause) {
        let link = Cause::new(self.to_string().as_str());
        match self.source {
            Some(inner) => link.with_source(inner),
            None => link,
        }
    }
}

/// Without a cause, the rendering is exactly
/// `[<tag>] Ref: <reference> | <description>`.
pub proof fn lemma_render_without_cause(error: ErrorView)
    requires
        error.source is None,
    ensures
        error.render() == "["@ + error.severity.tag() + "] Ref: "@ + error.reference + " | "@
            + error.description,
{
}

/// With a cause, the rendering is the head followed by ` | Source: ` and the
/// text of the immediate cause, so it ends with them.
pub proof fn lemma_render_ends_with_source(error: ErrorView, chain: Seq<Seq<char>>)
    requires
        error.source == Some(chain),
    ensures
        error.render() == error.head() + (" | Source: "@ + chain[0]),
        (" | Source: "@ + chain[0]).is_suffix_of(error.render()),
{
    let tail = " | Source: "@ + chain[0];
    assert(error.render() =~= error.head() + tail);
    assert(tail =~= (error.head() + tail).subrange(
        error.head().len() as int,
        (error.head() + tail).len() as int,
    ));
}

/// The cause that an error hands out is the one whose text its rendering
/// ends with.
pub proof fn lemma_source_is_rendered(error: Error, cause: Cause)
    requires
        error.source == Some(cause),
    ensures
        error@.source == Some(cause@),
        (" | Source: "@ + cause.text()).is_suffix_of(error@.render()),
{
    lemma_chain_head(cause);
    lemma_render_ends_with_source(error@, cause@);
}

/// Metadata is no part of the rendering: two errors that differ in their
/// metadata alone render alike.
pub proof fn lemma_render_ignores_metadata(error: ErrorView, metadata: Map<Seq<char>, Seq<char>>)
    ensures
        (ErrorView { metadata, ..error }).render() == error.render(),
{
}

/// Setting one metadata key twice leaves the mapping that setting it once to
/// the second value leaves.
pub proof fn lemma_metadata_overwrites(
    error: ErrorView,
    key: Seq<char>,
    first: Seq<char>,
    second: Seq<char>,
)
    ensures
        error.metadata.insert(key, first).insert(key, second) == error.metadata.insert(key, second),
{
    assert(error.metadata.insert(key, first).insert(key, second) =~= error.metadata.insert(
        key,
        second,
    ));
}

} // verus!
