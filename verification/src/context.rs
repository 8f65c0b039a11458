//! The carrier of reference, severity, description and metadata that every
//! error of a domain kind owns.

use vstd::prelude::*;
use vstd::string::StringExecFns;
use crate::metadata::Metadata;
use crate::metadata::Pairs;
use crate::severity::Severity;

verus! {

/// What an [`ErrorContext`] holds, as plain values.
#[verifier::ext_equal]
pub struct ContextView {
    pub reference: Seq<char>,
    pub severity: Severity,
    pub description: Seq<char>,
    pub metadata: Map<Seq<char>, Seq<char>>,
}

impl ContextView {
    /// The canonical rendering: `<tag> | Ref: <reference> | <description>`.
    /// Metadata is no part of it.
    pub open spec fn render(self) -> Seq<char> {
        self.severity.tag() + " | Ref: "@ + self.reference + " | "@ + self.description
    }
}

/// Reference code, severity, description and metadata of one error.
#[derive(Debug)]
pub struct ErrorContext {
    /// Short stable code; the constructor of the owning error has put the
    /// domain prefix in front.
    pub reference: String,
    /// How serious the error is.
    pub severity: Severity,
    /// What went wrong, for people.
    pub description: String,
    /// Further context. It is kept out of the rendering.
    pub metadata: Metadata,
}

impl View for ErrorContext {
    type V = ContextView;

    open spec fn view(&self) -> ContextView {
        ContextView {
            reference: self.reference@,
            severity: self.severity,
            description: self.description@,
            metadata: self.metadata@,
        }
    }
}

impl ErrorContext {
    /// A context with empty metadata. The reference is taken as it is given.
    pub fn new(reference: &str, severity: Severity, description: &str) -> (context: ErrorContext)
        ensures
            context@ == (ContextView {
                reference: reference@,
                severity,
                description: description@,
                metadata: Map::empty(),
            }),
            context.metadata.pairs() == Pairs::empty(),
    {
        ErrorContext {
            reference: reference.to_owned(),
            severity,
            description: description.to_owned(),
            metadata: Metadata::new(),
        }
    }

    /// The canonical rendering.
    pub fn to_string(&self) -> (text: String)
        ensures
            text@ == self@.render(),
    {
        let mut text = String::from_str(self.severity.as_str());
        text.append(" | Ref: ");
        text.append(self.reference.as_str());
        text.append(" | ");
        text.append(self.description.as_str());
        text
    }
}

impl Clone for ErrorContext {
    fn clone(&self) -> (copy: ErrorContext)
        ensures
            copy@ == self@,
            copy.metadata.pairs() == self.metadata.pairs(),
    {
        ErrorContext {
            reference: self.reference.clone(),
            severity: self.severity,
            description: self.description.clone(),
            metadata: self.metadata.clone(),
        }
    }
}

} // verus!
