//! The structured projection of an error: the fields `severity`,
//! `reference`, `description`, `metadata` and `source`, in this order. Of
//! the cause it keeps the text of the immediate link and nothing else.

use vstd::prelude::*;
use crate::cause::Cause;
use crate::error::Error;
use crate::error::ErrorView;
use crate::metadata::Metadata;
use crate::severity::Severity;
use crate::severity::lemma_parse_name;

verus! {

/// What an [`ErrorRecord`] holds, as plain values.
#[verifier::ext_equal]
pub struct RecordView {
    pub severity: Seq<char>,
    pub reference: Seq<char>,
    pub description: Seq<char>,
    pub metadata: Map<Seq<char>, Seq<char>>,
    pub source: Option<Seq<char>>,
}

/// The nested record that stands for a cause: its text alone.
#[derive(Debug)]
pub struct SourceRecord {
    pub message: String,
}

/// The structured form of an error. `severity` holds the name of the
/// severity's variant; `source` is absent where the error wraps no cause.
#[derive(Debug)]
pub struct ErrorRecord {
    pub severity: String,
    pub reference: String,
    pub description: String,
    pub metadata: Metadata,
    pub source: Option<SourceRecord>,
}

impl View for ErrorRecord {
    type V = RecordView;

    open spec fn view(&self) -> RecordView {
        RecordView {
            severity: self.severity@,
            reference: self.reference@,
            description: self.description@,
            metadata: self.metadata@,
            source: match self.source {
                Some(source) => Some(source.message@),
                None => None,
            },
        }
    }
}

impl SourceRecord {
    /// The nested record for an optional cause: none where there is no
    /// cause, else the text of the immediate link.
    pub fn of(source: &Option<Cause>) -> (record: Option<SourceRecord>)
        ensures
            match record {
                Some(r) => source is Some && r.message@ == source->0@[0],
                None => source is None,
            },
    {
        match source {
            Some(cause) => Some(SourceRecord { message: cause.to_string() }),
            None => None,
        }
    }
}

impl ErrorView {
    /// The chain that is left of the cause in the structured form: the
    /// immediate link alone.
    pub open spec fn recorded_source(self) -> Option<Seq<Seq<char>>> {
        match self.source {
            Some(chain) => Some(seq![chain[0]]),
            None => None,
        }
    }

    /// The structured form of the error.
    pub open spec fn record(self) -> RecordView {
        RecordView {
            severity: self.severity.name(),
            reference: self.reference,
            description: self.description,
            metadata: self.metadata,
            source: match self.source {
                Some(chain) => Some(chain[0]),
                None => None,
            },
        }
    }
}

impl RecordView {
    /// The error that the record stands for, where its severity token names
    /// a severity. The cause is one link with the recorded text.
    pub open spec fn restore(self) -> Option<ErrorView> {
        match Severity::parse(self.severity) {
            Some(severity) => Some(
                ErrorView {
                    severity,
                    reference: self.reference,
                    description: self.description,
                    metadata: self.metadata,
                    source: match self.source {
                        Some(message) => Some(seq![message]),
                        None => None,
                    },
                },
            ),
            None => None,
        }
    }
}

impl Error {
    /// The structured form of this error.
    pub fn to_record(&self) -> (record: ErrorRecord)
        ensures
            record@ == self@.record(),
            record.metadata.pairs() == self.metadata.pairs(),
    {
        ErrorRecord {
            severity: self.severity.name_str().to_owned(),
            reference: self.reference.clone(),
            description: self.description.clone(),
            metadata: self.metadata.clone(),
            source: SourceRecord::of(&self.source),
        }
    }

    /// The error that `record` stands for. There is none where the severity
    /// token names no severity.
    pub fn from_record(record: ErrorRecord) -> (error: Option<Error>)
        ensures
            match error {
                Some(e) => record@.restore() == Some(e@) && e.metadata.pairs()
                    == record.metadata.pairs(),
                None => record@.restore() is None,
            },
    {
        match Severity::from_name(record.severity.as_str()) {
            Some(severity) => Some(
                Error {
                    severity,
                    reference: record.reference,
                    description: record.description,
                    metadata: record.metadata,
                    source: match record.source {
                        Some(source) => Some(Cause::new(source.message.as_str())),
                        None => None,
                    },
                },
            ),
            None => None,
        }
    }
}

/// The structured form has no `source` exactly where the error wraps no
/// cause; where it wraps one, `source` holds the text of the immediate cause.
pub proof fn lemma_record_source(error: ErrorView)
    ensures
        error.source is None <==> error.record().source is None,
        error.source matches Some(chain) ==> error.record().source == Some(chain[0]),
{
}

/// Going to the structured form and back keeps severity, reference,
/// description and metadata, and of the cause the text of its immediate link.
pub proof fn lemma_record_round_trip(error: ErrorView)
    ensures
        error.record().restore() == Some(
            ErrorView { source: error.recorded_source(), ..error },
        ),
{
    lemma_parse_name(error.severity);
}

/// Metadata shows in the structured form: after a key is set, the record
/// holds the value under that key.
pub proof fn lemma_record_shows_metadata(error: ErrorView, key: Seq<char>, value: Seq<char>)
    ensures
        (ErrorView { metadata: error.metadata.insert(key, value), ..error }).record().metadata
            == error.record().metadata.insert(key, value),
        (ErrorView { metadata: error.metadata.insert(key, value), ..error }).record().metadata[key]
            == value,
{
}

} // verus!
