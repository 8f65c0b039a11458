use mcp_error::{Cause, Error, ErrorRecord, Metadata, Severity, SourceRecord};
use serde::ser::{Serialize, SerializeMap, SerializeStruct, Serializer};
use std::io;

/// The entries of the metadata as a key-value record.
struct Entries<'a>(&'a Metadata);

impl Serialize for Entries<'_> {
    fn serialize<S: Serializer>(&self, serializer: S) -> Result<S::Ok, S::Error> {
        let mut map = serializer.serialize_map(Some(self.0.len()))?;
        let mut i = 0;
        while let Some((key, value)) = self.0.entry(i) {
            map.serialize_entry(key, value)?;
            i += 1;
        }
        map.end()
    }
}

/// The nested record of the cause, or nothing.
struct Source<'a>(&'a Option<SourceRecord>);

impl Serialize for Source<'_> {
    fn serialize<S: Serializer>(&self, serializer: S) -> Result<S::Ok, S::Error> {
        match self.0 {
            Some(source) => {
                let mut state = serializer.serialize_struct("Source", 1)?;
                state.serialize_field("message", &source.message)?;
                state.end()
            },
            None => serializer.serialize_none(),
        }
    }
}

/// The structured form, field by field.
struct Structured<'a>(&'a ErrorRecord);

impl Serialize for Structured<'_> {
    fn serialize<S: Serializer>(&self, serializer: S) -> Result<S::Ok, S::Error> {
        let mut state = serializer.serialize_struct("Error", 5)?;
        state.serialize_field("severity", &self.0.severity)?;
        state.serialize_field("reference", &self.0.reference)?;
        state.serialize_field("description", &self.0.description)?;
        state.serialize_field("metadata", &Entries(&self.0.metadata))?;
        state.serialize_field("source", &Source(&self.0.source))?;
        state.end()
    }
}

#[test]
fn serialize_error() {
    let err = Error::new(Severity::Error, "NET-001", "Timeout");
    let serialized = serde_json::to_string(&Structured(&err.to_record())).unwrap();
    let expected = r#"{"severity":"Error","reference":"NET-001","description":"Timeout","metadata":{},"source":null}"#;
    assert_eq!(serialized, expected);
}

#[test]
fn serialize_error_with_source() {
    let io_err = io::Error::new(io::ErrorKind::NotFound, "File not found");
    let ephais_err = Error::new(Severity::Error, "FSY-404", "Cannot read file")
        .with_source(Cause::new(&io_err.to_string()));

    let serialized = serde_json::to_string(&Structured(&ephais_err.to_record())).unwrap();
    let expected = r#"{"severity":"Error","reference":"FSY-404","description":"Cannot read file","metadata":{},"source":{"message":"File not found"}}"#;
    assert_eq!(serialized, expected);
}

#[test]
fn serialize_error_with_metadata() {
    let err = Error::new(Severity::Warning, "DS-002", "Data parse incomplete")
        .insert_metadata("filename", "data.json")
        .insert_metadata("line", "42")
        .insert_metadata("filename", "other.json");
    let serialized = serde_json::to_string(&Structured(&err.to_record())).unwrap();
    let expected = r#"{"severity":"Warning","reference":"DS-002","description":"Data parse incomplete","metadata":{"filename":"other.json","line":"42"},"source":null}"#;
    assert_eq!(serialized, expected);
}

#[test]
fn record_without_cause_has_no_source() {
    let record = Error::new(Severity::Error, "NET-001", "Timeout").to_record();
    assert_eq!(record.severity, "Error");
    assert_eq!(record.reference, "NET-001");
    assert_eq!(record.description, "Timeout");
    assert!(record.metadata.is_empty());
    assert!(record.source.is_none());
}

#[test]
fn record_with_cause_holds_its_text_only() {
    let cause = Cause::new("outer").with_source(Cause::new("inner"));
    let record = Error::new(Severity::Critical, "X-1", "d").with_source(cause).to_record();
    assert_eq!(record.severity, "Critical");
    assert_eq!(record.source.unwrap().message, "outer");
}

#[test]
fn record_names_each_severity() {
    assert_eq!(Error::new(Severity::Critical, "A", "d").to_record().severity, "Critical");
    assert_eq!(Error::new(Severity::Error, "A", "d").to_record().severity, "Error");
    assert_eq!(Error::new(Severity::Warning, "A", "d").to_record().severity, "Warning");
    assert_eq!(Error::new(Severity::Info, "A", "d").to_record().severity, "Info");
}

#[test]
fn metadata_shows_in_the_record() {
    let plain = Error::new(Severity::Error, "NET-001", "Timeout");
    assert_eq!(plain.to_record().metadata.get("host"), None);
    let with_metadata = plain.insert_metadata("host", "example.org");
    assert_eq!(with_metadata.to_record().metadata.get("host").unwrap(), "example.org");
    assert_eq!(with_metadata.to_record().metadata.len(), 1);
}

#[test]
fn round_trip_keeps_all_but_the_chain() {
    let err = Error::new(Severity::Warning, "DS-002", "Data parse incomplete")
        .insert_metadata("filename", "data.json")
        .insert_metadata("line", "42")
        .with_source(Cause::new("outer").with_source(Cause::new("inner")));
    let back = Error::from_record(err.to_record()).unwrap();
    assert_eq!(back.severity, err.severity);
    assert_eq!(back.reference, err.reference);
    assert_eq!(back.description, err.description);
    assert_eq!(back.metadata.len(), 2);
    assert_eq!(back.metadata.entry(0), err.metadata.entry(0));
    assert_eq!(back.metadata.entry(1), err.metadata.entry(1));
    let cause = back.get_source().unwrap();
    assert_eq!(cause.to_string(), "outer");
    assert!(cause.get_source().is_none());
    assert_eq!(back.to_string(), err.to_string());
}

#[test]
fn round_trip_without_cause() {
    let all = [Severity::Critical, Severity::Error, Severity::Warning, Severity::Info];
    for s in all {
        let err = Error::new(s, "NET-001", "Timeout");
        let back = Error::from_record(err.to_record()).unwrap();
        assert_eq!(back.severity, s);
        assert_eq!(back.reference, "NET-001");
        assert_eq!(back.description, "Timeout");
        assert!(back.metadata.is_empty());
        assert!(back.get_source().is_none());
    }
}

#[test]
fn record_with_an_unknown_severity_stands_for_no_error() {
    let record = ErrorRecord {
        severity: String::from("Fatal"),
        reference: String::from("A-1"),
        description: String::from("d"),
        metadata: Metadata::new(),
        source: None,
    };
    assert!(Error::from_record(record).is_none());
    let record = ErrorRecord {
        severity: String::from("ERR"),
        reference: String::from("A-1"),
        description: String::from("d"),
        metadata: Metadata::new(),
        source: Some(SourceRecord { message: String::from("m") }),
    };
    assert!(Error::from_record(record).is_none());
}

#[test]
fn source_record_of_an_optional_cause() {
    assert!(SourceRecord::of(&None).is_none());
    let cause = Some(Cause::new("outer").with_source(Cause::new("inner")));
    assert_eq!(SourceRecord::of(&cause).unwrap().message, "outer");
}
