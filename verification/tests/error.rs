use mcp_error::{Cause, Error, Failure, Severity};
use mcp_error::{DomainError, Metadata};
use std::io;

/// Accepts only what may be moved to and shared with another thread.
fn crosses_threads<T: Send + Sync>(value: T) -> T {
    value
}

#[test]
fn create_basic_error() {
    let err = Error::new(Severity::Error, "NET-001", "Timeout");
    assert_eq!(err.severity, Severity::Error);
    assert_eq!(err.reference, "NET-001");
    assert_eq!(err.description, "Timeout");
    assert!(err.source.is_none());
}

#[test]
fn attach_source_error() {
    let io_err = io::Error::new(io::ErrorKind::NotFound, "File not found");
    let mcp_err = Error::new(Severity::Error, "FSY-404", "Cannot read file")
        .with_source(Cause::new(&io_err.to_string()));

    // The rendering includes the source:
    let out = format!("{}", mcp_err.to_string());
    assert!(out.contains("Source: File not found"));

    // The cause lookup returns Some
    assert!(mcp_err.get_source().is_some());
}

#[test]
fn insert_metadata() {
    let mut err = Error::new(Severity::Warning, "DS-002", "Data parse incomplete");
    err = err.insert_metadata("filename", "data.json");
    err = err.insert_metadata("line", "42");

    assert_eq!(err.metadata.get("filename").unwrap(), "data.json");
    assert_eq!(err.metadata.get("line").unwrap(), "42");
}

#[test]
fn new_error_has_no_cause_and_no_metadata() {
    let err = Error::new(Severity::Info, "UNK-7", "nothing yet");
    assert!(err.get_source().is_none());
    assert!(err.metadata.is_empty());
    assert_eq!(err.metadata.len(), 0);
}

#[test]
fn render_without_cause_is_exact() {
    let err = Error::new(Severity::Error, "NET-001", "Timeout");
    assert_eq!(err.to_string(), "[ERR] Ref: NET-001 | Timeout");
}

#[test]
fn render_uses_the_tag_of_each_severity() {
    assert_eq!(Error::new(Severity::Critical, "A-1", "d").to_string(), "[CRIT] Ref: A-1 | d");
    assert_eq!(Error::new(Severity::Error, "A-1", "d").to_string(), "[ERR] Ref: A-1 | d");
    assert_eq!(Error::new(Severity::Warning, "A-1", "d").to_string(), "[WARN] Ref: A-1 | d");
    assert_eq!(Error::new(Severity::Info, "A-1", "d").to_string(), "[INFO] Ref: A-1 | d");
}

#[test]
fn render_with_cause_is_exact() {
    let err = Error::new(Severity::Error, "FSY-404", "Cannot read file")
        .with_source(Cause::new("File not found"));
    assert_eq!(
        err.to_string(),
        "[ERR] Ref: FSY-404 | Cannot read file | Source: File not found"
    );
}

#[test]
fn render_ends_with_the_text_of_the_cause() {
    let cause = Cause::new("disk is gone");
    let text = cause.to_string();
    let err = Error::new(Severity::Critical, "FSY-1", "write failed").with_source(cause);
    assert!(err.to_string().ends_with(&format!(" | Source: {}", text)));
    assert_eq!(err.get_source().unwrap().to_string(), text);
}

#[test]
fn render_shows_the_immediate_cause_only() {
    let cause = Cause::new("outer").with_source(Cause::new("inner"));
    let err = Error::new(Severity::Error, "X-1", "d").with_source(cause);
    assert_eq!(err.to_string(), "[ERR] Ref: X-1 | d | Source: outer");
}

#[test]
fn with_source_replaces_an_earlier_cause() {
    let err = Error::new(Severity::Error, "X-1", "d")
        .with_source(Cause::new("first"))
        .with_source(Cause::new("second"));
    assert_eq!(err.get_source().unwrap().to_string(), "second");
    assert_eq!(err.to_string(), "[ERR] Ref: X-1 | d | Source: second");
}

#[test]
fn with_source_keeps_the_other_fields() {
    let err = Error::new(Severity::Warning, "X-2", "desc")
        .insert_metadata("k", "v")
        .with_source(Cause::new("c"));
    assert_eq!(err.severity, Severity::Warning);
    assert_eq!(err.reference, "X-2");
    assert_eq!(err.description, "desc");
    assert_eq!(err.metadata.get("k").unwrap(), "v");
}

#[test]
fn empty_texts_render() {
    let err = Error::new(Severity::Info, "", "");
    assert_eq!(err.to_string(), "[INFO] Ref:  | ");
    let err = err.with_source(Cause::new(""));
    assert_eq!(err.to_string(), "[INFO] Ref:  |  | Source: ");
}

#[test]
fn text_outside_ascii_renders() {
    let err = Error::new(Severity::Error, "NET-é", "délai dépassé")
        .with_source(Cause::new("hôte injoignable"));
    assert_eq!(
        err.to_string(),
        "[ERR] Ref: NET-é | délai dépassé | Source: hôte injoignable"
    );
}

#[test]
fn metadata_is_not_rendered() {
    let plain = Error::new(Severity::Error, "NET-001", "Timeout");
    let before = plain.to_string();
    let with_metadata = plain.insert_metadata("host", "example.org");
    assert_eq!(with_metadata.to_string(), before);
}

#[test]
fn inserting_a_key_twice_overwrites() {
    let err = Error::new(Severity::Error, "NET-001", "Timeout")
        .insert_metadata("attempt", "1")
        .insert_metadata("attempt", "2");
    assert_eq!(err.metadata.len(), 1);
    assert_eq!(err.metadata.get("attempt").unwrap(), "2");
}

#[test]
fn inserting_the_same_entry_twice_changes_nothing() {
    let once = Error::new(Severity::Error, "NET-001", "Timeout").insert_metadata("a", "b");
    let twice = Error::new(Severity::Error, "NET-001", "Timeout")
        .insert_metadata("a", "b")
        .insert_metadata("a", "b");
    assert_eq!(once.metadata.len(), twice.metadata.len());
    assert_eq!(once.metadata.get("a"), twice.metadata.get("a"));
    assert_eq!(once.metadata.entry(0), twice.metadata.entry(0));
    assert_eq!(twice.metadata.entry(1), None);
}

#[test]
fn error_as_a_cause_carries_its_rendering_and_its_cause() {
    let low = Error::new(Severity::Error, "FSY-404", "Cannot read file")
        .with_source(Cause::new("File not found"));
    let rendering = low.to_string();
    assert_eq!(low.describe(), rendering);
    let link = low.into_cause();
    assert_eq!(link.to_string(), rendering);
    assert_eq!(link.get_source().unwrap().to_string(), "File not found");
    assert!(link.get_source().unwrap().get_source().is_none());
}

#[test]
fn error_without_cause_as_a_cause_wraps_nothing() {
    let link = Error::new(Severity::Info, "A-1", "d").into_cause();
    assert_eq!(link.to_string(), "[INFO] Ref: A-1 | d");
    assert!(link.get_source().is_none());
}

#[test]
fn errors_may_cross_threads() {
    let err = crosses_threads(
        Error::new(Severity::Error, "NET-001", "Timeout").with_source(Cause::new("c")),
    );
    assert_eq!(err.reference, "NET-001");
    let err = crosses_threads(DomainError::external("API", "d", Cause::new("c")));
    assert_eq!(err.context().reference, "EXT-API");
    assert!(crosses_threads(Metadata::new()).is_empty());
    assert_eq!(crosses_threads(Cause::new("c")).to_string(), "c");
}
