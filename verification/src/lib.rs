//! A shared error model: a severity, a stable reference code, a description,
//! free-form metadata and an optional wrapped cause, with one canonical text
//! rendering and one structured projection.
//!
//! Two shapes of error are offered. [`Error`] is one record whose kind shows
//! in the prefix of its reference code only. [`DomainError`] has one variant
//! for each domain kind, puts the kind's prefix in front of the reference
//! itself, and makes the cause a fixed part of the kinds that always have one.
//!
//! Nothing here writes or ends the process. [`OrExit`] decides what the
//! outermost caller does; doing it is that caller's part.

use vstd::prelude::*;

pub mod adapters;
pub mod cause;
pub mod context;
pub mod domain;
pub mod error;
pub mod metadata;
pub mod record;
pub mod severity;

pub use crate::adapters::EphErrorExt;
pub use crate::adapters::Exit;
pub use crate::adapters::OrExit;
pub use crate::adapters::EXIT_STATUS;
pub use crate::cause::Cause;
pub use crate::cause::Failure;
pub use crate::context::ErrorContext;
pub use crate::domain::DomainError;
pub use crate::domain::Kind;
pub use crate::error::Error;
pub use crate::metadata::Metadata;
pub use crate::record::ErrorRecord;
pub use crate::record::SourceRecord;
pub use crate::severity::Severity;

verus! {

/// The result of an operation that fails with an [`Error`].
pub type Result<T> = core::result::Result<T, crate::error::Error>;

} // verus!
