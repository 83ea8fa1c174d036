//! The error taxonomy of the generator.
//!
//! Every failure of a run belongs to one of five kinds: bad command line
//! arguments, a template set that does not parse, a failed fetch of the
//! release metadata, a failed render of the index page, or a filesystem
//! failure. Every error is fatal to the whole run; the caller reports it
//! together with a context string naming the step that failed.

use vstd::prelude::*;

verus! {

/// The kind of a failure, one per failure mode of the generator.
#[derive(PartialEq, Eq, Structural, Clone, Copy, Debug)]
pub enum ErrorKind {
    /// The command line arguments were missing or could not be parsed.
    Usage,
    /// A template file failed to parse when the template set was loaded.
    TemplateLoad,
    /// The release metadata could not be fetched or decoded.
    Fetch,
    /// The index template could not be rendered.
    Render,
    /// A filesystem create, read, write or copy failed.
    Io,
}

/// A failure with its kind and a human-readable description of the cause.
#[derive(Debug)]
pub struct Failure {
    pub kind: ErrorKind,
    pub detail: String,
}

} // verus!
