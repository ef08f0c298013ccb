use vstd::prelude::*;

verus! {

/// What part of an export run failed.
#[derive(Clone, Copy, Debug, PartialEq, Eq, Structural)]
pub enum ErrorKind {
    /// Bad credentials, or a transport failure during login.
    Auth,
    /// The session list could not be fetched or read.
    Catalog,
    /// A session download failed.
    Download,
    /// A file or archive entry could not be written.
    Sink,
    /// A session's timestamp could not be read.
    TimestampParse,
}

/// An error of an export run, with a human-readable cause.
#[derive(Clone, Debug)]
pub struct ExporterError {
    pub kind: ErrorKind,
    pub cause: String,
}

impl ExporterError {
    pub fn new(kind: ErrorKind, cause: &str) -> (r: ExporterError)
        ensures
            r.kind == kind,
            r.cause@ == cause@,
    {
        ExporterError { kind, cause: String::from_str(cause) }
    }

    pub fn description(&self) -> (r: &str)
        ensures
            r@ == self.cause@,
    {
        self.cause.as_str()
    }
}

} // verus!
