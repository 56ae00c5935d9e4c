//! The failure taxonomy of the layer: every operation returns a typed error
//! carrying an optional human-readable cause, and nothing is retried.

use vstd::prelude::*;

verus! {

/// What went wrong, as a closed taxonomy.
#[derive(Clone, Copy, Debug, PartialEq, Eq, Structural)]
pub enum ErrorKind {
    /// No free port in the configured range.
    ResourceExhausted,
    /// A persisted configuration document could not be parsed.
    ConfigCorrupt,
    /// The embedded host process could not be built.
    ProcessBuildFailed,
    /// The host process was built but a control channel could not be opened.
    ConnectFailed,
    /// The application bundle was not found at its source.
    BundleNotFound,
    /// The host rejected the bundle during installation.
    InstallRejected,
    /// The host refused to enable the installed application.
    EnableFailed,
    /// The expected named cell is absent from the installed application.
    CellNotFound,
    /// An application interface could not be attached.
    InterfaceAttachFailed,
    /// The keystore was unavailable or refused to sign.
    SigningFailed,
    /// The host rejected a signed call.
    CallRejected,
    /// Response bytes did not match the expected shape.
    DecodeError,
}

/// A typed failure with an optional human-readable cause.
#[derive(Debug)]
pub struct Error {
    pub kind: ErrorKind,
    pub detail: Option<String>,
}

impl Error {
    /// A failure of the given kind with no further detail.
    pub fn new(kind: ErrorKind) -> (r: Error)
        ensures
            r.kind == kind,
            r.detail is None,
    {
        Error { kind, detail: None }
    }

    /// A failure of the given kind carrying a host- or system-supplied reason.
    pub fn with_detail(kind: ErrorKind, detail: String) -> (r: Error)
        ensures
            r.kind == kind,
            r.detail == Some(detail),
    {
        Error { kind, detail: Some(detail) }
    }

    /// The kind of this failure.
    pub fn kind(&self) -> (k: ErrorKind)
        ensures
            k == self.kind,
    {
        self.kind
    }
}

} // verus!
