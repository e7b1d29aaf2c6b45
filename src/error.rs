use vstd::prelude::*;

verus! {

/// The classes of failure that an operation can end in.
#[derive(Debug, Clone, Copy, PartialEq, Eq, Structural)]
pub enum ErrorKind {
    /// The target or the command group is malformed (a caller error).
    ConfigInvalid,
    /// The transport connection to the target's address could not be opened.
    NetworkUnreachable,
    /// The remote-session handshake over the open transport failed.
    HandshakeFailed,
    /// The remote side refused the credentials.
    AuthRejected,
    /// An execution channel could not be opened or the command not submitted.
    ExecError,
}

/// The name under which a failure is reported.
pub open spec fn kind_label(kind: ErrorKind) -> Seq<char> {
    match kind {
        ErrorKind::ConfigInvalid => "ConfigInvalid"@,
        ErrorKind::NetworkUnreachable => "NetworkUnreachable"@,
        ErrorKind::HandshakeFailed => "HandshakeFailed"@,
        ErrorKind::AuthRejected => "AuthRejected"@,
        ErrorKind::ExecError => "ExecError"@,
    }
}

impl ErrorKind {
    /// The name under which this failure is reported.
    pub fn label(&self) -> (r: &'static str)
        ensures
            r@ == kind_label(*self),
    {
        match self {
            ErrorKind::ConfigInvalid => "ConfigInvalid",
            ErrorKind::NetworkUnreachable => "NetworkUnreachable",
            ErrorKind::HandshakeFailed => "HandshakeFailed",
            ErrorKind::AuthRejected => "AuthRejected",
            ErrorKind::ExecError => "ExecError",
        }
    }
}

} // verus!
