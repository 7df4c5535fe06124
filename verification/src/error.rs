use vstd::prelude::*;

verus! {

/// Every way an invocation can fail. Each failure is terminal: the handler
/// returns the code to the host runtime and leaves the account unchanged.
#[derive(Clone, Copy, Debug, PartialEq, Eq, Structural)]
pub enum ErrorKind {
    /// The account sequence handed to the handler was empty.
    MissingAccount,
    /// The instruction payload, or the stored account bytes, are not the
    /// four-byte encoding of a record.
    InvalidPayload,
    /// The account's owner is not the program being executed.
    PermissionDenied,
    /// The account's storage is too small to hold an encoded record.
    BufferTooSmall,
}

} // verus!
