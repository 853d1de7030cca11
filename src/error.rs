use vstd::prelude::*;

verus! {

/// `std::io::Error`, carried unchanged inside [`CreationError::UnableToOpenFile`].
#[verifier::external_type_specification]
#[verifier::external_body]
pub struct ExIoError(std::io::Error);

/// `nix::errno::Errno`, the OS error code carried by [`CreationError::IoctlError`].
#[verifier::external_type_specification]
#[verifier::external_body]
pub struct ExErrno(nix::errno::Errno);

/// Failures while creating a tun/tap device.
#[derive(Debug)]
pub enum CreationError {
    /// `/dev/net/tun` does not exist (the `tun` kernel module is not loaded).
    FileNotFound,
    /// `/dev/net/tun` exists but the caller lacks the network-admin privilege.
    PermissionDenied,
    /// Any other failure while opening `/dev/net/tun`.
    UnableToOpenFile(std::io::Error),
    /// The `TUNSETIFF` control call failed with the given OS error code.
    IoctlError(nix::errno::Errno),
    /// The requested or the assigned interface name is not a valid name.
    InvalidName(StringError),
}

/// Failures while converting between Rust strings and interface name buffers.
#[derive(Debug, Clone, Copy, PartialEq, Eq, Structural)]
pub enum StringError {
    /// The string does not fit; the value is the buffer capacity.
    StringTooLong(usize),
    /// The string holds a zero character at this position.
    UnexpectedNull(usize),
    /// The character at this position is not ASCII.
    InvalidCharacter(usize),
    /// The buffer holds no zero terminator.
    MangledString,
}

} // verus!
