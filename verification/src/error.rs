//! Error codes of the operating system and the errors of this crate.

use crate::ioctl_flags::IoctlFlags;
use vstd::prelude::*;

verus! {

/// An error code of the operating system, as `errno` holds it.
#[derive(Clone, Copy, Debug, PartialEq, Eq, Hash, Structural)]
pub struct Errno(pub i32);

/// The code of the `nix::errno::Errno` value that `nix` makes of a raw code.
pub uninterp spec fn nix_errno_of(raw: i32) -> i32;

/// Calls `nix::errno::Errno::from_i32` and returns the code of the variant
/// that comes back.
///
/// Not proved: that the code is the one named `nix_errno_of(raw)`, and that it
/// is `raw` itself or 0.  In `nix`, each code that the target's `libc` names
/// gives the variant of that same code, and every other code gives
/// `UnknownErrno`, whose code is 0.
#[verifier::external_body]
fn nix_errno_from_i32(raw: i32) -> (code: i32)
    ensures
        code == nix_errno_of(raw),
        code == raw || code == 0,
{
    nix::errno::Errno::from_i32(raw) as i32
}

impl Errno {
    /// The error that `nix` knows under the code `raw`; the unknown error, with
    /// code 0, where it knows none.
    pub fn from_i32(raw: i32) -> (e: Errno)
        ensures
            e.0 == nix_errno_of(raw),
            e.0 == raw || e.0 == 0,
    {
        Errno(nix_errno_from_i32(raw))
    }

    /// The numeric code.
    pub fn code(&self) -> (c: i32)
        ensures
            c == self.0,
    {
        self.0
    }
}

/// Errors for this crate.
///
/// Several of these errors contain an underlying `Errno` value; see
/// `userfaultfd(2)` and `ioctl_userfaultfd(2)` for how to interpret them.
#[derive(Clone, Copy, Debug, PartialEq, Eq)]
pub enum Error {
    /// Copy ioctl failure with `errno` value.
    CopyFailed(Errno),
    /// Failure to read a full message from the underlying file descriptor.
    IncompleteMsg { read: usize, expected: usize },
    /// Generic system error.
    SystemError(Errno),
    /// End-of-file was read from the underlying file descriptor.
    ReadEof,
    /// An unrecognized event code was found in a message.
    UnrecognizedEvent(u8),
    /// An unrecognized ioctl bit was set in the result of API initialization or
    /// registration.
    UnrecognizedIoctls(u64),
    /// Requested ioctls were not available when initializing the API.
    UnsupportedIoctls(IoctlFlags),
    /// Zeropage ioctl failure with `errno` value.
    ZeropageFailed(Errno),
}

impl From<Errno> for Error {
    fn from(e: Errno) -> (r: Error) {
        Error::SystemError(e)
    }
}

impl vstd::std_specs::convert::FromSpecImpl<Errno> for Error {
    open spec fn obeys_from_spec() -> bool {
        true
    }

    open spec fn from_spec(e: Errno) -> Error {
        Error::SystemError(e)
    }
}

} // verus!
