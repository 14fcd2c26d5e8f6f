//! The fault-handling object: what to ask of the kernel, and what its answers
//! mean.
//!
//! A [`Uffd`] stands for one userfaultfd descriptor.  It performs no system
//! call.  For each control call it builds the argument block that the caller
//! hands to `ioctl(2)`, and it turns what came back into the result of the
//! operation.

use crate::error::Errno;
use crate::error::Error;
use crate::error::nix_errno_of;
use crate::feature_flags::FeatureFlags;
use crate::ioctl_flags::IoctlFlags;
use crate::raw::Target;
use crate::raw::uffdio_copy;
use crate::raw::uffdio_range;
use crate::raw::uffdio_register;
use crate::raw::uffdio_writeprotect;
use crate::raw::uffdio_zeropage;
use crate::raw::UFFDIO_COPY_MODE_DONTWAKE;
use crate::raw::UFFDIO_REGISTER_MODE_MISSING;
use crate::raw::UFFDIO_WRITEPROTECT_MODE_DONTWAKE;
use crate::raw::UFFDIO_WRITEPROTECT_MODE_WP;
use crate::raw::UFFDIO_ZEROPAGE_MODE_DONTWAKE;
use crate::register_mode::RegisterMode;
use vstd::prelude::*;

verus! {

/// The userfaultfd object.
///
/// It holds the number of the descriptor, the features that the handshake
/// enabled on it, the control calls that the kernel accepts for it, and what
/// the target fixes.  The value does not close the descriptor: whoever performs
/// the system calls owns that duty, and must do it once.
#[derive(Debug, PartialEq, Eq)]
pub struct Uffd {
    fd: i32,
    features: FeatureFlags,
    ioctls: IoctlFlags,
    target: Target,
}

/// The error code that a negative result field of a copy or zero-page block
/// holds: the field negated and cut to 32 bits.
pub open spec fn negated_code(field: i64) -> i32 {
    if field == i64::MIN {
        0
    } else {
        (-field) as i32
    }
}

/// What a finished copy call amounts to.
pub open spec fn copy_outcome(reply: Result<uffdio_copy, Errno>) -> Result<usize, Error> {
    match reply {
        Err(e) => Err(Error::CopyFailed(e)),
        Ok(block) => if block.copy < 0 {
            Err(Error::CopyFailed(Errno(nix_errno_of(negated_code(block.copy)))))
        } else {
            Ok(block.copy as usize)
        },
    }
}

/// What a finished zero-page call amounts to.
pub open spec fn zeropage_outcome(reply: Result<uffdio_zeropage, Errno>) -> Result<
    usize,
    Error,
> {
    match reply {
        Err(e) => Err(Error::ZeropageFailed(e)),
        Ok(block) => if block.zeropage < 0 {
            Err(Error::ZeropageFailed(Errno(nix_errno_of(negated_code(block.zeropage)))))
        } else {
            Ok(block.zeropage as usize)
        },
    }
}

/// The error code that a negative result field of a copy or zero-page block
/// holds.
pub fn negate_code(field: i64) -> (code: i32)
    ensures
        code == negated_code(field),
{
    if field == i64::MIN {
        0
    } else {
        (-field) as i32
    }
}

impl Uffd {
    /// The handle for descriptor `fd` with the given negotiated sets, for the
    /// given target.
    pub closed spec fn of(
        fd: i32,
        features: FeatureFlags,
        ioctls: IoctlFlags,
        target: Target,
    ) -> Uffd {
        Uffd { fd, features, ioctls, target }
    }

    /// The number of the descriptor.
    pub closed spec fn spec_as_raw_fd(&self) -> i32 {
        self.fd
    }

    /// The features that are enabled on the descriptor.
    pub closed spec fn spec_features(&self) -> FeatureFlags {
        self.features
    }

    /// The control calls that the kernel accepts for the descriptor.
    pub closed spec fn spec_ioctls(&self) -> IoctlFlags {
        self.ioctls
    }

    /// What the target fixes.
    pub closed spec fn spec_target(&self) -> Target {
        self.target
    }

    /// A handle is made of its four parts.
    pub broadcast proof fn lemma_parts(
        fd: i32,
        features: FeatureFlags,
        ioctls: IoctlFlags,
        target: Target,
    )
        ensures
            (#[trigger] Self::of(fd, features, ioctls, target)).spec_as_raw_fd() == fd,
            Self::of(fd, features, ioctls, target).spec_features() == features,
            Self::of(fd, features, ioctls, target).spec_ioctls() == ioctls,
            Self::of(fd, features, ioctls, target).spec_target() == target,
    {
    }

    /// Makes the handle for a descriptor of which the caller knows the features
    /// that are enabled on it and the control calls that the kernel accepts for
    /// it: one that was taken over from elsewhere, with what its handshake
    /// gave.
    ///
    /// The caller answers for `fd` being a userfaultfd descriptor that no other
    /// handle stands for.
    pub fn new(fd: i32, features: FeatureFlags, ioctls: IoctlFlags, target: Target) -> (uffd: Uffd)
        ensures
            uffd == Self::of(fd, features, ioctls, target),
    {
        Uffd { fd, features, ioctls, target }
    }

    /// The number of the descriptor.
    #[verifier::when_used_as_spec(spec_as_raw_fd)]
    pub fn as_raw_fd(&self) -> (fd: i32)
        ensures
            fd == self.spec_as_raw_fd(),
    {
        self.fd
    }

    /// Gives up the handle and returns the number of the descriptor, which the
    /// caller now has to close.
    pub fn into_raw_fd(self) -> (fd: i32)
        ensures
            fd == self.spec_as_raw_fd(),
    {
        self.fd
    }

    /// Makes a handle for a descriptor of which nothing is known: no feature
    /// counts as enabled, no control call as reported.
    ///
    /// The caller answers for `fd` being a userfaultfd descriptor that no other
    /// handle stands for.
    pub fn from_fd(fd: i32, target: Target) -> (uffd: Uffd)
        ensures
            uffd.spec_as_raw_fd() == fd,
            uffd.spec_features()@ == Set::<nat>::empty(),
            uffd.spec_ioctls()@ == Set::<nat>::empty(),
            uffd.spec_target() == target,
    {
        Uffd { fd, features: FeatureFlags::empty(), ioctls: IoctlFlags::empty(), target }
    }

    /// What the target fixes.
    #[verifier::when_used_as_spec(spec_target)]
    pub fn target(&self) -> (t: Target)
        ensures
            t == self.spec_target(),
    {
        self.target
    }

    /// The features that are enabled on the descriptor.
    #[verifier::when_used_as_spec(spec_features)]
    pub fn features(&self) -> (f: FeatureFlags)
        ensures
            f == self.spec_features(),
    {
        self.features
    }

    /// The control calls that the kernel accepts for the descriptor.
    #[verifier::when_used_as_spec(spec_ioctls)]
    pub fn ioctls(&self) -> (f: IoctlFlags)
        ensures
            f == self.spec_ioctls(),
    {
        self.ioctls
    }

    /// The argument block that registers the range of `len` bytes at `start` for
    /// missing page faults.
    ///
    /// Hand the block after the call to [`Uffd::registered`].
    pub fn register(&self, start: usize, len: usize) -> (block: uffdio_register)
        ensures
            block == (uffdio_register {
                range: uffdio_range { start: start as u64, len: len as u64 },
                mode: UFFDIO_REGISTER_MODE_MISSING,
                ioctls: 0,
            }),
    {
        self.register_with_mode(start, len, RegisterMode::missing())
    }

    /// The argument block that registers the range of `len` bytes at `start` for
    /// the fault classes in `mode`.
    ///
    /// Hand the block after the call to [`Uffd::registered`].
    pub fn register_with_mode(&self, start: usize, len: usize, mode: RegisterMode) -> (block:
        uffdio_register)
        ensures
            block == (uffdio_register {
                range: uffdio_range { start: start as u64, len: len as u64 },
                mode: mode.spec_bits(),
                ioctls: 0,
            }),
    {
        uffdio_register {
            range: uffdio_range { start: start as u64, len: len as u64 },
            mode: mode.bits(),
            ioctls: 0,
        }
    }

    /// The control calls that are available for a range just registered.
    ///
    /// `reply` is the block as the kernel left it, or the error of the call.  A
    /// mask with a bit that stands for no known call is refused.
    pub fn registered(&self, reply: Result<uffdio_register, Errno>) -> (r: Result<
        IoctlFlags,
        Error,
    >)
        ensures
            match reply {
                Err(e) => r == Err::<IoctlFlags, Error>(Error::SystemError(e)),
                Ok(block) => if IoctlFlags::recognizes(block.ioctls) {
                    r is Ok && r->Ok_0.spec_bits() == block.ioctls
                } else {
                    r == Err::<IoctlFlags, Error>(Error::UnrecognizedIoctls(block.ioctls))
                },
            },
    {
        match reply {
            Err(e) => Err(Error::SystemError(e)),
            Ok(block) => match IoctlFlags::from_bits(block.ioctls) {
                Some(flags) => Ok(flags),
                None => Err(Error::UnrecognizedIoctls(block.ioctls)),
            },
        }
    }

    /// The argument block that takes the range of `len` bytes at `start` out of
    /// the descriptor's care.
    pub fn unregister(&self, start: usize, len: usize) -> (block: uffdio_range)
        ensures
            block == (uffdio_range { start: start as u64, len: len as u64 }),
    {
        uffdio_range { start: start as u64, len: len as u64 }
    }

    /// The argument block that copies `len` bytes from `src` into the registered
    /// range at `dst`.  With `wake`, the kernel wakes the threads that wait on
    /// the range; without, they stay blocked until a wake call.
    ///
    /// Hand the block after the call to [`Uffd::copied`].
    pub fn copy(&self, src: usize, dst: usize, len: usize, wake: bool) -> (block: uffdio_copy)
        ensures
            block == (uffdio_copy {
                dst: dst as u64,
                src: src as u64,
                len: len as u64,
                mode: if wake {
                    0
                } else {
                    UFFDIO_COPY_MODE_DONTWAKE
                },
                copy: 0,
            }),
    {
        uffdio_copy {
            dst: dst as u64,
            src: src as u64,
            len: len as u64,
            mode: if wake {
                0
            } else {
                UFFDIO_COPY_MODE_DONTWAKE
            },
            copy: 0,
        }
    }

    /// The number of bytes that a copy call copied.
    ///
    /// `reply` is the block as the kernel left it, or the error of the call.  A
    /// negative count in the block is an error code, negated.
    pub fn copied(&self, reply: Result<uffdio_copy, Errno>) -> (r: Result<usize, Error>)
        ensures
            r == copy_outcome(reply),
            reply is Ok && reply->Ok_0.copy < 0 ==> r is Err && r->Err_0 is CopyFailed && (
            r->Err_0->CopyFailed_0.0 == negated_code(reply->Ok_0.copy)
                || r->Err_0->CopyFailed_0.0 == 0),
    {
        match reply {
            Err(e) => Err(Error::CopyFailed(e)),
            Ok(block) => if block.copy < 0 {
                Err(Error::CopyFailed(Errno::from_i32(negate_code(block.copy))))
            } else {
                Ok(block.copy as usize)
            },
        }
    }

    /// The argument block that fills the registered range of `len` bytes at
    /// `start` with zeros.  With `wake`, the kernel wakes the threads that wait
    /// on the range; without, they stay blocked until a wake call.
    ///
    /// Hand the block after the call to [`Uffd::zeroed`].
    pub fn zeropage(&self, start: usize, len: usize, wake: bool) -> (block: uffdio_zeropage)
        ensures
            block == (uffdio_zeropage {
                range: uffdio_range { start: start as u64, len: len as u64 },
                mode: if wake {
                    0
                } else {
                    UFFDIO_ZEROPAGE_MODE_DONTWAKE
                },
                zeropage: 0,
            }),
    {
        uffdio_zeropage {
            range: uffdio_range { start: start as u64, len: len as u64 },
            mode: if wake {
                0
            } else {
                UFFDIO_ZEROPAGE_MODE_DONTWAKE
            },
            zeropage: 0,
        }
    }

    /// The number of bytes that a zero-page call filled.
    ///
    /// `reply` is the block as the kernel left it, or the error of the call.  A
    /// negative count in the block is an error code, negated.
    pub fn zeroed(&self, reply: Result<uffdio_zeropage, Errno>) -> (r: Result<usize, Error>)
        ensures
            r == zeropage_outcome(reply),
            reply is Ok && reply->Ok_0.zeropage < 0 ==> r is Err && r->Err_0 is ZeropageFailed && (
            r->Err_0->ZeropageFailed_0.0 == negated_code(reply->Ok_0.zeropage)
                || r->Err_0->ZeropageFailed_0.0 == 0),
    {
        match reply {
            Err(e) => Err(Error::ZeropageFailed(e)),
            Ok(block) => if block.zeropage < 0 {
                Err(Error::ZeropageFailed(Errno::from_i32(negate_code(block.zeropage))))
            } else {
                Ok(block.zeropage as usize)
            },
        }
    }

    /// The argument block that wakes the threads that wait for the range of
    /// `len` bytes at `start`.
    pub fn wake(&self, start: usize, len: usize) -> (block: uffdio_range)
        ensures
            block == (uffdio_range { start: start as u64, len: len as u64 }),
    {
        uffdio_range { start: start as u64, len: len as u64 }
    }

    /// The argument block that makes the range of `len` bytes at `start`
    /// write-protected.
    pub fn write_protect(&self, start: usize, len: usize) -> (block: uffdio_writeprotect)
        ensures
            block == (uffdio_writeprotect {
                range: uffdio_range { start: start as u64, len: len as u64 },
                mode: UFFDIO_WRITEPROTECT_MODE_WP,
            }),
    {
        uffdio_writeprotect {
            range: uffdio_range { start: start as u64, len: len as u64 },
            mode: UFFDIO_WRITEPROTECT_MODE_WP,
        }
    }

    /// The argument block that removes the write protection of the range of
    /// `len` bytes at `start`.  With `wake`, the kernel wakes the threads that
    /// wait on the range; without, they stay blocked until a wake call.
    pub fn remove_write_protection(&self, start: usize, len: usize, wake: bool) -> (block:
        uffdio_writeprotect)
        ensures
            block == (uffdio_writeprotect {
                range: uffdio_range { start: start as u64, len: len as u64 },
                mode: if wake {
                    0
                } else {
                    UFFDIO_WRITEPROTECT_MODE_DONTWAKE
                },
            }),
    {
        uffdio_writeprotect {
            range: uffdio_range { start: start as u64, len: len as u64 },
            mode: if wake {
                0
            } else {
                UFFDIO_WRITEPROTECT_MODE_DONTWAKE
            },
        }
    }

    /// The result of a control call that answers with nothing but success or an
    /// error: unregister, wake, and the two write-protect calls.
    pub fn done(&self, reply: Result<(), Errno>) -> (r: Result<(), Error>)
        ensures
            r == match reply {
                Ok(()) => Ok::<(), Error>(()),
                Err(e) => Err::<(), Error>(Error::SystemError(e)),
            },
    {
        match reply {
            Ok(()) => Ok(()),
            Err(e) => Err(Error::SystemError(e)),
        }
    }
}

} // verus!
