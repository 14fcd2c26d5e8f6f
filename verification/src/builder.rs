//! Creating a userfaultfd object: the settings, and the two-step exchange with
//! the kernel that turns them into a [`Uffd`].
//!
//! The caller performs the system calls.  [`UffdBuilder::create`] says which
//! descriptor to open, [`Opening::opened`] takes what `userfaultfd(2)` returned
//! and says what to do next, and [`Negotiating::negotiated`] takes the answer
//! to the handshake and gives the handle, or the error together with the
//! descriptor that has to be closed.

use crate::bitset::lemma_positions_and;
use crate::bitset::lemma_positions_or;
use crate::bitset::lemma_positions_single;
use crate::bitset::positions;
use crate::error::Errno;
use crate::error::Error;
use crate::feature_flags::FeatureFlags;
use crate::feature_flags::FEATURE_MASK;
use crate::ioctl_flags::IoctlFlags;
use crate::ioctl_flags::IOCTL_MASK;
use crate::raw::_UFFDIO_API;
use crate::raw::_UFFDIO_REGISTER;
use crate::raw::_UFFDIO_UNREGISTER;
use crate::raw::uffdio_api;
use crate::raw::Target;
use crate::raw::UFFD_API;
use crate::raw::UFFD_API_IOCTLS;
use crate::raw::UFFD_USER_MODE_ONLY;
use crate::uffd::Uffd;
use vstd::prelude::*;

verus! {

/// What a builder is set to.
pub struct Settings {
    /// Whether the descriptor is closed across `execve(2)`.
    pub close_on_exec: bool,
    /// Whether reads of the descriptor return at once when no event is ready.
    pub non_blocking: bool,
    /// Whether the descriptor handles faults of user-mode accesses only.
    pub user_mode_only: bool,
    /// The features that the handshake asks for.
    pub req_features: FeatureFlags,
    /// The control calls that the descriptor must offer.
    pub req_ioctls: IoctlFlags,
}

/// The flags for `userfaultfd(2)`: the bits of the settings that are on.  The
/// target says which bits close-on-exec and non-blocking are.
pub open spec fn open_flags(
    close_on_exec: bool,
    non_blocking: bool,
    user_mode_only: bool,
    target: Target,
) -> i32 {
    (if close_on_exec {
        target.o_cloexec
    } else {
        0i32
    }) | (if non_blocking {
        target.o_nonblock
    } else {
        0i32
    }) | (if user_mode_only {
        UFFD_USER_MODE_ONLY
    } else {
        0i32
    })
}

/// The first step of a creation with the given settings.  There are fallback
/// flags exactly where the user-mode-only bit is asked for: kernels before 5.11
/// do not know it and refuse it as invalid.  The fallback flags are the flags
/// without that bit.
pub open spec fn initial(settings: Settings, target: Target) -> Opening {
    let flags = open_flags(
        settings.close_on_exec,
        settings.non_blocking,
        settings.user_mode_only,
        target,
    );
    Opening {
        flags,
        fallback: if settings.user_mode_only {
            Some(flags & !UFFD_USER_MODE_ONLY)
        } else {
            None
        },
        features: settings.req_features,
        ioctls: settings.req_ioctls,
        target,
    }
}

/// A builder for initializing `Uffd` objects.
pub struct UffdBuilder {
    close_on_exec: bool,
    non_blocking: bool,
    user_mode_only: bool,
    req_features: FeatureFlags,
    req_ioctls: IoctlFlags,
}

impl View for UffdBuilder {
    type V = Settings;

    closed spec fn view(&self) -> Settings {
        Settings {
            close_on_exec: self.close_on_exec,
            non_blocking: self.non_blocking,
            user_mode_only: self.user_mode_only,
            req_features: self.req_features,
            req_ioctls: self.req_ioctls,
        }
    }
}

impl UffdBuilder {
    /// Create a new builder with no required features or ioctls, `close_on_exec`
    /// and `non_blocking` both set to `false`, and `user_mode_only` set to
    /// `true`.
    pub fn new() -> (b: UffdBuilder)
        ensures
            !b@.close_on_exec,
            !b@.non_blocking,
            b@.user_mode_only,
            b@.req_features@ == Set::<nat>::empty(),
            b@.req_ioctls@ == Set::<nat>::empty(),
    {
        UffdBuilder {
            close_on_exec: false,
            non_blocking: false,
            user_mode_only: true,
            req_features: FeatureFlags::empty(),
            req_ioctls: IoctlFlags::empty(),
        }
    }

    /// Enable the close-on-exec flag for the new userfaultfd object (see the
    /// description of `O_CLOEXEC` in `open(2)`).
    pub fn close_on_exec(&mut self, close_on_exec: bool) -> (b: &mut Self)
        ensures
            b@ == (Settings { close_on_exec, ..old(self)@ }),
            *final(self) == *final(b),
    {
        self.close_on_exec = close_on_exec;
        self
    }

    /// Enable non-blocking operation for the userfaultfd object.
    ///
    /// If this is set to `false`, a read of the descriptor blocks until an event
    /// is available.  Otherwise it fails at once with `EAGAIN` when none is,
    /// which [`Uffd::read_event`] reports as `None`.
    pub fn non_blocking(&mut self, non_blocking: bool) -> (b: &mut Self)
        ensures
            b@ == (Settings { non_blocking, ..old(self)@ }),
            *final(self) == *final(b),
    {
        self.non_blocking = non_blocking;
        self
    }

    /// Enable user-mode only flag for the userfaultfd object.
    ///
    /// If set to `false`, the process must have the `CAP_SYS_PTRACE` capability
    /// starting with Linux 5.11 or object creation will fail with `EPERM`.  When
    /// set to `true`, userfaultfd can't be used to handle kernel-mode page
    /// faults such as when kernel tries copying data to userspace.
    ///
    /// When used with kernels older than 5.11, this has no effect; the process
    /// doesn't need `CAP_SYS_PTRACE` and can handle kernel-mode page faults.
    pub fn user_mode_only(&mut self, user_mode_only: bool) -> (b: &mut Self)
        ensures
            b@ == (Settings { user_mode_only, ..old(self)@ }),
            *final(self) == *final(b),
    {
        self.user_mode_only = user_mode_only;
        self
    }

    /// Add a requirement that a particular feature or set of features is
    /// available.
    pub fn require_features(&mut self, feature: FeatureFlags) -> (b: &mut Self)
        ensures
            b@ == (Settings {
                req_features: old(self)@.req_features.spec_union(feature),
                ..old(self)@
            }),
            b@.req_features@ == old(self)@.req_features@.union(feature@),
            *final(self) == *final(b),
    {
        self.req_features.insert(feature);
        self
    }

    /// Add a requirement that a particular ioctl or set of ioctls is available.
    ///
    /// If a required ioctl is unavailable, the handshake ends with
    /// [`Error::UnsupportedIoctls`].
    pub fn require_ioctls(&mut self, ioctls: IoctlFlags) -> (b: &mut Self)
        ensures
            b@ == (Settings { req_ioctls: old(self)@.req_ioctls.spec_union(ioctls), ..old(self)@ }),
            b@.req_ioctls@ == old(self)@.req_ioctls@.union(ioctls@),
            *final(self) == *final(b),
    {
        self.req_ioctls.insert(ioctls);
        self
    }

    /// Starts the creation of a `Uffd` object with the current settings of this
    /// builder, for the given target: the result says how to open the
    /// descriptor.
    pub fn create(&self, target: Target) -> (opening: Opening)
        ensures
            opening == initial(self@, target),
    {
        let flags: i32 = (if self.close_on_exec {
            target.o_cloexec
        } else {
            0i32
        }) | (if self.non_blocking {
            target.o_nonblock
        } else {
            0i32
        }) | (if self.user_mode_only {
            UFFD_USER_MODE_ONLY
        } else {
            0i32
        });
        let fallback = if self.user_mode_only {
            Some(flags & !UFFD_USER_MODE_ONLY)
        } else {
            None
        };
        Opening { flags, fallback, features: self.req_features, ioctls: self.req_ioctls, target }
    }
}

/// First step of the creation: a descriptor is to be opened.
///
/// Call `userfaultfd(2)` with `flags` and hand what it returned to
/// [`Opening::opened`].
#[derive(Clone, Copy, Debug, PartialEq, Eq)]
pub struct Opening {
    /// The flags for `userfaultfd(2)`.
    pub flags: i32,
    /// The flags to try next if the kernel refuses `flags` as invalid: those
    /// without the user-mode-only bit, which kernels before 5.11 do not know.
    pub fallback: Option<i32>,
    /// The features that the handshake will ask for.
    pub features: FeatureFlags,
    /// The control calls that the descriptor must offer.
    pub ioctls: IoctlFlags,
    /// What the target fixes.
    pub target: Target,
}

/// What follows an attempt to open a descriptor.
#[derive(Clone, Copy, Debug, PartialEq, Eq)]
pub enum Opened {
    /// The kernel refused the flags as invalid, and there are others to try:
    /// open again as this step says.
    Retry(Opening),
    /// The descriptor is open: perform the handshake on it.
    Negotiate(Negotiating),
    /// No descriptor was opened, and none will be.
    Failed(Error),
}

/// Second step of the creation: the handshake on the open descriptor.
///
/// Perform the API control call on `fd` with the block of
/// [`Negotiating::request`] and hand the outcome to
/// [`Negotiating::negotiated`].
#[derive(Clone, Copy, Debug, PartialEq, Eq)]
pub struct Negotiating {
    /// The descriptor that was opened.
    pub fd: i32,
    /// The features that the handshake asks for.
    pub features: FeatureFlags,
    /// The control calls that the descriptor must offer.
    pub ioctls: IoctlFlags,
    /// What the target fixes.
    pub target: Target,
}

/// A handshake that failed.  The descriptor is open and of no use: close it.
#[derive(Clone, Copy, Debug, PartialEq, Eq)]
pub struct Rejected {
    /// The descriptor to close.
    pub fd: i32,
    /// Why the handshake failed.
    pub error: Error,
}

impl Opening {
    /// What follows this step when `userfaultfd(2)` returned `outcome`: the new
    /// descriptor, or the error.
    ///
    /// A descriptor leads to the handshake.  The one error that is not final is
    /// the target's `EINVAL` while there are fallback flags: then the
    /// descriptor is to be opened once more, with those, and with no further
    /// fallback.
    pub open spec fn after(&self, outcome: Result<i32, Errno>) -> Opened {
        match outcome {
            Ok(fd) => Opened::Negotiate(
                Negotiating {
                    fd,
                    features: self.features,
                    ioctls: self.ioctls,
                    target: self.target,
                },
            ),
            Err(e) => if e.0 == self.target.einval && self.fallback is Some {
                Opened::Retry(
                    Opening {
                        flags: self.fallback->Some_0,
                        fallback: None,
                        features: self.features,
                        ioctls: self.ioctls,
                        target: self.target,
                    },
                )
            } else {
                Opened::Failed(Error::SystemError(e))
            },
        }
    }

    /// What to do after `userfaultfd(2)` returned `outcome`: the new descriptor,
    /// or the error.
    pub fn opened(self, outcome: Result<i32, Errno>) -> (next: Opened)
        ensures
            next == self.after(outcome),
    {
        match outcome {
            Ok(fd) => Opened::Negotiate(
                Negotiating {
                    fd,
                    features: self.features,
                    ioctls: self.ioctls,
                    target: self.target,
                },
            ),
            Err(e) => match self.fallback {
                Some(flags) if e.0 == self.target.einval => Opened::Retry(
                    Opening {
                        flags,
                        fallback: None,
                        features: self.features,
                        ioctls: self.ioctls,
                        target: self.target,
                    },
                ),
                _ => Opened::Failed(Error::SystemError(e)),
            },
        }
    }
}

impl Negotiating {
    /// The block that the handshake sends: the protocol version and the
    /// features that are asked for.
    pub open spec fn spec_request(&self) -> uffdio_api {
        uffdio_api { api: UFFD_API, features: self.features.spec_bits(), ioctls: 0 }
    }

    /// Whether the kernel's answer `api` meets what was asked: every bit of its
    /// mask of control calls is known, and the calls that were required are
    /// among them.
    pub open spec fn accepts(&self, api: uffdio_api) -> bool {
        IoctlFlags::recognizes(api.ioctls) && self.ioctls@.subset_of(positions(api.ioctls))
    }

    /// What the handshake amounts to, for the kernel's answer or the error of
    /// the call.
    ///
    /// An accepted answer gives the handle.  Its control calls are those that
    /// the kernel reported.  Its features are those that were asked for and
    /// that the kernel reports as known to it.
    pub open spec fn outcome(&self, reply: Result<uffdio_api, Errno>) -> Result<Uffd, Rejected> {
        match reply {
            Err(e) => Err(Rejected { fd: self.fd, error: Error::SystemError(e) }),
            Ok(api) => if !IoctlFlags::recognizes(api.ioctls) {
                Err(Rejected { fd: self.fd, error: Error::UnrecognizedIoctls(api.ioctls) })
            } else if !self.accepts(api) {
                Err(
                    Rejected {
                        fd: self.fd,
                        error: Error::UnsupportedIoctls(
                            IoctlFlags::spec_from_bits_truncate(api.ioctls),
                        ),
                    },
                )
            } else {
                Ok(
                    Uffd::of(
                        self.fd,
                        self.features.spec_intersection(
                            FeatureFlags::spec_from_bits_truncate(api.features),
                        ),
                        IoctlFlags::spec_from_bits_truncate(api.ioctls),
                        self.target,
                    ),
                )
            },
        }
    }

    /// The block that the handshake sends.
    #[verifier::when_used_as_spec(spec_request)]
    pub fn request(&self) -> (api: uffdio_api)
        ensures
            api == self.spec_request(),
    {
        uffdio_api { api: UFFD_API, features: self.features.bits(), ioctls: 0 }
    }

    /// Ends the creation: the handle, or the error and the descriptor to close.
    ///
    /// `reply` is the block as the kernel left it after the API control call,
    /// or the error of the call.
    pub fn negotiated(self, reply: Result<uffdio_api, Errno>) -> (r: Result<Uffd, Rejected>)
        ensures
            r == self.outcome(reply),
    {
        broadcast use IoctlFlags::lemma_from_bits_truncate;

        match reply {
            Err(e) => Err(Rejected { fd: self.fd, error: Error::SystemError(e) }),
            Ok(api) => match IoctlFlags::from_bits(api.ioctls) {
                None => Err(
                    Rejected { fd: self.fd, error: Error::UnrecognizedIoctls(api.ioctls) },
                ),
                Some(supported) => {
                    proof {
                        IoctlFlags::lemma_view_injective(
                            supported,
                            IoctlFlags::spec_from_bits_truncate(api.ioctls),
                        );
                    }
                    if !supported.contains(self.ioctls) {
                        Err(Rejected { fd: self.fd, error: Error::UnsupportedIoctls(supported) })
                    } else {
                        let reported = FeatureFlags::from_bits_truncate(api.features);
                        Ok(
                            Uffd::new(
                                self.fd,
                                self.features.intersection(reported),
                                supported,
                                self.target,
                            ),
                        )
                    }
                },
            },
        }
    }
}

/// The calls that every kernel offers on a descriptor: register, unregister
/// and the handshake itself.
pub proof fn lemma_base_calls()
    ensures
        positions(UFFD_API_IOCTLS) == set![
            _UFFDIO_REGISTER as nat,
            _UFFDIO_UNREGISTER as nat,
            _UFFDIO_API as nat,
        ],
{
    lemma_positions_single(_UFFDIO_REGISTER as nat);
    lemma_positions_single(_UFFDIO_UNREGISTER as nat);
    lemma_positions_single(_UFFDIO_API as nat);
    lemma_positions_or(1u64 << _UFFDIO_REGISTER, 1u64 << _UFFDIO_UNREGISTER);
    lemma_positions_or(1u64 << _UFFDIO_REGISTER | 1u64 << _UFFDIO_UNREGISTER, 1u64 << _UFFDIO_API);
    assert(positions(UFFD_API_IOCTLS) =~= set![
        _UFFDIO_REGISTER as nat,
        _UFFDIO_UNREGISTER as nat,
        _UFFDIO_API as nat,
    ]);
}

/// The descriptor is opened at most twice: the step that follows a refusal
/// of the flags has no fallback, so whatever happens to it, it does not ask
/// for another try.  It asks for the same flags without the user-mode-only
/// bit, and for the same handshake.
pub proof fn lemma_falls_back_once(
    settings: Settings,
    target: Target,
    first: Result<i32, Errno>,
    second: Result<i32, Errno>,
)
    requires
        initial(settings, target).after(first) is Retry,
    ensures
        settings.user_mode_only,
        first == Err::<i32, Errno>(Errno(target.einval)),
        initial(settings, target).after(first)->Retry_0.flags == initial(settings, target).flags
            & !UFFD_USER_MODE_ONLY,
        initial(settings, target).after(first)->Retry_0.after(second) !is Retry,
        initial(settings, target).after(first)->Retry_0.after(second) == (Opening {
            flags: initial(settings, target).flags & !UFFD_USER_MODE_ONLY,
            fallback: None,
            ..initial(settings, target)
        }).after(second),
{
}

/// Whether `api` is the answer of a kernel that this crate supports: every
/// bit of its mask of control calls is known, and the base calls, which every
/// kernel with userfaultfd offers on a descriptor, are among them.
pub open spec fn supported_kernel(api: uffdio_api) -> bool {
    IoctlFlags::recognizes(api.ioctls) && positions(UFFD_API_IOCTLS).subset_of(
        positions(api.ioctls),
    )
}

/// Where nothing is required, creation succeeds on every supported kernel
/// that opens the descriptor.  The handle has the descriptor that was opened
/// and exactly the calls that the kernel reported: a set that is not empty and
/// holds register, unregister and the handshake.
pub proof fn lemma_plain_creation_succeeds(
    settings: Settings,
    target: Target,
    fd: i32,
    api: uffdio_api,
)
    requires
        settings.req_ioctls@ == Set::<nat>::empty(),
        supported_kernel(api),
    ensures
        initial(settings, target).after(Ok(fd)) is Negotiate,
        ({
            let created = initial(settings, target).after(Ok(fd))->Negotiate_0.outcome(Ok(api));
            &&& created is Ok
            &&& created->Ok_0.spec_as_raw_fd() == fd
            &&& created->Ok_0.spec_ioctls()@ == positions(api.ioctls)
            &&& created->Ok_0.spec_ioctls()@ != Set::<nat>::empty()
            &&& created->Ok_0.spec_ioctls()@.contains(_UFFDIO_REGISTER as nat)
            &&& created->Ok_0.spec_ioctls()@.contains(_UFFDIO_UNREGISTER as nat)
            &&& created->Ok_0.spec_ioctls()@.contains(_UFFDIO_API as nat)
        }),
{
    broadcast use IoctlFlags::lemma_from_bits_truncate;
    broadcast use Uffd::lemma_parts;

    lemma_base_calls();
    lemma_positions_and(api.ioctls, IOCTL_MASK);
    assert(positions(api.ioctls).intersect(positions(IOCTL_MASK)) =~= positions(api.ioctls));
    assert(positions(UFFD_API_IOCTLS).contains(_UFFDIO_REGISTER as nat));
    assert(positions(UFFD_API_IOCTLS).contains(_UFFDIO_UNREGISTER as nat));
    assert(positions(UFFD_API_IOCTLS).contains(_UFFDIO_API as nat));
}

/// The features of a handle are those that were asked for and that the kernel
/// reports as known to it; no other feature counts as enabled.
pub proof fn lemma_enabled_features(step: Negotiating, api: uffdio_api)
    requires
        step.accepts(api),
    ensures
        step.outcome(Ok(api)) is Ok,
        step.outcome(Ok(api))->Ok_0.spec_features()@ == step.features@.intersect(
            positions(api.features),
        ).intersect(positions(FEATURE_MASK)),
        step.outcome(Ok(api))->Ok_0.spec_features()@.subset_of(step.features@),
{
    broadcast use FeatureFlags::lemma_from_bits_truncate;
    broadcast use Uffd::lemma_parts;

    let reported = FeatureFlags::spec_from_bits_truncate(api.features);
    let enabled = step.features.spec_intersection(reported);
    lemma_positions_and(step.features.spec_bits(), reported.spec_bits());
    assert(enabled@ =~= step.features@.intersect(positions(api.features)).intersect(
        positions(FEATURE_MASK),
    ));
}

/// Where a required call is missing from what the kernel reports, the
/// handshake fails with the error that carries the calls the kernel does
/// offer, and names the descriptor to close.
pub proof fn lemma_missing_call_is_refused(step: Negotiating, api: uffdio_api)
    requires
        IoctlFlags::recognizes(api.ioctls),
        !step.ioctls@.subset_of(positions(api.ioctls)),
    ensures
        step.outcome(Ok(api)) is Err,
        step.outcome(Ok(api))->Err_0.fd == step.fd,
        step.outcome(Ok(api))->Err_0.error is UnsupportedIoctls,
        step.outcome(Ok(api))->Err_0.error->UnsupportedIoctls_0.spec_bits() == api.ioctls,
{
    broadcast use IoctlFlags::lemma_from_bits_truncate;

}

} // verus!
