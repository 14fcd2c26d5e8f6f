//! A Linux mechanism for handling page faults in user space, without the
//! system calls.
//!
//! This crate holds the protocol of `userfaultfd`: what to ask of the kernel
//! and what its answers mean.  It opens no descriptor and performs no call.
//! The program that uses it makes the system calls and hands the results over,
//! together with what its target fixes ([`raw::Target`]): the numbers of the C
//! library that differ between architectures, and the byte order.
//!
//! * [`UffdBuilder`] starts the creation of a [`Uffd`]; [`builder::Opening`]
//!   and [`builder::Negotiating`] lead through the opening of the descriptor
//!   and the handshake.
//! * The methods of [`Uffd`] build the argument blocks of the control calls
//!   and read their results.
//! * [`Uffd::read_event`] and [`Uffd::read_events`] turn the outcome of a read
//!   of the descriptor into [`Event`]s.
//!
//! See `userfaultfd(2)` and `ioctl_userfaultfd(2)` for the kernel's side.

pub mod bitset;
pub mod builder;
pub mod error;
pub mod event;
pub mod feature_flags;
pub mod ioctl_flags;
pub mod linux4_11;
pub mod linux5_7;
pub mod raw;
pub mod read;
pub mod register_mode;
pub mod uffd;
pub mod version;

pub use crate::builder::UffdBuilder;
pub use crate::error::Errno;
pub use crate::error::Error;
pub use crate::event::Event;
pub use crate::event::FaultKind;
pub use crate::event::ReadWrite;
pub use crate::feature_flags::FeatureFlags;
pub use crate::ioctl_flags::IoctlFlags;
pub use crate::read::EventBuffer;
pub use crate::read::Events;
pub use crate::register_mode::RegisterMode;
pub use crate::uffd::Uffd;
