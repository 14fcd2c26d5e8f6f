//! The events that the kernel reports, and how a raw message becomes one.

use crate::error::Error;
use crate::feature_flags::FeatureFlags;
use crate::raw::encoded;
use crate::raw::ne_u32;
use crate::raw::ne_u64;
use crate::raw::lemma_u32_of_bytes;
use crate::raw::lemma_u64_of_bytes;
use crate::raw::uffd_msg;
use crate::raw::MSG_SIZE;
use crate::raw::UFFD_EVENT_FORK;
use crate::raw::UFFD_EVENT_PAGEFAULT;
use crate::raw::UFFD_EVENT_REMAP;
use crate::raw::UFFD_EVENT_REMOVE;
use crate::raw::UFFD_EVENT_UNMAP;
use crate::raw::UFFD_FEATURE_PAGEFAULT_FLAG_WP;
use crate::raw::UFFD_FEATURE_THREAD_ID;
use crate::raw::UFFD_PAGEFAULT_FLAG_WP;
use crate::raw::UFFD_PAGEFAULT_FLAG_WRITE;
use crate::uffd::Uffd;
use vstd::prelude::*;

verus! {

/// Whether a page fault event was for a read or write.
#[derive(Clone, Copy, Debug, PartialEq, Eq, Structural)]
pub enum ReadWrite {
    Read,
    Write,
}

/// The kind of fault for a page fault event.
#[derive(Clone, Copy, Debug, PartialEq, Eq, Structural)]
pub enum FaultKind {
    /// The fault was a read or write on a missing page.
    Missing,
    /// The fault was a write on a write-protected page.
    WriteProtected,
}

/// Events from the userfaultfd object.
#[derive(Debug, PartialEq, Eq)]
pub enum Event {
    /// A pagefault event.
    Pagefault {
        /// The kind of fault.
        kind: FaultKind,
        /// Whether the fault is on a read or a write.
        rw: ReadWrite,
        /// The address that triggered the fault.
        addr: usize,
        /// The thread that triggered the fault, where the descriptor has the
        /// thread-id feature enabled.
        thread_id: Option<u32>,
    },
    /// Generated when the faulting process invokes `fork(2)` (or `clone(2)`
    /// without the `CLONE_VM` flag).
    Fork {
        /// The handle of the descriptor that the kernel created for the child.
        uffd: Uffd,
    },
    /// Generated when the faulting process invokes `mremap(2)`.
    Remap {
        /// The old address of the memory range that was remapped.
        from: usize,
        /// The new address of the memory range that was remapped.
        to: usize,
        /// The length of the memory range that was remapped.
        len: usize,
    },
    /// Generated when the faulting process invokes `madvise(2)` with
    /// `MADV_DONTNEED` or `MADV_REMOVE` advice.
    Remove {
        /// The start address of the memory range that was freed.
        start: usize,
        /// The end address of the memory range that was freed.
        end: usize,
    },
    /// Generated when the faulting process unmaps a memory range, either
    /// explicitly using `munmap(2)` or implicitly during `mmap(2)` or
    /// `mremap(2)`.
    Unmap {
        /// The start address of the memory range that was unmapped.
        start: usize,
        /// The end address of the memory range that was unmapped.
        end: usize,
    },
}

/// The fault class that the flags of a page-fault message give, on a
/// descriptor whose handshake enabled write-protect reporting or did not.
pub open spec fn fault_kind(flags: u64, reports_wp: bool) -> FaultKind {
    if reports_wp && flags & UFFD_PAGEFAULT_FLAG_WP != 0 {
        FaultKind::WriteProtected
    } else {
        FaultKind::Missing
    }
}

/// The direction of the access that the flags of a page-fault message give.
pub open spec fn fault_direction(flags: u64) -> ReadWrite {
    if flags & UFFD_PAGEFAULT_FLAG_WRITE == 0 {
        ReadWrite::Read
    } else {
        ReadWrite::Write
    }
}

impl Event {
    /// The event that the 32 bytes of one message spell, read on the descriptor
    /// of `uffd`.
    ///
    /// Byte 0 selects the kind.  A page fault has its flags at byte 8, the
    /// address at byte 16 and the thread id at byte 24.  A fork has the new
    /// descriptor at byte 8.  A remap has the old address, the new address and
    /// the length at bytes 8, 16 and 24.  A remove and an unmap have the start
    /// and the end of the range at bytes 8 and 16.  Numbers are in the byte
    /// order of the target of `uffd`.
    pub open spec fn decode(bytes: Seq<u8>, uffd: Uffd) -> Result<Event, Error> {
        let event = bytes[0];
        let order = uffd.spec_target().big_endian;
        if event == UFFD_EVENT_PAGEFAULT {
            let flags = ne_u64(bytes, 8, order) as u64;
            Ok(
                Event::Pagefault {
                    kind: fault_kind(
                        flags,
                        uffd.spec_features().has(UFFD_FEATURE_PAGEFAULT_FLAG_WP),
                    ),
                    rw: fault_direction(flags),
                    addr: ne_u64(bytes, 16, order) as usize,
                    thread_id: if uffd.spec_features().has(UFFD_FEATURE_THREAD_ID) {
                        Some(ne_u32(bytes, 24, order) as u32)
                    } else {
                        None
                    },
                },
            )
        } else if event == UFFD_EVENT_FORK {
            Ok(
                Event::Fork {
                    uffd: Uffd::of(
                        ne_u32(bytes, 8, order) as u32 as i32,
                        uffd.spec_features(),
                        uffd.spec_ioctls(),
                        uffd.spec_target(),
                    ),
                },
            )
        } else if event == UFFD_EVENT_REMAP {
            Ok(
                Event::Remap {
                    from: ne_u64(bytes, 8, order) as usize,
                    to: ne_u64(bytes, 16, order) as usize,
                    len: ne_u64(bytes, 24, order) as usize,
                },
            )
        } else if event == UFFD_EVENT_REMOVE {
            Ok(
                Event::Remove {
                    start: ne_u64(bytes, 8, order) as usize,
                    end: ne_u64(bytes, 16, order) as usize,
                },
            )
        } else if event == UFFD_EVENT_UNMAP {
            Ok(
                Event::Unmap {
                    start: ne_u64(bytes, 8, order) as usize,
                    end: ne_u64(bytes, 16, order) as usize,
                },
            )
        } else {
            Err(Error::UnrecognizedEvent(event))
        }
    }

    /// Decodes one message that was read on the descriptor of `uffd`.
    ///
    /// A fork message hands over a descriptor that the kernel has just opened:
    /// the handle in the event is the only one for it, so decode such a message
    /// once.  The handle has the features and control calls of `uffd`, as the
    /// child's descriptor inherits them.
    ///
    /// A discriminant that is none of the five known ones gives
    /// [`Error::UnrecognizedEvent`] with that byte.
    pub fn from_uffd_msg(msg: &uffd_msg, uffd: &Uffd) -> (r: Result<Event, Error>)
        ensures
            r == Self::decode(msg.bytes@, *uffd),
    {
        let event = msg.event();
        let order = uffd.target().big_endian;
        if event == UFFD_EVENT_PAGEFAULT {
            let flags = msg.u64_at(8, order);
            let features = uffd.features();
            let kind = if features.contains(FeatureFlags::pagefault_flag_wp()) && flags
                & UFFD_PAGEFAULT_FLAG_WP != 0 {
                FaultKind::WriteProtected
            } else {
                FaultKind::Missing
            };
            let rw = if flags & UFFD_PAGEFAULT_FLAG_WRITE == 0 {
                ReadWrite::Read
            } else {
                ReadWrite::Write
            };
            let thread_id = if features.contains(FeatureFlags::thread_id()) {
                Some(msg.u32_at(24, order))
            } else {
                None
            };
            Ok(Event::Pagefault { kind, rw, addr: msg.u64_at(16, order) as usize, thread_id })
        } else if event == UFFD_EVENT_FORK {
            Ok(
                Event::Fork {
                    uffd: Uffd::new(
                        msg.u32_at(8, order) as i32,
                        uffd.features(),
                        uffd.ioctls(),
                        uffd.target(),
                    ),
                },
            )
        } else if event == UFFD_EVENT_REMAP {
            Ok(
                Event::Remap {
                    from: msg.u64_at(8, order) as usize,
                    to: msg.u64_at(16, order) as usize,
                    len: msg.u64_at(24, order) as usize,
                },
            )
        } else if event == UFFD_EVENT_REMOVE {
            Ok(
                Event::Remove {
                    start: msg.u64_at(8, order) as usize,
                    end: msg.u64_at(16, order) as usize,
                },
            )
        } else if event == UFFD_EVENT_UNMAP {
            Ok(
                Event::Unmap {
                    start: msg.u64_at(8, order) as usize,
                    end: msg.u64_at(16, order) as usize,
                },
            )
        } else {
            Err(Error::UnrecognizedEvent(event))
        }
    }
}

/// A page-fault message decodes to the fields it was built from: the flags
/// give kind and direction, the address comes back as it went in, and the
/// thread id comes back where the descriptor reports thread ids.
pub proof fn lemma_pagefault_round_trip(flags: u64, address: usize, ptid: u32, uffd: Uffd)
    ensures
        Event::decode(
            encoded(
                UFFD_EVENT_PAGEFAULT,
                flags,
                8,
                address as u64,
                ptid as u64,
                4,
                uffd.spec_target().big_endian,
            ),
            uffd,
        ) == Ok::<Event, Error>(
            Event::Pagefault {
                kind: fault_kind(flags, uffd.spec_features().has(UFFD_FEATURE_PAGEFAULT_FLAG_WP)),
                rw: fault_direction(flags),
                addr: address,
                thread_id: if uffd.spec_features().has(UFFD_FEATURE_THREAD_ID) {
                    Some(ptid)
                } else {
                    None
                },
            },
        ),
{
    let order = uffd.spec_target().big_endian;
    let bytes = encoded(UFFD_EVENT_PAGEFAULT, flags, 8, address as u64, ptid as u64, 4, order);
    lemma_u64_of_bytes(bytes, 8, flags, order);
    lemma_u64_of_bytes(bytes, 16, address as u64, order);
    lemma_u32_of_bytes(bytes, 24, ptid, order);
}

/// A fork message decodes to a handle for the descriptor it was built from,
/// with the features, control calls and target of the descriptor it was read
/// on.
pub proof fn lemma_fork_round_trip(ufd: u32, uffd: Uffd)
    ensures
        Event::decode(
            encoded(UFFD_EVENT_FORK, ufd as u64, 4, 0, 0, 8, uffd.spec_target().big_endian),
            uffd,
        ) == Ok::<Event, Error>(
            Event::Fork {
                uffd: Uffd::of(
                    ufd as i32,
                    uffd.spec_features(),
                    uffd.spec_ioctls(),
                    uffd.spec_target(),
                ),
            },
        ),
{
    let order = uffd.spec_target().big_endian;
    let bytes = encoded(UFFD_EVENT_FORK, ufd as u64, 4, 0, 0, 8, order);
    lemma_u32_of_bytes(bytes, 8, ufd, order);
}

/// A remap message decodes to the addresses and the length it was built from.
pub proof fn lemma_remap_round_trip(from: usize, to: usize, len: usize, uffd: Uffd)
    ensures
        Event::decode(
            encoded(
                UFFD_EVENT_REMAP,
                from as u64,
                8,
                to as u64,
                len as u64,
                8,
                uffd.spec_target().big_endian,
            ),
            uffd,
        ) == Ok::<Event, Error>(Event::Remap { from, to, len }),
{
    let order = uffd.spec_target().big_endian;
    let bytes = encoded(UFFD_EVENT_REMAP, from as u64, 8, to as u64, len as u64, 8, order);
    lemma_u64_of_bytes(bytes, 8, from as u64, order);
    lemma_u64_of_bytes(bytes, 16, to as u64, order);
    lemma_u64_of_bytes(bytes, 24, len as u64, order);
}

/// A remove message decodes to the range it was built from.
pub proof fn lemma_remove_round_trip(start: usize, end: usize, uffd: Uffd)
    ensures
        Event::decode(
            encoded(
                UFFD_EVENT_REMOVE,
                start as u64,
                8,
                end as u64,
                0,
                8,
                uffd.spec_target().big_endian,
            ),
            uffd,
        ) == Ok::<Event, Error>(Event::Remove { start, end }),
{
    let order = uffd.spec_target().big_endian;
    let bytes = encoded(UFFD_EVENT_REMOVE, start as u64, 8, end as u64, 0, 8, order);
    lemma_u64_of_bytes(bytes, 8, start as u64, order);
    lemma_u64_of_bytes(bytes, 16, end as u64, order);
}

/// An unmap message decodes to the range it was built from.
pub proof fn lemma_unmap_round_trip(start: usize, end: usize, uffd: Uffd)
    ensures
        Event::decode(
            encoded(
                UFFD_EVENT_UNMAP,
                start as u64,
                8,
                end as u64,
                0,
                8,
                uffd.spec_target().big_endian,
            ),
            uffd,
        ) == Ok::<Event, Error>(Event::Unmap { start, end }),
{
    let order = uffd.spec_target().big_endian;
    let bytes = encoded(UFFD_EVENT_UNMAP, start as u64, 8, end as u64, 0, 8, order);
    lemma_u64_of_bytes(bytes, 8, start as u64, order);
    lemma_u64_of_bytes(bytes, 16, end as u64, order);
}

/// A message whose first byte is none of the five known discriminants decodes
/// to no event, whatever else it holds: the result is the error that carries
/// that byte.
pub proof fn lemma_unknown_discriminant(bytes: Seq<u8>, uffd: Uffd)
    requires
        bytes.len() == MSG_SIZE,
        bytes[0] != UFFD_EVENT_PAGEFAULT,
        bytes[0] != UFFD_EVENT_FORK,
        bytes[0] != UFFD_EVENT_REMAP,
        bytes[0] != UFFD_EVENT_REMOVE,
        bytes[0] != UFFD_EVENT_UNMAP,
    ensures
        Event::decode(bytes, uffd) == Err::<Event, Error>(Error::UnrecognizedEvent(bytes[0])),
{
}

} // verus!
