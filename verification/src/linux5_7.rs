//! Constants of `<linux/userfaultfd.h>` as of Linux 5.7, the interface that this
//! crate speaks.

use crate::raw::_UFFDIO_API;
use crate::raw::_UFFDIO_COPY;
use crate::raw::_UFFDIO_REGISTER;
use crate::raw::_UFFDIO_UNREGISTER;
use crate::raw::_UFFDIO_WAKE;
use crate::raw::_UFFDIO_WRITEPROTECT;
use crate::raw::_UFFDIO_ZEROPAGE;
use crate::raw::UFFD_FEATURE_EVENT_FORK;
use crate::raw::UFFD_FEATURE_EVENT_REMAP;
use crate::raw::UFFD_FEATURE_EVENT_REMOVE;
use crate::raw::UFFD_FEATURE_EVENT_UNMAP;
use crate::raw::UFFD_FEATURE_MISSING_HUGETLBFS;
use crate::raw::UFFD_FEATURE_MISSING_SHMEM;
use crate::raw::UFFD_FEATURE_PAGEFAULT_FLAG_WP;
use crate::raw::UFFD_FEATURE_SIGBUS;
use crate::raw::UFFD_FEATURE_THREAD_ID;
use vstd::prelude::*;

verus! {

/// The protocol version that the handshake announces.
pub const UFFD_API: u64 = 0xAA;

/// Every feature bit of this interface.
pub const UFFD_API_FEATURES: u64 = UFFD_FEATURE_PAGEFAULT_FLAG_WP | UFFD_FEATURE_EVENT_FORK
    | UFFD_FEATURE_EVENT_REMAP | UFFD_FEATURE_EVENT_REMOVE | UFFD_FEATURE_EVENT_UNMAP
    | UFFD_FEATURE_MISSING_HUGETLBFS | UFFD_FEATURE_MISSING_SHMEM | UFFD_FEATURE_SIGBUS
    | UFFD_FEATURE_THREAD_ID;

/// The control calls that act on the descriptor as a whole.
pub const UFFD_API_IOCTLS: u64 = 1 << _UFFDIO_REGISTER | 1 << _UFFDIO_UNREGISTER | 1
    << _UFFDIO_API;

/// The control calls that act on a registered range.
pub const UFFD_API_RANGE_IOCTLS: u64 = 1 << _UFFDIO_WAKE | 1 << _UFFDIO_COPY | 1
    << _UFFDIO_ZEROPAGE | 1 << _UFFDIO_WRITEPROTECT;

/// The range calls available on every kind of mapping.
pub const UFFD_API_RANGE_IOCTLS_BASIC: u64 = 1 << _UFFDIO_WAKE | 1 << _UFFDIO_COPY;

/// Register mode: report accesses to missing pages.
pub const UFFDIO_REGISTER_MODE_MISSING: u64 = 1 << 0;

/// Register mode: report writes to write-protected pages.
pub const UFFDIO_REGISTER_MODE_WP: u64 = 1 << 1;

/// Copy mode: leave the faulting thread blocked.
pub const UFFDIO_COPY_MODE_DONTWAKE: u64 = 1 << 0;

/// Copy mode: install the page write-protected.
pub const UFFDIO_COPY_MODE_WP: u64 = 1 << 1;

/// Zero-page mode: leave the faulting thread blocked.
pub const UFFDIO_ZEROPAGE_MODE_DONTWAKE: u64 = 1 << 0;

/// Write-protect mode: protect the range (clear: remove the protection).
pub const UFFDIO_WRITEPROTECT_MODE_WP: u64 = 1 << 0;

/// Write-protect mode: leave the faulting thread blocked.
pub const UFFDIO_WRITEPROTECT_MODE_DONTWAKE: u64 = 1 << 1;

/// Request code of the API handshake.
pub const UFFDIO_API: u32 = 0xc018aa3f;

/// Request code of the register call.
pub const UFFDIO_REGISTER: u32 = 0xc020aa00;

/// Request code of the unregister call.
pub const UFFDIO_UNREGISTER: u32 = 0x8010aa01;

/// Request code of the wake call.
pub const UFFDIO_WAKE: u32 = 0x8010aa02;

/// Request code of the copy call.
pub const UFFDIO_COPY: u32 = 0xc028aa03;

/// Request code of the zero-page call.
pub const UFFDIO_ZEROPAGE: u32 = 0xc020aa04;

/// Request code of the write-protect call.
pub const UFFDIO_WRITEPROTECT: u32 = 0xc018aa06;

/// The two register modes, written out.
pub proof fn lemma_register_modes()
    ensures
        UFFDIO_REGISTER_MODE_MISSING == 1,
        UFFDIO_REGISTER_MODE_WP == 2,
{
    assert(1u64 << 0u64 == 1 && 1u64 << 1u64 == 2) by (bit_vector);
}

} // verus!
