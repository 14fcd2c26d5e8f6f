//! Constants of `<linux/userfaultfd.h>` as of Linux 4.11, the oldest interface
//! that offers the full set of notifications.

use crate::raw::_UFFDIO_API;
use crate::raw::_UFFDIO_COPY;
use crate::raw::_UFFDIO_REGISTER;
use crate::raw::_UFFDIO_UNREGISTER;
use crate::raw::_UFFDIO_WAKE;
use crate::raw::_UFFDIO_ZEROPAGE;
use crate::raw::UFFD_FEATURE_EVENT_FORK;
use crate::raw::UFFD_FEATURE_EVENT_REMAP;
use crate::raw::UFFD_FEATURE_EVENT_REMOVE;
use crate::raw::UFFD_FEATURE_EVENT_UNMAP;
use crate::raw::UFFD_FEATURE_MISSING_HUGETLBFS;
use crate::raw::UFFD_FEATURE_MISSING_SHMEM;
use vstd::prelude::*;

verus! {

/// The protocol version that the handshake announces.
pub const UFFD_API: u64 = 0xAA;

/// Every feature bit of this interface.
pub const UFFD_API_FEATURES: u64 = UFFD_FEATURE_EVENT_FORK | UFFD_FEATURE_EVENT_REMAP
    | UFFD_FEATURE_EVENT_REMOVE | UFFD_FEATURE_EVENT_UNMAP | UFFD_FEATURE_MISSING_HUGETLBFS
    | UFFD_FEATURE_MISSING_SHMEM;

/// The control calls that act on the descriptor as a whole.
pub const UFFD_API_IOCTLS: u64 = 1 << _UFFDIO_REGISTER | 1 << _UFFDIO_UNREGISTER | 1
    << _UFFDIO_API;

/// The control calls that act on a registered range.
pub const UFFD_API_RANGE_IOCTLS: u64 = 1 << _UFFDIO_WAKE | 1 << _UFFDIO_COPY | 1
    << _UFFDIO_ZEROPAGE;

/// Register mode: report accesses to missing pages.
pub const UFFDIO_REGISTER_MODE_MISSING: u64 = 1 << 0;

/// Register mode: report writes to write-protected pages.
pub const UFFDIO_REGISTER_MODE_WP: u64 = 1 << 1;

/// Copy mode: leave the faulting thread blocked.
pub const UFFDIO_COPY_MODE_DONTWAKE: u64 = 1 << 0;

/// Zero-page mode: leave the faulting thread blocked.
pub const UFFDIO_ZEROPAGE_MODE_DONTWAKE: u64 = 1 << 0;

} // verus!
