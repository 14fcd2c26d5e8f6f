//! The kernel's side of the interface: numeric codes, the argument blocks of the
//! control calls, and the fixed-size message that a read of the descriptor
//! delivers.
//!
//! Names follow `<linux/userfaultfd.h>`.  Nothing here performs a system call:
//! the argument blocks are plain values that the caller carries to `ioctl(2)`
//! and back.

#![allow(non_camel_case_types)]
#![allow(non_upper_case_globals)]

pub use crate::linux5_7::UFFDIO_COPY_MODE_DONTWAKE;
pub use crate::linux5_7::UFFDIO_COPY_MODE_WP;
pub use crate::linux5_7::UFFDIO_REGISTER_MODE_MISSING;
pub use crate::linux5_7::UFFDIO_REGISTER_MODE_WP;
pub use crate::linux5_7::UFFDIO_WRITEPROTECT_MODE_DONTWAKE;
pub use crate::linux5_7::UFFDIO_WRITEPROTECT_MODE_WP;
pub use crate::linux5_7::UFFDIO_ZEROPAGE_MODE_DONTWAKE;
pub use crate::linux5_7::UFFD_API;
pub use crate::linux5_7::UFFD_API_FEATURES;
pub use crate::linux5_7::UFFD_API_IOCTLS;
pub use crate::linux5_7::UFFD_API_RANGE_IOCTLS;
use vstd::prelude::*;

verus! {

/// The `ioctl` type byte shared by all userfaultfd control calls.
pub const UFFDIO: u8 = 0xAA;

/// Number of the register call.
pub const _UFFDIO_REGISTER: u64 = 0x00;

/// Number of the unregister call.
pub const _UFFDIO_UNREGISTER: u64 = 0x01;

/// Number of the wake call.
pub const _UFFDIO_WAKE: u64 = 0x02;

/// Number of the copy call.
pub const _UFFDIO_COPY: u64 = 0x03;

/// Number of the zero-page call.
pub const _UFFDIO_ZEROPAGE: u64 = 0x04;

/// Number of the write-protect call.
pub const _UFFDIO_WRITEPROTECT: u64 = 0x06;

/// Number of the API handshake call.
pub const _UFFDIO_API: u64 = 0x3F;

/// Discriminant of a page-fault message.
pub const UFFD_EVENT_PAGEFAULT: u8 = 0x12;

/// Discriminant of a fork message.
pub const UFFD_EVENT_FORK: u8 = 0x13;

/// Discriminant of a remap message.
pub const UFFD_EVENT_REMAP: u8 = 0x14;

/// Discriminant of a remove message.
pub const UFFD_EVENT_REMOVE: u8 = 0x15;

/// Discriminant of an unmap message.
pub const UFFD_EVENT_UNMAP: u8 = 0x16;

/// Page-fault flag: the faulting access was a write.
pub const UFFD_PAGEFAULT_FLAG_WRITE: u64 = 0x1;

/// Page-fault flag: the fault hit a write-protected page.
pub const UFFD_PAGEFAULT_FLAG_WP: u64 = 0x2;

/// Feature bit: write-protect faults are reported.
pub const UFFD_FEATURE_PAGEFAULT_FLAG_WP: u64 = 0x001;

/// Feature bit: fork notifications.
pub const UFFD_FEATURE_EVENT_FORK: u64 = 0x002;

/// Feature bit: remap notifications.
pub const UFFD_FEATURE_EVENT_REMAP: u64 = 0x004;

/// Feature bit: remove notifications.
pub const UFFD_FEATURE_EVENT_REMOVE: u64 = 0x008;

/// Feature bit: missing faults on hugetlbfs mappings.
pub const UFFD_FEATURE_MISSING_HUGETLBFS: u64 = 0x010;

/// Feature bit: missing faults on shared-memory mappings.
pub const UFFD_FEATURE_MISSING_SHMEM: u64 = 0x020;

/// Feature bit: unmap notifications.
pub const UFFD_FEATURE_EVENT_UNMAP: u64 = 0x040;

/// Feature bit: deliver `SIGBUS` instead of a message.
pub const UFFD_FEATURE_SIGBUS: u64 = 0x080;

/// Feature bit: page-fault messages carry the faulting thread's id.
pub const UFFD_FEATURE_THREAD_ID: u64 = 0x100;

/// Open flag of `userfaultfd(2)`: handle faults from user-mode accesses only.
pub const UFFD_USER_MODE_ONLY: i32 = 0x1;

/// Size in bytes of one message read from the descriptor.
pub const MSG_SIZE: usize = 32;

/// What the target of the build fixes and this crate has to know: numbers of
/// the C library that differ between architectures, and the byte order in
/// which the kernel writes its messages.
///
/// Whoever makes the system calls hands these in, the numbers from `libc`.
#[derive(Clone, Copy, Debug, PartialEq, Eq, Structural)]
pub struct Target {
    /// The open flag that closes the descriptor across `execve(2)`.
    pub o_cloexec: i32,
    /// The open flag that makes reads return at once.
    pub o_nonblock: i32,
    /// The error code for "resource temporarily unavailable": a non-blocking
    /// read found nothing to read.
    pub eagain: i32,
    /// The error code for "invalid argument".
    pub einval: i32,
    /// Whether the machine stores the most significant byte of a number first.
    pub big_endian: bool,
}

/// An address range, as the control calls take it.
#[derive(Clone, Copy, Debug, PartialEq, Eq, Structural)]
pub struct uffdio_range {
    pub start: u64,
    pub len: u64,
}

/// Argument block of the API handshake.
#[derive(Clone, Copy, Debug, PartialEq, Eq, Structural)]
pub struct uffdio_api {
    pub api: u64,
    pub features: u64,
    pub ioctls: u64,
}

/// Argument block of the register call.
#[derive(Clone, Copy, Debug, PartialEq, Eq, Structural)]
pub struct uffdio_register {
    pub range: uffdio_range,
    pub mode: u64,
    pub ioctls: u64,
}

/// Argument block of the copy call.
#[derive(Clone, Copy, Debug, PartialEq, Eq, Structural)]
pub struct uffdio_copy {
    pub dst: u64,
    pub src: u64,
    pub len: u64,
    pub mode: u64,
    pub copy: i64,
}

/// Argument block of the zero-page call.
#[derive(Clone, Copy, Debug, PartialEq, Eq, Structural)]
pub struct uffdio_zeropage {
    pub range: uffdio_range,
    pub mode: u64,
    pub zeropage: i64,
}

/// Argument block of the write-protect call.
#[derive(Clone, Copy, Debug, PartialEq, Eq, Structural)]
pub struct uffdio_writeprotect {
    pub range: uffdio_range,
    pub mode: u64,
}

/// Narrows the value that the `userfaultfd(2)` system call returned to a C `int`:
/// a descriptor, or -1.
pub fn userfaultfd(ret: i64) -> (fd: i32)
    requires
        ret <= i32::MAX,
    ensures
        fd == ret as i32,
        i32::MIN <= ret ==> fd == ret,
{
    ret as i32
}

/// The number that the four bytes of `b` from index `at` spell, least
/// significant byte first.
pub open spec fn le_u32(b: Seq<u8>, at: int) -> int {
    b[at] + 0x100 * b[at + 1] + 0x1_0000 * b[at + 2] + 0x100_0000 * b[at + 3]
}

/// The number that the four bytes of `b` from index `at` spell, most
/// significant byte first.
pub open spec fn be_u32(b: Seq<u8>, at: int) -> int {
    b[at + 3] + 0x100 * b[at + 2] + 0x1_0000 * b[at + 1] + 0x100_0000 * b[at]
}

/// The number that the four bytes of `b` from index `at` spell in the given
/// byte order.
pub open spec fn ne_u32(b: Seq<u8>, at: int, big_endian: bool) -> int {
    if big_endian {
        be_u32(b, at)
    } else {
        le_u32(b, at)
    }
}

/// The number that the eight bytes of `b` from index `at` spell in the given
/// byte order.
pub open spec fn ne_u64(b: Seq<u8>, at: int, big_endian: bool) -> int {
    if big_endian {
        be_u32(b, at + 4) + 0x1_0000_0000 * be_u32(b, at)
    } else {
        le_u32(b, at) + 0x1_0000_0000 * le_u32(b, at + 4)
    }
}

/// Byte `i` of `v`, counted from the least significant.
pub open spec fn le_byte(v: u64, i: int) -> u8 {
    if i == 0 {
        (v % 0x100) as u8
    } else if i == 1 {
        (v / 0x100 % 0x100) as u8
    } else if i == 2 {
        (v / 0x1_0000 % 0x100) as u8
    } else if i == 3 {
        (v / 0x100_0000 % 0x100) as u8
    } else if i == 4 {
        (v / 0x1_0000_0000 % 0x100) as u8
    } else if i == 5 {
        (v / 0x100_0000_0000 % 0x100) as u8
    } else if i == 6 {
        (v / 0x1_0000_0000_0000 % 0x100) as u8
    } else {
        (v / 0x100_0000_0000_0000 % 0x100) as u8
    }
}

/// The byte that memory holds at offset `i` of a field of `width` bytes with
/// the value `v`, in the given byte order.
pub open spec fn stored_byte(v: u64, width: int, i: int, big_endian: bool) -> u8 {
    if big_endian {
        le_byte(v, width - 1 - i)
    } else {
        le_byte(v, i)
    }
}

/// The bytes of a message with discriminant `event` and three fields at bytes
/// 8, 16 and 24: `a` in `wa` bytes, `b` in eight, `c` in `wc`.  All other bytes
/// are zero.
pub open spec fn encoded(
    event: u8,
    a: u64,
    wa: int,
    b: u64,
    c: u64,
    wc: int,
    big_endian: bool,
) -> Seq<u8> {
    Seq::new(
        32,
        |i: int|
            if i == 0 {
                event
            } else if 8 <= i < 8 + wa {
                stored_byte(a, wa, i - 8, big_endian)
            } else if 16 <= i < 24 {
                stored_byte(b, 8, i - 16, big_endian)
            } else if 24 <= i < 24 + wc {
                stored_byte(c, wc, i - 24, big_endian)
            } else {
                0u8
            },
    )
}

/// Eight bytes that hold a value byte by byte spell that value.
pub proof fn lemma_u64_of_bytes(b: Seq<u8>, at: int, v: u64, big_endian: bool)
    requires
        0 <= at,
        at + 8 <= b.len(),
        forall|j: int| 0 <= j < 8 ==> b[at + j] == #[trigger] stored_byte(v, 8, j, big_endian),
    ensures
        ne_u64(b, at, big_endian) == v,
{
    assert(v == (v % 0x100) + 0x100 * (v / 0x100 % 0x100) + 0x1_0000 * (v / 0x1_0000 % 0x100)
        + 0x100_0000 * (v / 0x100_0000 % 0x100) + 0x1_0000_0000 * ((v / 0x1_0000_0000 % 0x100)
        + 0x100 * (v / 0x100_0000_0000 % 0x100) + 0x1_0000 * (v / 0x1_0000_0000_0000 % 0x100)
        + 0x100_0000 * (v / 0x100_0000_0000_0000 % 0x100))) by (bit_vector);
    assert(b[at + 0] == stored_byte(v, 8, 0, big_endian));
    assert(b[at + 1] == stored_byte(v, 8, 1, big_endian));
    assert(b[at + 2] == stored_byte(v, 8, 2, big_endian));
    assert(b[at + 3] == stored_byte(v, 8, 3, big_endian));
    assert(b[at + 4] == stored_byte(v, 8, 4, big_endian));
    assert(b[at + 5] == stored_byte(v, 8, 5, big_endian));
    assert(b[at + 6] == stored_byte(v, 8, 6, big_endian));
    assert(b[at + 7] == stored_byte(v, 8, 7, big_endian));
}

/// Four bytes that hold a value byte by byte spell that value.
pub proof fn lemma_u32_of_bytes(b: Seq<u8>, at: int, v: u32, big_endian: bool)
    requires
        0 <= at,
        at + 4 <= b.len(),
        forall|j: int|
            0 <= j < 4 ==> b[at + j] == #[trigger] stored_byte(v as u64, 4, j, big_endian),
    ensures
        ne_u32(b, at, big_endian) == v,
{
    let w = v as u64;
    assert(w == (w % 0x100) + 0x100 * (w / 0x100 % 0x100) + 0x1_0000 * (w / 0x1_0000 % 0x100)
        + 0x100_0000 * (w / 0x100_0000 % 0x100)) by (bit_vector)
        requires
            w < 0x1_0000_0000,
    ;
    assert(b[at + 0] == stored_byte(w, 4, 0, big_endian));
    assert(b[at + 1] == stored_byte(w, 4, 1, big_endian));
    assert(b[at + 2] == stored_byte(w, 4, 2, big_endian));
    assert(b[at + 3] == stored_byte(w, 4, 3, big_endian));
}

/// One message read from the descriptor, as the bytes the kernel wrote.
///
/// Byte 0 is the discriminant; the fields start at bytes 8, 16 and 24.  The
/// kernel writes numbers in the byte order of the machine.
#[derive(Clone, Copy, Debug, PartialEq, Eq)]
pub struct uffd_msg {
    pub bytes: [u8; 32],
}

fn byte_of(v: u64, i: usize) -> (b: u8)
    requires
        i < 8,
    ensures
        b == le_byte(v, i as int),
{
    if i == 0 {
        (v % 0x100) as u8
    } else if i == 1 {
        (v / 0x100 % 0x100) as u8
    } else if i == 2 {
        (v / 0x1_0000 % 0x100) as u8
    } else if i == 3 {
        (v / 0x100_0000 % 0x100) as u8
    } else if i == 4 {
        (v / 0x1_0000_0000 % 0x100) as u8
    } else if i == 5 {
        (v / 0x100_0000_0000 % 0x100) as u8
    } else if i == 6 {
        (v / 0x1_0000_0000_0000 % 0x100) as u8
    } else {
        (v / 0x100_0000_0000_0000 % 0x100) as u8
    }
}

fn put(bytes: &mut [u8; 32], at: usize, width: usize, v: u64, big_endian: bool)
    requires
        width == 4 || width == 8,
        at + width <= 32,
    ensures
        forall|i: int|
            0 <= i < 32 ==> final(bytes)@[i] == (if at <= i < at + width {
                stored_byte(v, width as int, i - at, big_endian)
            } else {
                old(bytes)@[i]
            }),
{
    let mut j: usize = 0;
    while j < width
        invariant
            j <= width,
            width == 4 || width == 8,
            at + width <= 32,
            forall|i: int|
                0 <= i < 32 ==> bytes@[i] == (if at <= i < at + j {
                    stored_byte(v, width as int, i - at, big_endian)
                } else {
                    old(bytes)@[i]
                }),
        decreases width - j,
    {
        let k: usize = if big_endian {
            width - 1 - j
        } else {
            j
        };
        bytes[at + j] = byte_of(v, k);
        j += 1;
    }
}

impl uffd_msg {
    /// The discriminant byte.
    pub open spec fn spec_event(&self) -> u8 {
        self.bytes@[0]
    }

    /// A message of 32 zero bytes.
    pub fn zeroed() -> (msg: uffd_msg)
        ensures
            forall|i: int| 0 <= i < 32 ==> msg.bytes@[i] == 0,
    {
        uffd_msg { bytes: [0u8; 32] }
    }

    /// The discriminant byte.
    #[verifier::when_used_as_spec(spec_event)]
    pub fn event(&self) -> (e: u8)
        ensures
            e == self.spec_event(),
    {
        self.bytes[0]
    }

    /// Reads the 32-bit field that starts at byte `at`, in the given byte
    /// order.
    pub fn u32_at(&self, at: usize, big_endian: bool) -> (v: u32)
        requires
            at + 4 <= 32,
        ensures
            v == ne_u32(self.bytes@, at as int, big_endian),
    {
        let b0: u32 = self.bytes[at] as u32;
        let b1: u32 = self.bytes[at + 1] as u32;
        let b2: u32 = self.bytes[at + 2] as u32;
        let b3: u32 = self.bytes[at + 3] as u32;
        if big_endian {
            b3 + 0x100 * b2 + 0x1_0000 * b1 + 0x100_0000 * b0
        } else {
            b0 + 0x100 * b1 + 0x1_0000 * b2 + 0x100_0000 * b3
        }
    }

    /// Reads the 64-bit field that starts at byte `at`, in the given byte
    /// order.
    pub fn u64_at(&self, at: usize, big_endian: bool) -> (v: u64)
        requires
            at + 8 <= 32,
        ensures
            v == ne_u64(self.bytes@, at as int, big_endian),
    {
        let first: u64 = self.u32_at(at, big_endian) as u64;
        let second: u64 = self.u32_at(at + 4, big_endian) as u64;
        if big_endian {
            second + 0x1_0000_0000 * first
        } else {
            first + 0x1_0000_0000 * second
        }
    }

    /// The message that reports a page fault with the given flags at `address`,
    /// raised by the thread `ptid`.
    pub fn pagefault(flags: u64, address: u64, ptid: u32, big_endian: bool) -> (msg: uffd_msg)
        ensures
            msg.bytes@ == encoded(UFFD_EVENT_PAGEFAULT, flags, 8, address, ptid as u64, 4, big_endian),
    {
        Self::encode(UFFD_EVENT_PAGEFAULT, flags, true, address, ptid as u64, false, big_endian)
    }

    /// The message that reports a fork, with `ufd` the descriptor for the child.
    pub fn fork(ufd: u32, big_endian: bool) -> (msg: uffd_msg)
        ensures
            msg.bytes@ == encoded(UFFD_EVENT_FORK, ufd as u64, 4, 0, 0, 8, big_endian),
    {
        Self::encode(UFFD_EVENT_FORK, ufd as u64, false, 0, 0, true, big_endian)
    }

    /// The message that reports that `len` bytes at `from` were remapped to `to`.
    pub fn remap(from: u64, to: u64, len: u64, big_endian: bool) -> (msg: uffd_msg)
        ensures
            msg.bytes@ == encoded(UFFD_EVENT_REMAP, from, 8, to, len, 8, big_endian),
    {
        Self::encode(UFFD_EVENT_REMAP, from, true, to, len, true, big_endian)
    }

    /// The message that reports that the range from `start` to `end` was freed.
    pub fn remove(start: u64, end: u64, big_endian: bool) -> (msg: uffd_msg)
        ensures
            msg.bytes@ == encoded(UFFD_EVENT_REMOVE, start, 8, end, 0, 8, big_endian),
    {
        Self::encode(UFFD_EVENT_REMOVE, start, true, end, 0, true, big_endian)
    }

    /// The message that reports that the range from `start` to `end` was
    /// unmapped.
    pub fn unmap(start: u64, end: u64, big_endian: bool) -> (msg: uffd_msg)
        ensures
            msg.bytes@ == encoded(UFFD_EVENT_UNMAP, start, 8, end, 0, 8, big_endian),
    {
        Self::encode(UFFD_EVENT_UNMAP, start, true, end, 0, true, big_endian)
    }

    /// Builds the message with discriminant `event` and the fields `a`, `b` and
    /// `c` at bytes 8, 16 and 24.  `b` takes eight bytes; `a` and `c` take eight
    /// where they are wide, else four.
    pub fn encode(
        event: u8,
        a: u64,
        wide_a: bool,
        b: u64,
        c: u64,
        wide_c: bool,
        big_endian: bool,
    ) -> (msg: uffd_msg)
        ensures
            msg.bytes@ == encoded(
                event,
                a,
                if wide_a {
                    8
                } else {
                    4
                },
                b,
                c,
                if wide_c {
                    8
                } else {
                    4
                },
                big_endian,
            ),
    {
        let wa: usize = if wide_a {
            8
        } else {
            4
        };
        let wc: usize = if wide_c {
            8
        } else {
            4
        };
        let mut bytes = [0u8;32];
        bytes[0] = event;
        put(&mut bytes, 8, wa, a, big_endian);
        put(&mut bytes, 16, 8, b, big_endian);
        put(&mut bytes, 24, wc, c, big_endian);
        assert(bytes@ =~= encoded(event, a, wa as int, b, c, wc as int, big_endian));
        uffd_msg { bytes }
    }
}

} // verus!
