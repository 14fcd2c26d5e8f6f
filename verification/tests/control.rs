use userfaultfd::raw::{
    uffdio_copy, uffdio_range, uffdio_register, uffdio_writeprotect, uffdio_zeropage,
};
use userfaultfd::raw::Target;
use userfaultfd::{Errno, Error, FeatureFlags, IoctlFlags, RegisterMode, Uffd};

const PAGE: usize = 4096;

fn target() -> Target {
    Target {
        o_cloexec: libc::O_CLOEXEC,
        o_nonblock: libc::O_NONBLOCK,
        eagain: libc::EAGAIN,
        einval: libc::EINVAL,
        big_endian: u16::from_ne_bytes([0, 1]) == 1,
    }
}

#[test]
fn raw_descriptor_round_trip() {
    let uffd = Uffd::from_fd(42, target());
    assert_eq!(uffd.as_raw_fd(), 42);
    assert!(uffd.features().is_empty());
    assert!(uffd.ioctls().is_empty());
    assert_eq!(uffd.target(), target());
    assert_eq!(uffd.into_raw_fd(), 42);
}

#[test]
fn handle_for_a_descriptor_taken_over() {
    let features = FeatureFlags::thread_id().union(FeatureFlags::pagefault_flag_wp());
    let ioctls = IoctlFlags::register().union(IoctlFlags::api());
    let uffd = Uffd::new(7, features, ioctls, target());
    assert_eq!(uffd.as_raw_fd(), 7);
    assert_eq!(uffd.features(), features);
    assert_eq!(uffd.ioctls(), ioctls);
    assert_eq!(uffd.target(), target());
    assert_eq!(
        Uffd::new(9, FeatureFlags::empty(), IoctlFlags::empty(), target()),
        Uffd::from_fd(9, target())
    );
}

#[test]
fn register_asks_for_missing_faults() {
    let uffd = Uffd::from_fd(3, target());
    assert_eq!(
        uffd.register(0x7f00_0000_0000, PAGE),
        uffdio_register {
            range: uffdio_range {
                start: 0x7f00_0000_0000,
                len: 4096,
            },
            mode: 1,
            ioctls: 0,
        }
    );
}

#[test]
fn register_with_mode_passes_the_mode_bits() {
    let uffd = Uffd::from_fd(3, target());
    let both = RegisterMode::missing().union(RegisterMode::write_protect());
    assert_eq!(
        uffd.register_with_mode(0x1000, 2 * PAGE, both),
        uffdio_register {
            range: uffdio_range {
                start: 0x1000,
                len: 8192,
            },
            mode: 3,
            ioctls: 0,
        }
    );
    assert_eq!(
        uffd.register_with_mode(0x1000, PAGE, RegisterMode::write_protect()).mode,
        2
    );
    assert_eq!(
        uffd.register_with_mode(0x1000, PAGE, RegisterMode::missing()),
        uffd.register(0x1000, PAGE)
    );
    assert_eq!(uffd.register_with_mode(0, 0, RegisterMode::empty()).mode, 0);
}

#[test]
fn registered_reads_the_range_ioctls() {
    let uffd = Uffd::from_fd(3, target());
    let mut block = uffd.register(0x1000, PAGE);
    block.ioctls = 0x5C;
    let flags = uffd.registered(Ok(block)).unwrap();
    assert_eq!(flags.bits(), 0x5C);
    assert!(flags.contains(IoctlFlags::write_protect()));
    assert!(flags.contains(IoctlFlags::wake()));
    assert!(flags.contains(IoctlFlags::copy()));
    assert!(flags.contains(IoctlFlags::zeropage()));
    assert!(!flags.contains(IoctlFlags::register()));

    block.ioctls = 0;
    assert_eq!(uffd.registered(Ok(block)), Ok(IoctlFlags::empty()));
}

#[test]
fn registered_refuses_unknown_bits() {
    let uffd = Uffd::from_fd(3, target());
    let mut block = uffd.register(0x1000, PAGE);
    block.ioctls = 0x5C | 1 << 5;
    assert_eq!(
        uffd.registered(Ok(block)),
        Err(Error::UnrecognizedIoctls(0x7C))
    );
    block.ioctls = 1 << 20;
    assert_eq!(
        uffd.registered(Ok(block)),
        Err(Error::UnrecognizedIoctls(1 << 20))
    );
}

#[test]
fn registered_passes_system_errors() {
    let uffd = Uffd::from_fd(3, target());
    assert_eq!(
        uffd.registered(Err(Errno(libc::EINVAL))),
        Err(Error::SystemError(Errno(22)))
    );
    assert_eq!(
        uffd.registered(Err(Errno(libc::EBUSY))),
        Err(Error::SystemError(Errno(libc::EBUSY)))
    );
}

#[test]
fn unregister_and_wake_name_the_range() {
    let uffd = Uffd::from_fd(3, target());
    assert_eq!(
        uffd.unregister(0x2000, PAGE),
        uffdio_range {
            start: 0x2000,
            len: 4096,
        }
    );
    assert_eq!(
        uffd.wake(0x3000, 3 * PAGE),
        uffdio_range {
            start: 0x3000,
            len: 12288,
        }
    );
}

#[test]
fn copy_block_has_the_wake_bit_inverted() {
    let uffd = Uffd::from_fd(3, target());
    assert_eq!(
        uffd.copy(0x5000, 0x6000, PAGE, true),
        uffdio_copy {
            dst: 0x6000,
            src: 0x5000,
            len: 4096,
            mode: 0,
            copy: 0,
        }
    );
    assert_eq!(
        uffd.copy(0x5000, 0x6000, PAGE, false),
        uffdio_copy {
            dst: 0x6000,
            src: 0x5000,
            len: 4096,
            mode: 1,
            copy: 0,
        }
    );
}

#[test]
fn copied_returns_the_byte_count() {
    let uffd = Uffd::from_fd(3, target());
    let mut block = uffd.copy(0x5000, 0x6000, PAGE, true);
    block.copy = 4096;
    assert_eq!(uffd.copied(Ok(block)), Ok(4096));
    block.copy = 0;
    assert_eq!(uffd.copied(Ok(block)), Ok(0));
    block.copy = i64::MAX;
    assert_eq!(uffd.copied(Ok(block)), Ok(i64::MAX as usize));
}

#[test]
fn copied_reports_failures_as_copy_failed() {
    let uffd = Uffd::from_fd(3, target());
    assert_eq!(
        uffd.copied(Err(Errno(libc::ENOENT))),
        Err(Error::CopyFailed(Errno(libc::ENOENT)))
    );
    assert_eq!(
        uffd.copied(Err(Errno(libc::EEXIST))),
        Err(Error::CopyFailed(Errno(libc::EEXIST)))
    );
}

#[test]
fn copied_reads_a_negative_count_as_an_error_code() {
    let uffd = Uffd::from_fd(3, target());
    let mut block = uffd.copy(0x5000, 0x6000, PAGE, true);
    block.copy = -(libc::EAGAIN as i64);
    assert_eq!(
        uffd.copied(Ok(block)),
        Err(Error::CopyFailed(Errno(libc::EAGAIN)))
    );
    block.copy = -(libc::ENOMEM as i64);
    assert_eq!(
        uffd.copied(Ok(block)),
        Err(Error::CopyFailed(Errno(libc::ENOMEM)))
    );
    // a code that the system does not name is the unknown error
    block.copy = -100_000;
    assert_eq!(uffd.copied(Ok(block)), Err(Error::CopyFailed(Errno(0))));
    block.copy = i64::MIN;
    assert_eq!(uffd.copied(Ok(block)), Err(Error::CopyFailed(Errno(0))));
    // only the low 32 bits of the negated count are the code
    block.copy = -((1i64 << 32) + libc::EFAULT as i64);
    assert_eq!(
        uffd.copied(Ok(block)),
        Err(Error::CopyFailed(Errno(libc::EFAULT)))
    );
}

#[test]
fn zeropage_block_has_the_wake_bit_inverted() {
    let uffd = Uffd::from_fd(3, target());
    assert_eq!(
        uffd.zeropage(0x7000, PAGE, true),
        uffdio_zeropage {
            range: uffdio_range {
                start: 0x7000,
                len: 4096,
            },
            mode: 0,
            zeropage: 0,
        }
    );
    assert_eq!(uffd.zeropage(0x7000, PAGE, false).mode, 1);
}

#[test]
fn zeroed_returns_the_byte_count_or_the_failure() {
    let uffd = Uffd::from_fd(3, target());
    let mut block = uffd.zeropage(0x7000, PAGE, true);
    block.zeropage = 4096;
    assert_eq!(uffd.zeroed(Ok(block)), Ok(4096));
    block.zeropage = -(libc::EEXIST as i64);
    assert_eq!(
        uffd.zeroed(Ok(block)),
        Err(Error::ZeropageFailed(Errno(libc::EEXIST)))
    );
    block.zeropage = -77_777;
    assert_eq!(uffd.zeroed(Ok(block)), Err(Error::ZeropageFailed(Errno(0))));
    assert_eq!(
        uffd.zeroed(Err(Errno(libc::ESRCH))),
        Err(Error::ZeropageFailed(Errno(libc::ESRCH)))
    );
}

#[test]
fn write_protect_blocks() {
    let uffd = Uffd::from_fd(3, target());
    assert_eq!(
        uffd.write_protect(0x8000, PAGE),
        uffdio_writeprotect {
            range: uffdio_range {
                start: 0x8000,
                len: 4096,
            },
            mode: 1,
        }
    );
    assert_eq!(
        uffd.remove_write_protection(0x8000, PAGE, true),
        uffdio_writeprotect {
            range: uffdio_range {
                start: 0x8000,
                len: 4096,
            },
            mode: 0,
        }
    );
    assert_eq!(uffd.remove_write_protection(0x8000, PAGE, false).mode, 2);
}

#[test]
fn done_wraps_system_errors() {
    let uffd = Uffd::from_fd(3, target());
    assert_eq!(uffd.done(Ok(())), Ok(()));
    assert_eq!(
        uffd.done(Err(Errno(libc::EINVAL))),
        Err(Error::SystemError(Errno(libc::EINVAL)))
    );
}

#[test]
fn errno_from_i32_goes_through_nix() {
    assert_eq!(Errno::from_i32(libc::EINVAL), Errno(22));
    assert_eq!(Errno::from_i32(libc::EAGAIN).code(), 11);
    assert_eq!(Errno::from_i32(0), Errno(0));
    assert_eq!(Errno::from_i32(-5), Errno(0));
    assert_eq!(Errno::from_i32(1_000_000), Errno(0));
    assert_eq!(
        Errno::from_i32(libc::ENOENT).code(),
        nix::errno::Errno::ENOENT as i32
    );
}

#[test]
fn system_errors_convert_into_errors() {
    assert_eq!(Error::from(Errno(5)), Error::SystemError(Errno(5)));
    let e: Error = Errno(libc::EPERM).into();
    assert_eq!(e, Error::SystemError(Errno(1)));
}

#[test]
fn negative_result_fields_hold_negated_codes() {
    use_negate(-1, 1);
    use_negate(-22, 22);
    use_negate(-(i32::MAX as i64), i32::MAX);
    use_negate(i64::MIN, 0);
    use_negate(-(1i64 << 32), 0);
    use_negate(-((1i64 << 32) + 5), 5);
    use_negate(-(1i64 << 31), i32::MIN);
    use_negate(0, 0);
    use_negate(7, -7);
}

fn use_negate(field: i64, code: i32) {
    assert_eq!(userfaultfd::uffd::negate_code(field), code);
}
