use userfaultfd::raw::{uffd_msg, Target};
use userfaultfd::{
    Errno, Error, Event, EventBuffer, FaultKind, FeatureFlags, IoctlFlags, ReadWrite,
    RegisterMode, Uffd,
};

const PAGE_SIZE: usize = 4096;
const LE: bool = false;

fn target() -> Target {
    Target {
        o_cloexec: libc::O_CLOEXEC,
        o_nonblock: libc::O_NONBLOCK,
        eagain: libc::EAGAIN,
        einval: libc::EINVAL,
        big_endian: LE,
    }
}

fn fill(buf: &mut EventBuffer, msgs: &[uffd_msg]) -> usize {
    let bytes = buf.as_mut_bytes();
    for (i, msg) in msgs.iter().enumerate() {
        bytes[32 * i..32 * i + 32].copy_from_slice(&msg.bytes);
    }
    32 * msgs.len()
}

#[test]
fn event_buffer_has_room_for_its_size() {
    let buf = EventBuffer::new(5);
    assert_eq!(buf.capacity(), 5);
    assert_eq!(buf.as_bytes().len(), 160);
    assert!(buf.as_bytes().iter().all(|b| *b == 0));
    let empty = EventBuffer::new(0);
    assert_eq!(empty.capacity(), 0);
    assert_eq!(empty.as_bytes().len(), 0);
}

#[test]
fn event_buffer_bytes_can_be_written() {
    let mut buf = EventBuffer::new(2);
    buf.as_mut_bytes()[33] = 7;
    assert_eq!(buf.as_bytes()[33], 7);
    assert_eq!(buf.as_bytes().len(), 64);
    assert_eq!(buf.capacity(), 2);
}

#[test]
fn would_block_is_no_event() {
    let uffd = Uffd::from_fd(3, target());
    let msg = uffd_msg::zeroed();
    assert_eq!(uffd.read_event(&msg, Err(Errno(libc::EAGAIN))), Ok(None));
    // again and again, and whatever the message buffer holds
    assert_eq!(uffd.read_event(&msg, Err(Errno(libc::EAGAIN))), Ok(None));
    let stale = uffd_msg::pagefault(1, 0x1000, 0, LE);
    assert_eq!(uffd.read_event(&stale, Err(Errno(libc::EAGAIN))), Ok(None));
    // the target's code decides, not the number 11
    let other = Uffd::from_fd(
        3,
        Target {
            eagain: 35,
            ..target()
        },
    );
    assert_eq!(other.read_event(&msg, Err(Errno(35))), Ok(None));
    assert_eq!(
        other.read_event(&msg, Err(Errno(libc::EAGAIN))),
        Err(Error::SystemError(Errno(libc::EAGAIN)))
    );
}

#[test]
fn would_block_is_an_empty_batch() {
    let uffd = Uffd::from_fd(3, target());
    let mut buf = EventBuffer::new(4);
    fill(&mut buf, &[uffd_msg::pagefault(1, 0x1000, 0, LE)]);
    let mut events = uffd.read_events(&buf, Err(Errno(libc::EAGAIN))).ok().unwrap();
    assert_eq!(events.len(), 0);
    assert_eq!(events.next(), None);
    assert_eq!(events.next(), None);
}

#[test]
fn other_read_errors_are_system_errors() {
    let uffd = Uffd::from_fd(3, target());
    let msg = uffd_msg::zeroed();
    assert_eq!(
        uffd.read_event(&msg, Err(Errno(libc::EBADF))),
        Err(Error::SystemError(Errno(libc::EBADF)))
    );
    assert_eq!(
        uffd.read_event(&msg, Err(Errno(libc::EINTR))),
        Err(Error::SystemError(Errno(libc::EINTR)))
    );
    let buf = EventBuffer::new(2);
    assert_eq!(
        uffd.read_events(&buf, Err(Errno(libc::EINVAL))).err(),
        Some(Error::SystemError(Errno(libc::EINVAL)))
    );
}

#[test]
fn zero_bytes_is_end_of_file() {
    let uffd = Uffd::from_fd(3, target());
    assert_eq!(
        uffd.read_event(&uffd_msg::zeroed(), Ok(0)),
        Err(Error::ReadEof)
    );
    let buf = EventBuffer::new(3);
    assert_eq!(uffd.read_events(&buf, Ok(0)).err(), Some(Error::ReadEof));
}

#[test]
fn partial_message_is_an_error_with_the_counts() {
    let uffd = Uffd::from_fd(3, target());
    let msg = uffd_msg::pagefault(1, 0x1000, 0, LE);
    for n in 1..32usize {
        assert_eq!(
            uffd.read_event(&msg, Ok(n)),
            Err(Error::IncompleteMsg {
                read: n,
                expected: 32,
            })
        );
    }
    let mut buf = EventBuffer::new(4);
    fill(&mut buf, &[msg, msg, msg]);
    assert_eq!(
        uffd.read_events(&buf, Ok(70)).err(),
        Some(Error::IncompleteMsg {
            read: 70,
            expected: 32,
        })
    );
    assert_eq!(
        uffd.read_events(&buf, Ok(33)).err(),
        Some(Error::IncompleteMsg {
            read: 33,
            expected: 32,
        })
    );
    let two = EventBuffer::new(2);
    assert_eq!(
        uffd.read_events(&two, Ok(40)).err(),
        Some(Error::IncompleteMsg {
            read: 40,
            expected: 32,
        })
    );
    assert_eq!(
        uffd.read_event(&msg, Ok(40)),
        Err(Error::IncompleteMsg {
            read: 40,
            expected: 32,
        })
    );
    assert_eq!(
        uffd.read_events(&buf, Ok(127)).err(),
        Some(Error::IncompleteMsg {
            read: 127,
            expected: 32,
        })
    );
}

#[test]
fn one_message_is_one_event() {
    let uffd = Uffd::from_fd(3, target());
    let msg = uffd_msg::pagefault(0, 0x7000_0000, 0, LE);
    assert_eq!(
        uffd.read_event(&msg, Ok(32)),
        Ok(Some(Event::Pagefault {
            kind: FaultKind::Missing,
            rw: ReadWrite::Read,
            addr: 0x7000_0000,
            thread_id: None,
        }))
    );
}

#[test]
fn read_event_surfaces_decode_errors() {
    let uffd = Uffd::from_fd(3, target());
    let msg = uffd_msg::encode(0x99, 0, true, 0, 0, true, LE);
    assert_eq!(
        uffd.read_event(&msg, Ok(32)),
        Err(Error::UnrecognizedEvent(0x99))
    );
}

#[test]
fn read_event_never_yields_more_than_its_one_message() {
    let uffd = Uffd::from_fd(3, target());
    let msg = uffd_msg::remove(0x1000, 0x2000, LE);
    // a count for two messages still gives the one that there is room for
    assert_eq!(
        uffd.read_event(&msg, Ok(64)),
        Ok(Some(Event::Remove {
            start: 0x1000,
            end: 0x2000,
        }))
    );
}

#[test]
fn batch_yields_events_in_order() {
    let uffd = Uffd::from_fd(3, target());
    let mut buf = EventBuffer::new(4);
    let n = fill(
        &mut buf,
        &[
            uffd_msg::pagefault(1, 0x1000, 0, LE),
            uffd_msg::remap(0x1000, 0x5000, 0x1000, LE),
            uffd_msg::unmap(0x5000, 0x6000, LE),
        ],
    );
    assert_eq!(n, 96);
    let mut events = uffd.read_events(&buf, Ok(n)).ok().unwrap();
    assert_eq!(events.len(), 3);
    assert_eq!(
        events.next(),
        Some(Ok(Event::Pagefault {
            kind: FaultKind::Missing,
            rw: ReadWrite::Write,
            addr: 0x1000,
            thread_id: None,
        }))
    );
    assert_eq!(events.len(), 2);
    assert_eq!(
        events.next(),
        Some(Ok(Event::Remap {
            from: 0x1000,
            to: 0x5000,
            len: 0x1000,
        }))
    );
    assert_eq!(
        events.next(),
        Some(Ok(Event::Unmap {
            start: 0x5000,
            end: 0x6000,
        }))
    );
    assert_eq!(events.len(), 0);
    assert_eq!(events.next(), None);
    assert_eq!(events.next(), None);
}

#[test]
fn batch_does_not_look_past_the_count() {
    let uffd = Uffd::from_fd(3, target());
    let mut buf = EventBuffer::new(3);
    fill(
        &mut buf,
        &[
            uffd_msg::remove(0x1000, 0x2000, LE),
            uffd_msg::encode(0xFF, 0, true, 0, 0, true, LE),
            uffd_msg::encode(0xFE, 0, true, 0, 0, true, LE),
        ],
    );
    let mut events = uffd.read_events(&buf, Ok(32)).ok().unwrap();
    assert_eq!(events.len(), 1);
    assert_eq!(
        events.next(),
        Some(Ok(Event::Remove {
            start: 0x1000,
            end: 0x2000,
        }))
    );
    assert_eq!(events.next(), None);
}

#[test]
fn batch_goes_on_after_a_bad_message() {
    let uffd = Uffd::from_fd(3, target());
    let mut buf = EventBuffer::new(3);
    let n = fill(
        &mut buf,
        &[
            uffd_msg::encode(0x42, 0, true, 0, 0, true, LE),
            uffd_msg::remove(0x1000, 0x2000, LE),
        ],
    );
    let mut events = uffd.read_events(&buf, Ok(n)).ok().unwrap();
    assert_eq!(events.next(), Some(Err(Error::UnrecognizedEvent(0x42))));
    assert_eq!(
        events.next(),
        Some(Ok(Event::Remove {
            start: 0x1000,
            end: 0x2000,
        }))
    );
    assert_eq!(events.next(), None);
}

#[test]
fn batch_is_capped_by_the_room_in_the_buffer() {
    let uffd = Uffd::from_fd(3, target());
    let mut buf = EventBuffer::new(2);
    fill(
        &mut buf,
        &[uffd_msg::unmap(0, 0x1000, LE), uffd_msg::unmap(0x1000, 0x2000, LE)],
    );
    let events = uffd.read_events(&buf, Ok(5 * 32)).ok().unwrap();
    assert_eq!(events.len(), 2);
    let none = EventBuffer::new(0);
    let events = uffd.read_events(&none, Ok(32)).ok().unwrap();
    assert_eq!(events.len(), 0);
}

// One page is registered for missing faults and a write to it faults; the
// worker reads the event and resolves it with a zero page.
#[test]
fn single_page_write_fault_is_resolved_by_zeropage() {
    let mapping: usize = 0x7f00_dead_0000;
    let uffd = Uffd::from_fd(3, target());

    let mut register = uffd.register(mapping, PAGE_SIZE);
    assert_eq!(register.range.start, mapping as u64);
    assert_eq!(register.range.len, 4096);
    assert_eq!(register.mode, 1);
    register.ioctls = 0x1C;
    assert!(uffd.registered(Ok(register)).is_ok());

    let msg = uffd_msg::pagefault(1, mapping as u64, 0, LE);
    match uffd.read_event(&msg, Ok(32)) {
        Ok(Some(Event::Pagefault {
            rw: ReadWrite::Write,
            addr,
            ..
        })) => {
            assert_eq!(addr, mapping);
            let mut zero = uffd.zeropage(addr, PAGE_SIZE, true);
            assert_eq!(zero.mode, 0);
            assert_eq!(zero.range.start, mapping as u64);
            zero.zeropage = 4096;
            assert_eq!(uffd.zeroed(Ok(zero)), Ok(4096));
        }
        other => panic!("unexpected event {:?}", other),
    }
    assert_eq!(uffd.done(Ok(())), Ok(()));
    assert_eq!(uffd.unregister(mapping, PAGE_SIZE).start, mapping as u64);
}

// Five pages fault at once; one read into a buffer for five messages gives
// five page faults, one for each page.
#[test]
fn batch_of_faults_covers_each_page_once() {
    const MAX_THREADS: usize = 5;
    let mapping: usize = 0x7f00_beef_0000;
    let uffd = Uffd::from_fd(3, target());

    let order = [3usize, 0, 4, 1, 2];
    let msgs: Vec<uffd_msg> = order
        .iter()
        .map(|i| uffd_msg::pagefault(1, (mapping + i * PAGE_SIZE) as u64, 0, LE))
        .collect();
    let mut buf = EventBuffer::new(MAX_THREADS);
    let n = fill(&mut buf, &msgs);

    let mut events = uffd.read_events(&buf, Ok(n)).ok().unwrap();
    assert_eq!(events.len(), MAX_THREADS);
    let mut seen = [false; MAX_THREADS];
    for _ in 0..MAX_THREADS {
        match events.next() {
            Some(Ok(Event::Pagefault {
                rw: ReadWrite::Write,
                addr,
                ..
            })) => {
                let index = (addr - mapping) / PAGE_SIZE;
                assert_eq!(seen[index], false);
                seen[index] = true;
                assert_eq!(uffd.zeropage(addr, PAGE_SIZE, true).range.start, addr as u64);
            }
            other => panic!("unexpected event {:?}", other),
        }
    }
    assert!(seen.iter().all(|b| *b));
    assert_eq!(events.next(), None);
}

// A page is first resolved without waking, then write-protected and woken; the
// second write gives a write-protect fault.
#[test]
fn missing_then_write_protect_fault() {
    let mapping: usize = 0x7f00_cafe_0000;
    let uffd = Uffd::new(
        3,
        FeatureFlags::pagefault_flag_wp(),
        IoctlFlags::from_bits(0x8000_0000_0000_0003).unwrap(),
        target(),
    );

    let mut register = uffd.register_with_mode(
        mapping,
        PAGE_SIZE,
        RegisterMode::missing().union(RegisterMode::write_protect()),
    );
    assert_eq!(register.mode, 3);
    register.ioctls = 0x5C;
    assert!(uffd
        .registered(Ok(register))
        .unwrap()
        .contains(IoctlFlags::write_protect()));

    match uffd.read_event(&uffd_msg::pagefault(1, mapping as u64, 0, LE), Ok(32)) {
        Ok(Some(Event::Pagefault {
            kind: FaultKind::Missing,
            rw: ReadWrite::Write,
            addr,
            ..
        })) => {
            assert_eq!(addr, mapping);
            assert_eq!(uffd.zeropage(mapping, PAGE_SIZE, false).mode, 1);
            assert_eq!(uffd.write_protect(mapping, PAGE_SIZE).mode, 1);
            assert_eq!(uffd.wake(mapping, PAGE_SIZE).len, 4096);
        }
        other => panic!("unexpected event {:?}", other),
    }
    match uffd.read_event(&uffd_msg::pagefault(3, mapping as u64, 0, LE), Ok(32)) {
        Ok(Some(Event::Pagefault {
            kind: FaultKind::WriteProtected,
            rw: ReadWrite::Write,
            addr,
            ..
        })) => {
            assert_eq!(addr, mapping);
            assert_eq!(uffd.remove_write_protection(mapping, PAGE_SIZE, true).mode, 0);
        }
        other => panic!("unexpected event {:?}", other),
    }
}
