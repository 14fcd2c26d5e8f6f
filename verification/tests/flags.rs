use userfaultfd::feature_flags::FEATURE_MASK;
use userfaultfd::ioctl_flags::IOCTL_MASK;
use userfaultfd::register_mode::MODE_MASK;
use userfaultfd::{FeatureFlags, IoctlFlags, RegisterMode};

#[test]
fn ioctl_flags_named_bits() {
    assert_eq!(IoctlFlags::register().bits(), 1 << 0);
    assert_eq!(IoctlFlags::unregister().bits(), 1 << 1);
    assert_eq!(IoctlFlags::wake().bits(), 1 << 2);
    assert_eq!(IoctlFlags::copy().bits(), 1 << 3);
    assert_eq!(IoctlFlags::zeropage().bits(), 1 << 4);
    assert_eq!(IoctlFlags::write_protect().bits(), 1 << 6);
    assert_eq!(IoctlFlags::api().bits(), 1 << 63);
    assert_eq!(IoctlFlags::empty().bits(), 0);
    assert_eq!(IoctlFlags::all().bits(), 0x8000_0000_0000_005F);
    assert_eq!(IOCTL_MASK, 0x8000_0000_0000_005F);
}

#[test]
fn feature_flags_named_bits() {
    assert_eq!(FeatureFlags::pagefault_flag_wp().bits(), 1 << 0);
    assert_eq!(FeatureFlags::event_fork().bits(), 1 << 1);
    assert_eq!(FeatureFlags::event_remap().bits(), 1 << 2);
    assert_eq!(FeatureFlags::event_remove().bits(), 1 << 3);
    assert_eq!(FeatureFlags::missing_hugetlbfs().bits(), 1 << 4);
    assert_eq!(FeatureFlags::missing_shmem().bits(), 1 << 5);
    assert_eq!(FeatureFlags::event_unmap().bits(), 1 << 6);
    assert_eq!(FeatureFlags::sigbus().bits(), 1 << 7);
    assert_eq!(FeatureFlags::thread_id().bits(), 1 << 8);
    assert_eq!(FeatureFlags::empty().bits(), 0);
    assert_eq!(FeatureFlags::all().bits(), 0x1FF);
    assert_eq!(FEATURE_MASK, 0x1FF);
}

#[test]
fn register_mode_named_bits() {
    assert_eq!(RegisterMode::missing().bits(), 1);
    assert_eq!(RegisterMode::write_protect().bits(), 2);
    assert_eq!(RegisterMode::empty().bits(), 0);
    assert_eq!(RegisterMode::all().bits(), 3);
    assert_eq!(MODE_MASK, 3);
}

#[test]
fn from_bits_accepts_known_bits_only() {
    assert_eq!(
        IoctlFlags::from_bits(0x8000_0000_0000_0003).map(|f| f.bits()),
        Some(0x8000_0000_0000_0003)
    );
    assert_eq!(IoctlFlags::from_bits(0), Some(IoctlFlags::empty()));
    assert_eq!(IoctlFlags::from_bits(0x5F), Some(IoctlFlags::all().difference(IoctlFlags::api())));
    // bit 5 stands for no call
    assert_eq!(IoctlFlags::from_bits(1 << 5), None);
    assert_eq!(IoctlFlags::from_bits(0x8000_0000_0000_007F), None);
    assert_eq!(IoctlFlags::from_bits(u64::MAX), None);

    assert_eq!(FeatureFlags::from_bits(0x1FF), Some(FeatureFlags::all()));
    assert_eq!(FeatureFlags::from_bits(0x200), None);
    assert_eq!(RegisterMode::from_bits(3), Some(RegisterMode::all()));
    assert_eq!(RegisterMode::from_bits(4), None);
}

#[test]
fn from_bits_truncate_drops_unknown_bits() {
    assert_eq!(IoctlFlags::from_bits_truncate(u64::MAX), IoctlFlags::all());
    assert_eq!(IoctlFlags::from_bits_truncate(0x20), IoctlFlags::empty());
    assert_eq!(IoctlFlags::from_bits_truncate(0x21), IoctlFlags::register());
    assert_eq!(FeatureFlags::from_bits_truncate(0xFFFF).bits(), 0x1FF);
    assert_eq!(FeatureFlags::from_bits_truncate(0x1F00), FeatureFlags::thread_id());
    assert_eq!(RegisterMode::from_bits_truncate(0xFD), RegisterMode::missing());
}

#[test]
fn union_intersection_difference() {
    let a = IoctlFlags::register().union(IoctlFlags::copy());
    let b = IoctlFlags::copy().union(IoctlFlags::wake());
    assert_eq!(a.bits(), 0b1001);
    assert_eq!(b.bits(), 0b1100);
    assert_eq!(a.union(b).bits(), 0b1101);
    assert_eq!(a.intersection(b), IoctlFlags::copy());
    assert_eq!(a.difference(b), IoctlFlags::register());
    assert_eq!(b.difference(a), IoctlFlags::wake());
    assert_eq!(a.union(IoctlFlags::empty()), a);
    assert_eq!(a.intersection(IoctlFlags::all()), a);
    assert_eq!(a.difference(a), IoctlFlags::empty());

    let m = RegisterMode::missing().union(RegisterMode::write_protect());
    assert_eq!(m, RegisterMode::all());
    assert_eq!(m.difference(RegisterMode::missing()), RegisterMode::write_protect());

    let f = FeatureFlags::event_fork().union(FeatureFlags::thread_id());
    assert_eq!(f.bits(), 0x102);
    assert_eq!(f.intersection(FeatureFlags::thread_id()), FeatureFlags::thread_id());
}

#[test]
fn contains_and_intersects() {
    let a = IoctlFlags::register().union(IoctlFlags::copy());
    assert!(a.contains(IoctlFlags::register()));
    assert!(a.contains(IoctlFlags::copy()));
    assert!(a.contains(a));
    assert!(a.contains(IoctlFlags::empty()));
    assert!(!a.contains(IoctlFlags::wake()));
    assert!(!a.contains(IoctlFlags::register().union(IoctlFlags::wake())));
    assert!(a.intersects(IoctlFlags::register().union(IoctlFlags::wake())));
    assert!(!a.intersects(IoctlFlags::wake()));
    assert!(!a.intersects(IoctlFlags::empty()));
    assert!(IoctlFlags::all().contains(a));
    assert!(FeatureFlags::all().contains(FeatureFlags::sigbus()));
    assert!(!FeatureFlags::sigbus().contains(FeatureFlags::all()));
    assert!(RegisterMode::all().intersects(RegisterMode::missing()));
}

#[test]
fn is_empty_and_is_all() {
    assert!(IoctlFlags::empty().is_empty());
    assert!(!IoctlFlags::empty().is_all());
    assert!(IoctlFlags::all().is_all());
    assert!(!IoctlFlags::all().is_empty());
    assert!(!IoctlFlags::api().is_empty());
    assert!(!IoctlFlags::api().is_all());
    assert!(FeatureFlags::empty().is_empty());
    assert!(FeatureFlags::all().is_all());
    assert!(RegisterMode::empty().is_empty());
    assert!(RegisterMode::missing().union(RegisterMode::write_protect()).is_all());
}

#[test]
fn insert_and_remove() {
    let mut f = FeatureFlags::empty();
    f.insert(FeatureFlags::event_fork());
    f.insert(FeatureFlags::event_unmap());
    assert_eq!(f.bits(), 0x42);
    f.insert(FeatureFlags::event_fork());
    assert_eq!(f.bits(), 0x42);
    f.remove(FeatureFlags::event_fork());
    assert_eq!(f, FeatureFlags::event_unmap());
    f.remove(FeatureFlags::sigbus());
    assert_eq!(f, FeatureFlags::event_unmap());

    let mut i = IoctlFlags::all();
    i.remove(IoctlFlags::api());
    assert_eq!(i.bits(), 0x5F);
    i.insert(IoctlFlags::api());
    assert!(i.is_all());

    let mut m = RegisterMode::missing();
    m.insert(RegisterMode::write_protect());
    assert_eq!(m.bits(), 3);
    m.remove(RegisterMode::missing());
    assert_eq!(m.bits(), 2);
}

#[test]
fn union_is_commutative_on_samples() {
    let samples = [0u64, 1, 2, 0x5F, 0x8000_0000_0000_0000, 0x8000_0000_0000_005F, 0x18];
    for a in samples {
        for b in samples {
            let x = IoctlFlags::from_bits_truncate(a);
            let y = IoctlFlags::from_bits_truncate(b);
            assert_eq!(x.union(y), y.union(x));
            assert_eq!(x.intersection(y), y.intersection(x));
            assert_eq!(x.contains(y), x.union(y) == x);
            assert_eq!(x.difference(y).intersects(y), false);
        }
    }
}
