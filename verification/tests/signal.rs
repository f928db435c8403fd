use zcore::signal::Signal;

#[test]
fn named_bits() {
    assert_eq!(Signal::empty().bits(), 0);
    assert_eq!(Signal::readable().bits(), 1);
    assert_eq!(Signal::writable().bits(), 2);
    assert_eq!(Signal::peer_closed().bits(), 4);
    assert_eq!(Signal::signaled().bits(), 8);
    assert_eq!(Signal::handle_closed().bits(), 1 << 23);
    assert_eq!(Signal::kernel_all().bits(), 0x00ff_ffff);
    assert_eq!(Signal::user_all().bits(), 0xff00_0000);
    assert_eq!(Signal::user_signal_0().bits(), 1 << 24);
    assert_eq!(Signal::user_signal_7().bits(), 1 << 31);
    assert_eq!(Signal::all().bits(), u32::MAX);
    assert_eq!(Signal::default(), Signal::empty());
}

#[test]
fn numbered_user_bits() {
    assert_eq!(Signal::user_signal(0), Signal::user_signal_0());
    assert_eq!(Signal::user_signal(1), Signal::user_signal_1());
    assert_eq!(Signal::user_signal(2), Signal::user_signal_2());
    assert_eq!(Signal::user_signal(3), Signal::user_signal_3());
    assert_eq!(Signal::user_signal(4), Signal::user_signal_4());
    assert_eq!(Signal::user_signal(5), Signal::user_signal_5());
    assert_eq!(Signal::user_signal(6), Signal::user_signal_6());
    assert_eq!(Signal::user_signal(7), Signal::user_signal_7());
    assert_eq!(Signal::user_signal(8), Signal::empty());
}

#[test]
fn set_operations() {
    let a = Signal::from_bits_truncate(0b0110);
    let b = Signal::from_bits_truncate(0b0011);
    assert_eq!((a | b).bits(), 0b0111);
    assert_eq!((a & b).bits(), 0b0010);
    assert_eq!(a.union(b).bits(), 0b0111);
    assert_eq!(a.intersection(b).bits(), 0b0010);
    assert_eq!(a.difference(b).bits(), 0b0100);
    assert!(a.intersects(b));
    assert!(!a.intersects(Signal::from_bits_truncate(0b1000)));
    assert!(!a.intersects(Signal::empty()));
    assert!(a.contains(Signal::from_bits_truncate(0b0100)));
    assert!(!a.contains(b));
    assert!(Signal::empty().is_empty());
    assert!(!a.is_empty());
    let mut c = a;
    c.remove(b);
    assert_eq!(c.bits(), 0b0100);
    c.insert(b);
    assert_eq!(c.bits(), 0b0111);
}
