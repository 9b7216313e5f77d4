use secular_core::mtu::{default_mtu_for, MtuClamper, DEFAULT_MTU, MAX_MTU, MIN_MTU, SAFE_MTU};
use secular_core::platform::TargetOs;

#[test]
fn test_default_mtu() {
    let m = MtuClamper::new();
    assert!(m.current() >= 1400);
}

#[test]
fn test_safe_mtu() {
    let m = MtuClamper::with_mtu(1500);
    assert_eq!(m.safe_mtu(), SAFE_MTU);
}

#[test]
fn test_protocol_adjustment() {
    let mut m = MtuClamper::with_mtu(1420);
    let h2_mtu = m.adjust_for_protocol("h2");
    assert!(h2_mtu < 1420);
    assert!(h2_mtu >= 576);
}

#[test]
fn test_clamping() {
    let m = MtuClamper::with_mtu(2000);
    assert_eq!(m.current(), 1500); // clamped to max
}

#[test]
fn clamps_small_mtu_up_to_minimum() {
    assert_eq!(MtuClamper::with_mtu(0).current(), MIN_MTU);
    assert_eq!(MtuClamper::with_mtu(575).current(), 576);
    assert_eq!(MtuClamper::with_mtu(576).current(), 576);
    assert_eq!(MtuClamper::with_mtu(1501).current(), MAX_MTU);
    assert_eq!(MtuClamper::with_mtu(1200).current(), 1200);
}

#[test]
fn clamping_is_idempotent() {
    for x in [0u16, 100, 576, 900, 1380, 1500, 1600, u16::MAX] {
        let once = MtuClamper::with_mtu(x).current();
        assert_eq!(MtuClamper::with_mtu(once).current(), once);
    }
}

#[test]
fn safe_mtu_keeps_smaller_current() {
    let m = MtuClamper::with_mtu(1000);
    assert_eq!(m.safe_mtu(), 1000);
    let m = MtuClamper::with_mtu(1380);
    assert_eq!(m.safe_mtu(), 1380);
}

#[test]
fn adjustment_exact_values() {
    let mut m = MtuClamper::with_mtu(1420);
    assert_eq!(m.adjust_for_protocol("h2"), 1380);
    assert_eq!(m.current(), 1380);
    let mut q = MtuClamper::with_mtu(1420);
    assert_eq!(q.adjust_for_protocol("quic"), 1372);
    let mut o = MtuClamper::with_mtu(1420);
    assert_eq!(o.adjust_for_protocol("tcp"), 1420);
    assert_eq!(o.adjust_for_protocol("H2"), 1420);
}

#[test]
fn adjustment_never_below_minimum() {
    let mut m = MtuClamper::with_mtu(600);
    assert_eq!(m.adjust_for_protocol("h2"), 576);
    assert_eq!(m.adjust_for_protocol("quic"), 576);
    assert_eq!(m.current(), MIN_MTU);
}

#[test]
fn discovery_settles_on_safe_mtu() {
    let mut m = MtuClamper::with_mtu(1500);
    assert_eq!(m.discover_mtu("vpn.example.com"), SAFE_MTU);
    assert_eq!(m.current(), 1380);
}

#[test]
fn platform_defaults() {
    assert_eq!(default_mtu_for(TargetOs::MacOs), 1420);
    assert_eq!(default_mtu_for(TargetOs::Linux), 1420);
    assert_eq!(default_mtu_for(TargetOs::Windows), 1400);
    assert_eq!(default_mtu_for(TargetOs::Other), 1400);
    assert_eq!(MtuClamper::for_target(TargetOs::Windows).current(), 1400);
    assert_eq!(MtuClamper::default().current(), DEFAULT_MTU);
}
