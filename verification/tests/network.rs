use secular_core::error::SecularError;
use secular_core::network::{IpAddress, TunInterface};
use secular_core::platform::TargetOs;

#[test]
fn tun_lifecycle() {
    let mut t = TunInterface::create("utun7", TargetOs::Linux).unwrap();
    let mut buf = [0u8; 8];
    assert!(matches!(t.read_packet(&mut buf), Err(SecularError::TunNotUp)));
    assert!(matches!(t.write_packet(&[1, 2, 3]), Err(SecularError::TunNotUp)));
    t.configure(IpAddress::V4(10, 0, 0, 2), IpAddress::V4(10, 0, 0, 1), 1380).unwrap();
    assert_eq!(t.read_packet(&mut buf).unwrap(), 0);
    assert_eq!(t.write_packet(&[1, 2, 3]).unwrap(), 3);
    t.close().unwrap();
    assert!(matches!(t.write_packet(&[1]), Err(SecularError::TunNotUp)));
}

#[test]
fn tun_platforms() {
    assert!(TunInterface::create("tun0", TargetOs::MacOs).is_ok());
    assert!(TunInterface::create("tun0", TargetOs::Windows).is_ok());
    assert!(matches!(TunInterface::create("tun0", TargetOs::Other), Err(SecularError::UnsupportedPlatform)));
    assert!(TunInterface::create_linux("tun0").is_ok());
    assert!(TunInterface::create_macos("tun0").is_ok());
    assert!(TunInterface::create_windows("tun0").is_ok());
}
