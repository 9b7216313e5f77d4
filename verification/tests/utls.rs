use secular_core::utls::{CipherFamily, FingerprintProfile, KeyExchangeGroup, UtlsEngine};

#[test]
fn test_random_profile() {
    let u = UtlsEngine::new_random();
    // Should not panic
    assert!(matches!(
        u.profile(),
        FingerprintProfile::Chrome
            | FingerprintProfile::Firefox
            | FingerprintProfile::Safari
            | FingerprintProfile::Edge
    ));
}

#[test]
fn test_specific_profile() {
    let u = UtlsEngine::with_profile(FingerprintProfile::Safari);
    assert_eq!(u.profile(), FingerprintProfile::Safari);
}

#[test]
fn random_choice_covers_profiles() {
    let mut seen = [false; 4];
    for _ in 0..400 {
        let i = match UtlsEngine::new_random().profile() {
            FingerprintProfile::Chrome => 0,
            FingerprintProfile::Firefox => 1,
            FingerprintProfile::Safari => 2,
            FingerprintProfile::Edge => 3,
        };
        seen[i] = true;
    }
    assert_eq!(seen, [true; 4]);
}

#[test]
fn choice_outcome_and_stack() {
    assert_eq!(UtlsEngine::from_choice(None).profile(), FingerprintProfile::Chrome);
    assert_eq!(UtlsEngine::from_choice(Some(FingerprintProfile::Firefox)).profile(), FingerprintProfile::Firefox);
    assert_eq!(UtlsEngine::with_profile(FingerprintProfile::Edge).applied_stack(), FingerprintProfile::Chrome);
    assert_eq!(UtlsEngine::with_profile(FingerprintProfile::Safari).applied_stack(), FingerprintProfile::Safari);
    assert_eq!(UtlsEngine::with_profile(FingerprintProfile::Chrome).applied_stack(), FingerprintProfile::Chrome);
}

#[test]
fn hello_parameters_per_stack() {
    for p in [FingerprintProfile::Chrome, FingerprintProfile::Edge] {
        let h = UtlsEngine::with_profile(p).hello_params().unwrap();
        assert_eq!(
            h.cipher_suites,
            vec![CipherFamily::Aes128GcmSha256, CipherFamily::Aes256GcmSha384, CipherFamily::Chacha20Poly1305Sha256]
        );
        assert_eq!(h.groups, vec![KeyExchangeGroup::X25519, KeyExchangeGroup::Secp256r1, KeyExchangeGroup::Secp384r1]);
    }
    assert!(UtlsEngine::with_profile(FingerprintProfile::Firefox).hello_params().is_none());
    assert!(UtlsEngine::with_profile(FingerprintProfile::Safari).hello_params().is_none());
}
