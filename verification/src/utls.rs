//! uTLS: randomized ClientHello fingerprints that mimic real browsers, so
//! that the TLS handshake blends in with normal traffic.

use rand::seq::SliceRandom;
use vstd::prelude::*;

verus! {

/// Known browser fingerprint profiles.
#[derive(Clone, Copy, Debug, PartialEq, Eq, Structural)]
pub enum FingerprintProfile {
    /// Chrome 120+ on Windows.
    Chrome,
    /// Firefox 120+.
    Firefox,
    /// Safari 17+ on macOS.
    Safari,
    /// Edge 120+.
    Edge,
}

/// The profiles a random engine chooses from, in this order.
pub open spec fn all_profiles() -> Seq<FingerprintProfile> {
    seq![
        FingerprintProfile::Chrome,
        FingerprintProfile::Firefox,
        FingerprintProfile::Safari,
        FingerprintProfile::Edge,
    ]
}

/// `rand::seq::SliceRandom::choose` with the thread-local generator: one
/// element of the list chosen at random, `None` only for an empty list.
/// Which element comes back is left open.
#[verifier::external_body]
fn choose_profile(profiles: &Vec<FingerprintProfile>) -> (r: Option<FingerprintProfile>)
    ensures
        r is None <==> profiles@.len() == 0,
        r matches Some(p) ==> profiles@.contains(p),
{
    profiles.choose(&mut rand::thread_rng()).copied()
}

/// The TLS stack whose ClientHello a profile imitates: Edge uses Chrome's.
pub open spec fn stack_of(p: FingerprintProfile) -> FingerprintProfile {
    match p {
        FingerprintProfile::Edge => FingerprintProfile::Chrome,
        _ => p,
    }
}

/// AEAD cipher families a ClientHello can offer, each for TLS 1.3 and,
/// with ECDHE key exchange, for TLS 1.2.
#[derive(Clone, Copy, Debug, PartialEq, Eq, Structural)]
pub enum CipherFamily {
    Aes128GcmSha256,
    Aes256GcmSha384,
    Chacha20Poly1305Sha256,
}

/// Key exchange groups a ClientHello can offer.
#[derive(Clone, Copy, Debug, PartialEq, Eq, Structural)]
pub enum KeyExchangeGroup {
    X25519,
    Secp256r1,
    Secp384r1,
}

/// The ClientHello parameters a fingerprint fixes: the cipher families and
/// key exchange groups offered, in preference order. TLS 1.3 is preferred
/// and TLS 1.2 kept for compatibility.
pub struct HelloParams {
    pub cipher_suites: Vec<CipherFamily>,
    pub groups: Vec<KeyExchangeGroup>,
}

/// Chrome 120's cipher preference: AES-128-GCM, AES-256-GCM, ChaCha20-Poly1305.
pub open spec fn chrome_cipher_suites() -> Seq<CipherFamily> {
    seq![CipherFamily::Aes128GcmSha256, CipherFamily::Aes256GcmSha384, CipherFamily::Chacha20Poly1305Sha256]
}

/// Chrome 120's groups: X25519, P-256, P-384.
pub open spec fn chrome_groups() -> Seq<KeyExchangeGroup> {
    seq![KeyExchangeGroup::X25519, KeyExchangeGroup::Secp256r1, KeyExchangeGroup::Secp384r1]
}

/// uTLS fingerprint randomizer.
pub struct UtlsEngine {
    profile: FingerprintProfile,
}

impl UtlsEngine {
    /// The active profile.
    pub closed spec fn spec_profile(self) -> FingerprintProfile {
        self.profile
    }

    /// An engine with a profile chosen at random among all profiles.
    pub fn new_random() -> (u: Self)
        ensures
            all_profiles().contains(u.spec_profile()),
    {
        let mut profiles: Vec<FingerprintProfile> = Vec::new();
        profiles.push(FingerprintProfile::Chrome);
        profiles.push(FingerprintProfile::Firefox);
        profiles.push(FingerprintProfile::Safari);
        profiles.push(FingerprintProfile::Edge);
        assert(profiles@ =~= all_profiles());
        Self::from_choice(choose_profile(&profiles))
    }

    /// The engine for the outcome of a random choice: the chosen profile,
    /// Chrome when nothing was chosen.
    pub fn from_choice(choice: Option<FingerprintProfile>) -> (u: Self)
        ensures
            u.spec_profile() == (match choice {
                Some(p) => p,
                None => FingerprintProfile::Chrome,
            }),
    {
        let profile = match choice {
            Some(p) => p,
            None => FingerprintProfile::Chrome,
        };
        UtlsEngine { profile }
    }

    /// An engine with a specific profile.
    pub fn with_profile(profile: FingerprintProfile) -> (u: Self)
        ensures
            u.spec_profile() == profile,
    {
        UtlsEngine { profile }
    }

    /// The current profile.
    pub fn profile(&self) -> (p: FingerprintProfile)
        ensures
            p == self.spec_profile(),
    {
        self.profile
    }

    /// The TLS stack whose cipher suites, extensions and groups are applied
    /// to the client configuration for this profile.
    pub fn applied_stack(&self) -> (p: FingerprintProfile)
        ensures
            p == stack_of(self.spec_profile()),
    {
        match self.profile {
            FingerprintProfile::Edge => FingerprintProfile::Chrome,
            p => p,
        }
    }
}

impl UtlsEngine {
    /// The ClientHello parameters applied for this profile: Chrome's stack
    /// (Chrome and Edge) fixes its cipher and group preferences; the
    /// Firefox and Safari stacks keep the TLS library's defaults (`None`).
    pub fn hello_params(&self) -> (p: Option<HelloParams>)
        ensures
            p is Some <==> stack_of(self.spec_profile()) == FingerprintProfile::Chrome,
            p matches Some(h) ==> h.cipher_suites@ == chrome_cipher_suites() && h.groups@ == chrome_groups(),
    {
        match self.applied_stack() {
            FingerprintProfile::Chrome => {
                let mut cipher_suites: Vec<CipherFamily> = Vec::new();
                cipher_suites.push(CipherFamily::Aes128GcmSha256);
                cipher_suites.push(CipherFamily::Aes256GcmSha384);
                cipher_suites.push(CipherFamily::Chacha20Poly1305Sha256);
                let mut groups: Vec<KeyExchangeGroup> = Vec::new();
                groups.push(KeyExchangeGroup::X25519);
                groups.push(KeyExchangeGroup::Secp256r1);
                groups.push(KeyExchangeGroup::Secp384r1);
                assert(cipher_suites@ =~= chrome_cipher_suites());
                assert(groups@ =~= chrome_groups());
                Some(HelloParams { cipher_suites, groups })
            },
            _ => None,
        }
    }
}

impl Default for UtlsEngine {
    /// A random engine.
    fn default() -> (u: Self)
        ensures
            all_profiles().contains(u.spec_profile()),
    {
        Self::new_random()
    }
}

} // verus!
