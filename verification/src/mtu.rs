//! Dynamic MTU clamping: keeps the tunnel MTU inside a safe window so that
//! wrapped packets are never fragmented.

use vstd::prelude::*;
use crate::platform::TargetOs;
use crate::text::str_eq;

verus! {

/// Default MTU on macOS and Linux, the platforms this crate is built for.
pub const DEFAULT_MTU: u16 = 1420;

/// Safe MTU for HTTP/2 wrapped traffic over standard Ethernet.
pub const SAFE_MTU: u16 = 1380;

/// Smallest MTU the clamper allows.
pub const MIN_MTU: u16 = 576;

/// Largest MTU the clamper allows.
pub const MAX_MTU: u16 = 1500;

/// HTTP/2 framing overhead (frame header and HPACK).
pub const H2_OVERHEAD: u16 = 40;

/// QUIC overhead (header and encryption).
pub const QUIC_OVERHEAD: u16 = 48;

/// Default MTU of each platform: 1420 on macOS and Linux, 1400 elsewhere.
pub open spec fn spec_default_mtu_for(os: TargetOs) -> u16 {
    match os {
        TargetOs::MacOs | TargetOs::Linux => 1420,
        _ => 1400,
    }
}

/// Default MTU for a platform.
pub fn default_mtu_for(os: TargetOs) -> (m: u16)
    ensures
        m == spec_default_mtu_for(os),
{
    match os {
        TargetOs::MacOs | TargetOs::Linux => 1420,
        _ => 1400,
    }
}

/// `mtu` clamped into `[MIN_MTU, MAX_MTU]`.
pub open spec fn clamp_mtu(mtu: int) -> int {
    if mtu < MIN_MTU {
        MIN_MTU as int
    } else if mtu > MAX_MTU {
        MAX_MTU as int
    } else {
        mtu
    }
}

/// MTU after subtracting a protocol overhead, never below `MIN_MTU`
/// (the subtraction saturates at zero).
pub open spec fn reduce_mtu(mtu: int, overhead: int) -> int {
    let sub = if mtu >= overhead { mtu - overhead } else { 0 };
    if sub >= MIN_MTU { sub } else { MIN_MTU as int }
}

/// MTU after adjusting for the overhead of `protocol`: `"h2"` and `"quic"`
/// reduce it, any other protocol leaves it unchanged.
pub open spec fn adjusted_mtu(mtu: int, protocol: Seq<char>) -> int {
    if protocol == "h2"@ {
        reduce_mtu(mtu, H2_OVERHEAD as int)
    } else if protocol == "quic"@ {
        reduce_mtu(mtu, QUIC_OVERHEAD as int)
    } else {
        mtu
    }
}

/// MTU clamping engine.
pub struct MtuClamper {
    current: u16,
    min_mtu: u16,
    max_mtu: u16,
}

impl MtuClamper {
    #[verifier::type_invariant]
    spec fn bounded(self) -> bool {
        &&& self.min_mtu == MIN_MTU
        &&& self.max_mtu == MAX_MTU
        &&& self.min_mtu <= self.current <= self.max_mtu
    }

    /// The current MTU.
    pub closed spec fn spec_current(self) -> u16 {
        self.current
    }

    /// A clamper at `DEFAULT_MTU`, the macOS and Linux default (`for_target`
    /// gives each platform's default, 1400 on Windows and elsewhere).
    pub fn new() -> (m: Self)
        ensures
            m.spec_current() == DEFAULT_MTU,
    {
        MtuClamper { current: DEFAULT_MTU, min_mtu: MIN_MTU, max_mtu: MAX_MTU }
    }

    /// A clamper at the default MTU of the given platform.
    pub fn for_target(os: TargetOs) -> (m: Self)
        ensures
            m.spec_current() == spec_default_mtu_for(os),
    {
        MtuClamper { current: default_mtu_for(os), min_mtu: MIN_MTU, max_mtu: MAX_MTU }
    }

    /// A clamper at `mtu`, clamped into `[MIN_MTU, MAX_MTU]`.
    pub fn with_mtu(mtu: u16) -> (m: Self)
        ensures
            m.spec_current() == clamp_mtu(mtu as int),
    {
        let current = if mtu < MIN_MTU {
            MIN_MTU
        } else if mtu > MAX_MTU {
            MAX_MTU
        } else {
            mtu
        };
        MtuClamper { current, min_mtu: MIN_MTU, max_mtu: MAX_MTU }
    }

    /// The MTU to build packets with: the current MTU, at most `SAFE_MTU`.
    pub fn safe_mtu(&self) -> (m: u16)
        ensures
            m == (if self.spec_current() < SAFE_MTU { self.spec_current() } else { SAFE_MTU }),
    {
        if self.current < SAFE_MTU {
            self.current
        } else {
            SAFE_MTU
        }
    }

    /// The raw current MTU.
    pub fn current(&self) -> (m: u16)
        ensures
            m == self.spec_current(),
            MIN_MTU <= m <= MAX_MTU,
    {
        proof {
            use_type_invariant(self);
        }
        self.current
    }

    /// Path MTU discovery towards `host`: settles on `SAFE_MTU`.
    pub fn discover_mtu(&mut self, host: &str) -> (m: u16)
        ensures
            final(self).spec_current() == SAFE_MTU,
            m == SAFE_MTU,
    {
        proof {
            use_type_invariant(&*self);
        }
        self.current = SAFE_MTU;
        self.current
    }

    /// Reduce the MTU by the framing overhead of `protocol` (`"h2"`: 40,
    /// `"quic"`: 48), never below the minimum; other protocols leave it.
    pub fn adjust_for_protocol(&mut self, protocol: &str) -> (m: u16)
        ensures
            final(self).spec_current() == adjusted_mtu(old(self).spec_current() as int, protocol@),
            m == final(self).spec_current(),
            MIN_MTU <= m <= old(self).spec_current(),
    {
        proof {
            use_type_invariant(&*self);
        }
        let cur = self.current;
        let next = if str_eq(protocol, "h2") {
            Self::reduce(cur, H2_OVERHEAD)
        } else if str_eq(protocol, "quic") {
            Self::reduce(cur, QUIC_OVERHEAD)
        } else {
            cur
        };
        self.current = next;
        self.current
    }

    fn reduce(mtu: u16, overhead: u16) -> (m: u16)
        requires
            mtu <= MAX_MTU,
        ensures
            m == reduce_mtu(mtu as int, overhead as int),
            MIN_MTU <= m <= MAX_MTU,
    {
        let sub = mtu.saturating_sub(overhead);
        if sub >= MIN_MTU {
            sub
        } else {
            MIN_MTU
        }
    }
}

impl Default for MtuClamper {
    fn default() -> (m: Self)
        ensures
            m.spec_current() == DEFAULT_MTU,
    {
        Self::new()
    }
}

/// Clamping is idempotent, and leaves an MTU already inside the window unchanged.
pub proof fn law_clamp_idempotent(mtu: int)
    ensures
        clamp_mtu(clamp_mtu(mtu)) == clamp_mtu(mtu),
        MIN_MTU <= clamp_mtu(mtu) <= MAX_MTU,
        MIN_MTU <= mtu <= MAX_MTU ==> clamp_mtu(mtu) == mtu,
{
}

/// Adjusting for a protocol never raises the MTU of a clamper, and never
/// takes it below the minimum.
pub proof fn law_adjust_never_raises(mtu: int, protocol: Seq<char>)
    requires
        MIN_MTU <= mtu <= MAX_MTU,
    ensures
        MIN_MTU <= adjusted_mtu(mtu, protocol) <= mtu,
{
}

/// The safe MTU never exceeds `SAFE_MTU` nor the current MTU.
pub proof fn law_safe_mtu_bounded(current: u16)
    ensures
        (if current < SAFE_MTU { current } else { SAFE_MTU }) <= SAFE_MTU,
        (if current < SAFE_MTU { current } else { SAFE_MTU }) <= current,
{
}

} // verus!
