//! Errors of the tunnel engine and the network layer.

use vstd::prelude::*;

verus! {

/// The reason phrase `http` knows for a status code.
pub uninterp spec fn status_reason(code: u16) -> Option<Seq<char>>;

/// `http::StatusCode::from_u16` then `canonical_reason`: the standard
/// reason phrase of a status code that `http` knows; `None` for an unknown
/// code and for numbers outside 100..=999, which are no status codes.
#[verifier::external_body]
fn canonical_reason(code: u16) -> (r: Option<&'static str>)
    ensures
        r matches Some(s) ==> status_reason(code) == Some(s@),
        r is None ==> status_reason(code) is None,
        !(100 <= code <= 999) ==> r is None,
{
    http::StatusCode::from_u16(code).ok().and_then(|s| s.canonical_reason())
}

/// A status code as `http` displays it: the number, a space, and the
/// reason phrase or `<unknown status code>`.
pub open spec fn status_text(code: u16) -> Seq<char> {
    crate::text::decimal(code as nat) + " "@ + match status_reason(code) {
        Some(r) => r,
        None => "<unknown status code>"@,
    }
}

/// What can go wrong in the engine's and the network layer's own logic.
#[derive(Debug)]
pub enum SecularError {
    /// The configuration was refused; the message says why.
    InvalidConfig(String),
    /// The TUN interface is not up.
    TunNotUp,
    /// TUN interfaces are not supported on this platform.
    UnsupportedPlatform,
    /// No tunnel is established.
    NotConnected,
    /// The QUIC path is not implemented.
    QuicNotImplemented,
    /// The server answered the authentication request with a non-success status.
    AuthRejected(u16),
}

impl SecularError {
    /// The error's message; for a rejected authentication the message
    /// carries the status as `http` displays it (e.g. `404 Not Found`).
    pub fn message(&self) -> (m: String)
        ensures
            self matches SecularError::InvalidConfig(s) ==> m@ == s@,
            self is TunNotUp ==> m@ == "TUN interface is not up"@,
            self is UnsupportedPlatform ==> m@ == "Unsupported platform"@,
            self is NotConnected ==> m@ == "Not connected"@,
            self is QuicNotImplemented ==> m@ == "QUIC protocol not yet implemented"@,
            self matches SecularError::AuthRejected(code) ==> m@ == "Server rejected auth token: HTTP "@
                + status_text(*code),
    {
        match self {
            SecularError::InvalidConfig(s) => s.clone(),
            SecularError::TunNotUp => "TUN interface is not up".to_string(),
            SecularError::UnsupportedPlatform => "Unsupported platform".to_string(),
            SecularError::NotConnected => "Not connected".to_string(),
            SecularError::QuicNotImplemented => "QUIC protocol not yet implemented".to_string(),
            SecularError::AuthRejected(code) => {
                let mut m = "Server rejected auth token: HTTP ".to_string();
                m.append(crate::text::decimal_string(*code as u64).as_str());
                m.append(" ");
                match canonical_reason(*code) {
                    Some(r) => m.append(r),
                    None => m.append("<unknown status code>"),
                }
                m
            },
        }
    }
}

} // verus!
