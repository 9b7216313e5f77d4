//! The operating system the client runs on, where behaviour depends on it.

use vstd::prelude::*;

verus! {

/// Target operating system.
#[derive(Clone, Copy, Debug, PartialEq, Eq, Structural)]
pub enum TargetOs {
    MacOs,
    Linux,
    Windows,
    Other,
}

} // verus!
