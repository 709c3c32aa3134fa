//! Errors reported by this crate.

use vstd::prelude::*;

verus! {

/// The ways in which an operation of this crate can fail.
#[derive(Debug, Clone, Copy, PartialEq, Eq, Structural, Hash)]
pub enum Error {
    /// The protocol label names none of the known transports.
    ErrDetermineNetworkType,
}

} // verus!
