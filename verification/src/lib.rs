//! A fixed-capacity, power-of-two ring buffer transport with explicit
//! dependency ordering between producer and consumer stages, together with
//! the causal-reasoning model types that consume its handler capability.

pub mod errors;
pub mod extensions;
pub mod protocols;
pub mod ring_buffer;
pub mod types;
pub mod utils;

use vstd::prelude::*;

verus! {

/// The position type used for all sequence tracking: a 64-bit counter that
/// starts one slot before the first claimable position.
pub type Sequence = i64;

/// Sentinel value of a cursor or consumer sequence before any slot has been
/// claimed or published.
pub const INITIAL_SEQUENCE: i64 = -1;

} // verus!
