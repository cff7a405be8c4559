//! Verified core of a mirror for a versioned software-distribution repository:
//! path normalization, digest bookkeeping, manifest rewriting, fetch retry
//! decisions, and garbage-collection planning.

pub mod artifact;
pub mod channel;
pub mod fetch;
pub mod gc;
pub mod hashing;
pub mod manifest;
pub mod paths;
pub mod selfup;
pub mod strset;
pub mod strutil;
pub mod urls;

use vstd::prelude::*;

verus! {

/// The fixed number of attempts granted to a fetch or checksum cycle.
pub const MAX_RETRIES: u32 = 3;

} // verus!
