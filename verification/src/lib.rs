//! Sealed-bid, bonded request-for-quote (RFQ) matching and settlement core.
//!
//! A maker posts a request to trade a fixed amount of a base asset for a
//! minimum amount of a quote asset; takers submit hidden price commitments,
//! reveal them later, the maker selects a winner, and the winner finances the
//! trade before a deadline. Every participant posts a forfeitable bond, and
//! the protocol computes, exactly once, how much bonded value is forfeited to
//! the treasury when a party fails to follow through.

use vstd::prelude::*;

pub mod attestation;
pub mod bytes;
pub mod config;
pub mod errors;
pub mod fees;
pub mod hashing;
pub mod lifecycle;
pub mod quote;
pub mod rfq;
pub mod settlement;
pub mod slashing;
pub mod trackers;
pub mod transfers;

verus! {

/// Largest timestamp (seconds) the protocol accepts. Keeping timestamps below
/// this bound leaves room to add the four phase durations (each at most
/// `u32::MAX`) without overflowing an `i64`.
pub const MAX_TIMESTAMP: i64 = 0x7fff_fff0_0000_0000;

} // verus!
