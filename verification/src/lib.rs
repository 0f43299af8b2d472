//! A verified conformance harness core for a remote escrow state machine.
//!
//! The library holds the logic that can be checked without touching the
//! network: wire-format encoding of remote calls, deterministic account
//! address derivation, decoding of fetched account records, a model of the
//! observed escrow lifecycle, tolerance-banded balance checks, and the
//! decision logic of the bounded funding retry loop. Transport, signing and
//! sleeping live outside the library.

pub mod address;
pub mod checks;
pub mod codec;
pub mod config;
pub mod funding;
pub mod model;
pub mod scenario;
pub mod view;

use vstd::prelude::*;

verus! {

/// Number of base units (lamports) in one whole unit of the ledger currency.
pub const LAMPORTS_PER_SOL: u64 = 1_000_000_000;

} // verus!
