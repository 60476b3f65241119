//! Discovery of heart-rate sensors and decoding of their measurements.
//!
//! The radio work (scanning, connecting, subscribing) is done by `bleasy`;
//! this crate holds the decisions around it: which devices qualify, how a
//! scan session moves between its states, what `next_sensor` returns for each
//! answer of the transport, and how a notification becomes a reading.
use vstd::prelude::*;

pub mod error;
pub mod filter;
pub mod reading;
pub mod session;

verus! {

} // verus!
