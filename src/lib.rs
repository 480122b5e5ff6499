//! Settlement engine for monetized live streams: creators open streams,
//! supporters donate into a per-stream escrow, and at the end the escrow is
//! split between the creator and the viewers in proportion to attested watch
//! time. Disputes can be raised against settled streams and resolved by the
//! platform operator.

pub mod types;
pub mod events;
pub mod attestation;
pub mod payout;
pub mod lifecycle;
pub mod dispute;
pub mod laws;
