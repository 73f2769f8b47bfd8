//! A slash-request lifecycle engine for a restaking network.
//!
//! An authorized caller proposes a punitive reduction ("slash") of an
//! operator's staked collateral; the proposal sits in a bounded veto window
//! during which the configured veto authorities may cancel it, and is
//! executed once the window has elapsed (or immediately, by a separately
//! trusted instant slasher). Resolved slots cool down for a delete period
//! and are then reclaimed, bounding the per-network request list at a fixed
//! capacity of 32 entries.

pub mod config;
pub mod error;
pub mod key;
pub mod laws;
pub mod lifecycle;
pub mod pda;
pub mod record;
pub mod slash_request;
pub mod slash_request_list;
