//! A control plane for several payment-network nodes in one process: a
//! registry from node identity to a shared engine handle, the start of a
//! node, one operation per remote call that never lets a failure escape,
//! and the wire views of channels, payments and peers.
use vstd::prelude::*;

pub mod config;
pub mod engine;
pub mod lightning;
pub mod registry;
pub mod requests;
pub mod server;
pub mod views;

verus! {

} // verus!
