//! A time-locked value-and-message escrow.
//!
//! A creator seals a byte message together with an amount of value for a
//! designated recipient. The capsule can be opened only by that recipient,
//! and only once the host's monotonic block counter has reached the unlock
//! point fixed at creation. Opening is one-shot: it releases the value and
//! deletes the record atomically.
//!
//! The store is a plain state machine over explicit inputs: the ambient
//! facts a host ledger would supply (caller identity, current block height,
//! attached value) enter each operation as an [`types::Env`] argument, and
//! the verdict of the host's value-transfer service enters `open_capsule`
//! as an argument, so the whole lifecycle is verified here.

pub mod laws;
pub mod store;
pub mod types;
