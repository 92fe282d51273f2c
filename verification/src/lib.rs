//! Verified core of two Rubix smart contracts: an RBT staking pool that pays
//! time-based yield, and an agent registry that records activity batches.
//!
//! The library holds the contracts' state machines and arithmetic. Storage
//! access, token minting and transfers, JSON encoding and the floating-point
//! reputation score are performed by the host program around it.

pub mod yield_math;
pub mod decimal;
pub mod text;
pub mod stakers;
pub mod pool;
pub mod agent;
pub mod laws;
