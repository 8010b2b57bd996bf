//! An NFT staking program: instruction and record encodings, reward
//! accounting, and the per-instruction decisions that validate accounts and
//! lay out the cross-program calls to make.

pub mod address;
pub mod codec;
pub mod instruction;
pub mod reward;
pub mod outside;
pub mod plan;
pub mod keys;
pub mod admin;
pub mod staking;
pub mod claim;
pub mod stake;
pub mod entry;
pub mod laws;
