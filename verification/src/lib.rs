//! Assembly of enriched blocks: every transaction of a block is paired with its
//! receipt and its execution trace, its signer is recovered from the signature
//! and held against the declared sender, and the block and ommer rewards of the
//! proof-of-work era are attached.

pub mod assemble;
pub mod encoding;
pub mod model;
pub mod reward;
pub mod service;
pub mod signature;
pub mod validate;
