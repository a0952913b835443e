//! Gadget abstraction for ROP-chain discovery: an immutable, hashable,
//! queryable unit built from a run of decoded machine instructions.

pub mod record;
pub mod hashing;
pub mod render;
pub mod decode;
pub mod query;
pub mod gadget;
