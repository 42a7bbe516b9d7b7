//! Key-value operations: the key interval, the stored pair, the sort policy
//! and the range query with its reply.

pub mod key_range;
pub mod key_value;
pub mod sort;
pub mod range;
