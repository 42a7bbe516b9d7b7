//! Failures of decoding a reply.

use vstd::prelude::*;

verus! {

/// Why a raw reply was rejected.
#[derive(Debug, Clone, Copy, PartialEq, Eq, Structural)]
pub enum DecodeError {
    /// The reply carries no header.
    MissingMetadata,
    /// The pair at `index` fails the schema's validation.
    MalformedEntry { index: usize },
}

} // verus!
