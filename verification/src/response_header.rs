//! The metadata that the store attaches to every reply.

use vstd::prelude::*;
use crate::wire::RawResponseHeader;

verus! {

/// Identity of the answering member and the store revision at which the reply
/// was produced.
#[derive(Debug, Clone, Copy, PartialEq, Eq, Structural)]
pub struct ResponseHeader {
    pub cluster_id: u64,
    pub member_id: u64,
    pub revision: i64,
    pub raft_term: u64,
}

impl ResponseHeader {
    /// The header that a raw header decodes to: the same four values.
    pub open spec fn of_raw(raw: RawResponseHeader) -> ResponseHeader {
        ResponseHeader {
            cluster_id: raw.cluster_id,
            member_id: raw.member_id,
            revision: raw.revision,
            raft_term: raw.raft_term,
        }
    }

    /// Decodes a raw header.
    pub fn decode(raw: RawResponseHeader) -> (header: ResponseHeader)
        ensures
            header == Self::of_raw(raw),
    {
        ResponseHeader {
            cluster_id: raw.cluster_id,
            member_id: raw.member_id,
            revision: raw.revision,
            raft_term: raw.raft_term,
        }
    }
}

} // verus!
