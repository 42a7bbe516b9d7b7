//! The wire messages of a range query, field for field as the store's schema
//! defines them, and the two conversions between the schema's signed 64-bit
//! fields and the unsigned values they carry: a limit goes out bounded by the
//! field's greatest value, and a count comes in as the unsigned number with
//! the same bits.

use vstd::prelude::*;

verus! {

/// The limit field of the request message for a limit of `limit` pairs: the
/// limit itself as far as the signed field can hold it, and the field's
/// greatest value for every larger limit. It is never negative, and 0 only
/// for the limit 0.
pub open spec fn wire_limit(limit: nat) -> int {
    if limit <= i64::MAX {
        limit as int
    } else {
        i64::MAX as int
    }
}

/// Computes the limit field of the request message.
pub fn limit_to_wire(limit: u64) -> (w: i64)
    ensures
        w == wire_limit(limit as nat),
{
    if limit <= 0x7fff_ffff_ffff_ffff {
        limit as i64
    } else {
        i64::MAX
    }
}

/// Two to the power 64: the distance between a 64-bit pattern read as
/// unsigned and the same pattern read as a negative signed number.
pub open spec fn two_pow_64() -> int {
    0x1_0000_0000_0000_0000
}

/// The unsigned 64-bit number with the same bit pattern as the signed `s`.
pub open spec fn unsigned_of(s: int) -> int
    recommends
        i64::MIN <= s <= i64::MAX,
{
    if s >= 0 {
        s
    } else {
        s + two_pow_64()
    }
}

/// Reinterprets a signed wire integer as the unsigned 64-bit value with the
/// same bits.
pub fn to_unsigned(s: i64) -> (u: u64)
    ensures
        u == unsigned_of(s as int),
{
    if s >= 0 {
        s as u64
    } else {
        let low: i64 = s - i64::MIN;
        (low as u64) + 0x8000_0000_0000_0000
    }
}

/// Cluster and revision metadata of a reply, as sent.
#[derive(Debug, Clone, Copy, PartialEq, Eq, Structural)]
pub struct RawResponseHeader {
    pub cluster_id: u64,
    pub member_id: u64,
    pub revision: i64,
    pub raft_term: u64,
}

/// One stored entry of a reply, as sent.
#[derive(Debug, Clone, PartialEq, Eq)]
pub struct RawKeyValue {
    pub key: Vec<u8>,
    pub value: Vec<u8>,
    pub create_revision: i64,
    pub mod_revision: i64,
    pub version: i64,
}

/// What a [`RawKeyValue`] holds.
pub struct RawKeyValueView {
    pub key: Seq<u8>,
    pub value: Seq<u8>,
    pub create_revision: int,
    pub mod_revision: int,
    pub version: int,
}

impl View for RawKeyValue {
    type V = RawKeyValueView;

    open spec fn view(&self) -> RawKeyValueView {
        RawKeyValueView {
            key: self.key@,
            value: self.value@,
            create_revision: self.create_revision as int,
            mod_revision: self.mod_revision as int,
            version: self.version as int,
        }
    }
}

/// The range request message.
#[derive(Debug, Clone, PartialEq, Eq)]
pub struct RawRangeRequest {
    pub key: Vec<u8>,
    pub range_end: Vec<u8>,
    pub limit: i64,
    pub revision: i64,
    pub sort_order: i32,
    pub sort_target: i32,
    pub serializable: bool,
    pub keys_only: bool,
    pub count_only: bool,
    pub min_mod_revision: i64,
    pub max_mod_revision: i64,
    pub min_create_revision: i64,
    pub max_create_revision: i64,
}

/// What a [`RawRangeRequest`] holds.
pub struct RawRangeRequestView {
    pub key: Seq<u8>,
    pub range_end: Seq<u8>,
    pub limit: int,
    pub revision: int,
    pub sort_order: int,
    pub sort_target: int,
    pub serializable: bool,
    pub keys_only: bool,
    pub count_only: bool,
    pub min_mod_revision: int,
    pub max_mod_revision: int,
    pub min_create_revision: int,
    pub max_create_revision: int,
}

impl View for RawRangeRequest {
    type V = RawRangeRequestView;

    open spec fn view(&self) -> RawRangeRequestView {
        RawRangeRequestView {
            key: self.key@,
            range_end: self.range_end@,
            limit: self.limit as int,
            revision: self.revision as int,
            sort_order: self.sort_order as int,
            sort_target: self.sort_target as int,
            serializable: self.serializable,
            keys_only: self.keys_only,
            count_only: self.count_only,
            min_mod_revision: self.min_mod_revision as int,
            max_mod_revision: self.max_mod_revision as int,
            min_create_revision: self.min_create_revision as int,
            max_create_revision: self.max_create_revision as int,
        }
    }
}

/// The range reply message. The schema lets the header be absent; a reply
/// without one is not a valid reply.
#[derive(Debug, Clone, PartialEq, Eq)]
pub struct RawRangeResponse {
    pub header: Option<RawResponseHeader>,
    pub kvs: Vec<RawKeyValue>,
    pub more: bool,
    pub count: i64,
}

/// What a [`RawRangeResponse`] holds.
pub struct RawRangeResponseView {
    pub header: Option<RawResponseHeader>,
    pub kvs: Seq<RawKeyValueView>,
    pub more: bool,
    pub count: int,
}

impl View for RawRangeResponse {
    type V = RawRangeResponseView;

    open spec fn view(&self) -> RawRangeResponseView {
        RawRangeResponseView {
            header: self.header,
            kvs: self.kvs@.map_values(|kv: RawKeyValue| kv@),
            more: self.more,
            count: self.count as int,
        }
    }
}

} // verus!
