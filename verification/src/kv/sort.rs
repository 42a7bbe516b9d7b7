//! How the pairs of a reply are ordered, and the wire codes that say so.

use vstd::prelude::*;
use vstd::std_specs::convert::FromSpecImpl;

verus! {

/// Wire code of the sort order "none": the store's natural key order.
pub const ORDER_NONE: i32 = 0;

/// Wire code of the ascending sort order.
pub const ORDER_ASCEND: i32 = 1;

/// Wire code of the descending sort order.
pub const ORDER_DESCEND: i32 = 2;

/// Wire code of the sort target "key", which is also the schema's default.
pub const TARGET_KEY: i32 = 0;

/// Wire code of the sort target "version".
pub const TARGET_VERSION: i32 = 1;

/// Wire code of the sort target "create revision".
pub const TARGET_CREATE: i32 = 2;

/// Wire code of the sort target "mod revision".
pub const TARGET_MOD: i32 = 3;

/// Wire code of the sort target "value".
pub const TARGET_VALUE: i32 = 4;

/// The direction of a sort.
#[derive(Debug, Clone, Copy, PartialEq, Eq, Structural)]
pub enum SortOrder {
    Ascending,
    Descending,
}

/// The field of a pair that a sort goes by.
#[derive(Debug, Clone, Copy, PartialEq, Eq, Structural)]
pub enum SortTarget {
    Key,
    Version,
    CreateRevision,
    ModRevision,
    Value,
}

/// A sort target together with its direction. A query has either a whole
/// policy or none.
#[derive(Debug, Clone, Copy, PartialEq, Eq, Structural)]
pub struct SortPolicy {
    pub target: SortTarget,
    pub order: SortOrder,
}

/// The two sort fields of the request message.
#[derive(Debug, Clone, Copy, PartialEq, Eq, Structural)]
pub struct WireSort {
    pub target: i32,
    pub order: i32,
}

impl SortOrder {
    /// The wire code of the direction.
    pub open spec fn code(self) -> i32 {
        match self {
            SortOrder::Ascending => ORDER_ASCEND,
            SortOrder::Descending => ORDER_DESCEND,
        }
    }

    /// The wire code of the direction.
    pub fn wire_code(self) -> (c: i32)
        ensures
            c == self.code(),
    {
        match self {
            SortOrder::Ascending => ORDER_ASCEND,
            SortOrder::Descending => ORDER_DESCEND,
        }
    }
}

impl From<SortOrder> for i32 {
    /// The wire code of the direction.
    fn from(order: SortOrder) -> (c: i32) {
        order.wire_code()
    }
}

impl FromSpecImpl<SortOrder> for i32 {
    open spec fn obeys_from_spec() -> bool {
        true
    }

    open spec fn from_spec(order: SortOrder) -> i32 {
        order.code()
    }
}

impl SortTarget {
    /// The wire code of the target.
    pub open spec fn code(self) -> i32 {
        match self {
            SortTarget::Key => TARGET_KEY,
            SortTarget::Version => TARGET_VERSION,
            SortTarget::CreateRevision => TARGET_CREATE,
            SortTarget::ModRevision => TARGET_MOD,
            SortTarget::Value => TARGET_VALUE,
        }
    }

    /// The wire code of the target.
    pub fn wire_code(self) -> (c: i32)
        ensures
            c == self.code(),
    {
        match self {
            SortTarget::Key => TARGET_KEY,
            SortTarget::Version => TARGET_VERSION,
            SortTarget::CreateRevision => TARGET_CREATE,
            SortTarget::ModRevision => TARGET_MOD,
            SortTarget::Value => TARGET_VALUE,
        }
    }
}

impl WireSort {
    /// The wire fields of a query's sort setting. Without a policy the order
    /// is "none" and the target is left at the schema's default.
    pub open spec fn of(sort: Option<SortPolicy>) -> WireSort {
        match sort {
            None => WireSort { target: TARGET_KEY, order: ORDER_NONE },
            Some(p) => WireSort { target: p.target.code(), order: p.order.code() },
        }
    }

    /// Whether the fields ask for no sorting.
    pub open spec fn unsorted(self) -> bool {
        self.order == ORDER_NONE
    }

    /// Maps a query's sort setting to its wire fields.
    pub fn encode(sort: Option<SortPolicy>) -> (w: WireSort)
        ensures
            w == Self::of(sort),
    {
        match sort {
            None => WireSort { target: TARGET_KEY, order: ORDER_NONE },
            Some(p) => WireSort { target: p.target.wire_code(), order: p.order.wire_code() },
        }
    }
}

/// The wire fields ask for no sorting exactly when the query has no policy.
pub proof fn lemma_unsorted_iff_no_policy(sort: Option<SortPolicy>)
    ensures
        WireSort::of(sort).unsorted() <==> sort is None,
{
}

/// Two sort settings with the same wire fields are the same setting: the
/// store can tell every policy from every other, and from none.
pub proof fn lemma_wire_sort_injective(a: Option<SortPolicy>, b: Option<SortPolicy>)
    requires
        WireSort::of(a) == WireSort::of(b),
    ensures
        a == b,
{
}

} // verus!
