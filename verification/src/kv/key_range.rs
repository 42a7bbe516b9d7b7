//! The key interval that a query operates over.

use vstd::prelude::*;

verus! {

/// A single key, or the half-open interval `[key, range_end)` of keys in the
/// store's byte order. An empty `range_end` selects the single key `key`.
#[derive(Debug, Clone, PartialEq, Eq)]
pub struct KeyRange {
    pub key: Vec<u8>,
    pub range_end: Vec<u8>,
}

/// What a [`KeyRange`] holds.
pub struct KeyRangeView {
    pub key: Seq<u8>,
    pub range_end: Seq<u8>,
}

impl KeyRangeView {
    /// An interval is well formed when its key is not empty: the empty key is
    /// kept for the store's own sentinels.
    pub open spec fn well_formed(self) -> bool {
        self.key.len() > 0
    }

    /// Whether the interval selects one key only.
    pub open spec fn is_single_key(self) -> bool {
        self.range_end.len() == 0
    }
}

impl View for KeyRange {
    type V = KeyRangeView;

    open spec fn view(&self) -> KeyRangeView {
        KeyRangeView { key: self.key@, range_end: self.range_end@ }
    }
}

impl KeyRange {
    /// The interval `[key, range_end)`. The bytes are taken as they are.
    pub fn range(key: Vec<u8>, range_end: Vec<u8>) -> (r: KeyRange)
        ensures
            r@ == (KeyRangeView { key: key@, range_end: range_end@ }),
    {
        KeyRange { key, range_end }
    }

    /// The interval that selects the single key `key`.
    pub fn key(key: Vec<u8>) -> (r: KeyRange)
        ensures
            r@ == (KeyRangeView { key: key@, range_end: Seq::empty() }),
            r@.is_single_key(),
    {
        KeyRange { key, range_end: Vec::new() }
    }

    /// Whether the key is not empty.
    pub fn is_well_formed(&self) -> (b: bool)
        ensures
            b == self@.well_formed(),
    {
        self.key.len() > 0
    }

    /// Whether the interval selects one key only.
    pub fn is_single_key(&self) -> (b: bool)
        ensures
            b == self@.is_single_key(),
    {
        self.range_end.len() == 0
    }
}

} // verus!
