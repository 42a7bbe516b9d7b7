//! A stored entry as of some revision.

use vstd::prelude::*;
use crate::wire::{RawKeyValue, RawKeyValueView};

verus! {

/// A key with its value and the revisions that describe its history.
#[derive(Debug, Clone, PartialEq, Eq)]
pub struct KeyValue {
    pub key: Vec<u8>,
    pub value: Vec<u8>,
    pub create_revision: i64,
    pub mod_revision: i64,
    pub version: i64,
}

/// What a [`KeyValue`] holds.
pub struct KeyValueView {
    pub key: Seq<u8>,
    pub value: Seq<u8>,
    pub create_revision: int,
    pub mod_revision: int,
    pub version: int,
}

impl KeyValueView {
    /// The pair that a raw pair decodes to: the same five values.
    pub open spec fn of_raw(raw: RawKeyValueView) -> KeyValueView {
        KeyValueView {
            key: raw.key,
            value: raw.value,
            create_revision: raw.create_revision,
            mod_revision: raw.mod_revision,
            version: raw.version,
        }
    }
}

impl View for KeyValue {
    type V = KeyValueView;

    open spec fn view(&self) -> KeyValueView {
        KeyValueView {
            key: self.key@,
            value: self.value@,
            create_revision: self.create_revision as int,
            mod_revision: self.mod_revision as int,
            version: self.version as int,
        }
    }
}

impl KeyValue {
    /// Decodes a raw pair. Every raw pair is a valid pair.
    pub fn decode(raw: RawKeyValue) -> (kv: KeyValue)
        ensures
            kv@ == KeyValueView::of_raw(raw@),
    {
        KeyValue {
            key: raw.key,
            value: raw.value,
            create_revision: raw.create_revision,
            mod_revision: raw.mod_revision,
            version: raw.version,
        }
    }
}

} // verus!
