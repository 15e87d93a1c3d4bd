//! Plain data model of the key-value material that the facade transports.
//!
//! The facade never inspects key or value bytes; it only moves them between
//! the client and the storage engine. Keys and values are byte strings, a
//! stored cell carries a version stamp, and a cell is either a live value or
//! a tombstone left by a removal.

use vstd::prelude::*;

verus! {

/// A lookup key: an opaque byte string.
#[derive(Clone, Debug, PartialEq, Eq)]
pub struct Key {
    pub key_bytes: Vec<u8>,
}

/// A stored value: an opaque byte string.
#[derive(Clone, Debug, PartialEq, Eq)]
pub struct Value {
    pub value_bytes: Vec<u8>,
}

/// What a key currently maps to: a live value or a tombstone.
#[derive(Clone, Debug, PartialEq, Eq)]
pub enum Cell {
    Value(Value),
    Tombstone,
}

/// A versioned cell: the engine stamps every mutation with a version.
#[derive(Clone, Debug, PartialEq, Eq)]
pub struct ValueCell {
    pub version: u64,
    pub cell: Cell,
}

/// One item of a range scan: a key together with its current cell.
#[derive(Clone, Debug, PartialEq, Eq)]
pub struct KeyValuePair {
    pub key: Key,
    pub value_cell: ValueCell,
}

/// Lexicographic strict order on byte sequences, the order in which the
/// engine yields keys of a range scan.
pub open spec fn bytes_lt(a: Seq<u8>, b: Seq<u8>) -> bool
    decreases a.len(),
{
    if b.len() == 0 {
        false
    } else if a.len() == 0 {
        true
    } else if a[0] != b[0] {
        a[0] < b[0]
    } else {
        bytes_lt(a.skip(1), b.skip(1))
    }
}

/// The engine's acknowledgement of an insert.
#[derive(Clone, Debug, PartialEq, Eq)]
pub struct Inserted {
    pub version: u64,
}

/// The engine's acknowledgement of a removal.
#[derive(Clone, Debug, PartialEq, Eq)]
pub struct Removed {
    pub version: u64,
}

/// The engine's acknowledgement of a flush.
#[derive(Clone, Debug, PartialEq, Eq)]
pub struct Flushed;

/// Metadata the engine reports about one backing wheel file.
#[derive(Clone, Debug, PartialEq, Eq)]
pub struct WheelInfo {
    pub blocks_count: u64,
}

/// Metadata the engine reports about the whole store.
#[derive(Clone, Debug, PartialEq, Eq)]
pub struct Info {
    pub key_values_count: u64,
    pub wheels: Vec<WheelInfo>,
}

} // verus!
