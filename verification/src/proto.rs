//! The client-facing request protocol.
//!
//! A request carries its operands plus the stamp of the completion handle
//! that was issued for it; the handle is resolved exactly once, by the
//! dispatcher, with the operation's result or with abandonment.

use vstd::prelude::*;

use crate::kv::{Key, Value};

verus! {

/// One end of a key range.
#[derive(Debug, PartialEq, Eq)]
pub enum KeyBound {
    Unbounded,
    Included(Key),
    Excluded(Key),
}

/// A client operation, consumed exactly once by the event loop.
#[derive(Debug, PartialEq, Eq)]
pub enum Request {
    Info(RequestInfo),
    Insert(RequestInsert),
    LookupRange(RequestLookupKind),
    Remove(RequestRemove),
    FlushAll(RequestFlush),
}

/// Both lookup shapes ride the range machinery: a point lookup is the
/// degenerate scan over a single key.
#[derive(Debug, PartialEq, Eq)]
pub enum RequestLookupKind {
    Single(RequestLookupKindSingle),
    Range(RequestLookupKindRange),
}

/// A point lookup: resolved with the cell found under the key, or nothing.
#[derive(Debug, PartialEq, Eq)]
pub struct RequestLookupKindSingle {
    pub key: Key,
    pub reply_tx: usize,
}

/// A range scan: resolved with the client's stream handle as soon as the
/// scan is accepted, never tied to the scan's completion.
#[derive(Debug, PartialEq, Eq)]
pub struct RequestLookupKindRange {
    pub range_from: KeyBound,
    pub range_to: KeyBound,
    pub reply_tx: usize,
}

/// A metadata query.
#[derive(Debug, PartialEq, Eq)]
pub struct RequestInfo {
    pub reply_tx: usize,
}

/// An insert of one key-value pair.
#[derive(Debug, PartialEq, Eq)]
pub struct RequestInsert {
    pub key: Key,
    pub value: Value,
    pub reply_tx: usize,
}

/// A removal of one key.
#[derive(Debug, PartialEq, Eq)]
pub struct RequestRemove {
    pub key: Key,
    pub reply_tx: usize,
}

/// A flush of everything buffered.
#[derive(Debug, PartialEq, Eq)]
pub struct RequestFlush {
    pub reply_tx: usize,
}

} // verus!
