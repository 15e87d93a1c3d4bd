//! An asynchronous request/response facade over a mailbox-based key-value
//! storage engine and its block storage backend.
//!
//! Clients submit typed operations (point lookup, range scan, insert, remove,
//! metadata query, flush) and receive completion-style results. The engines
//! are actor-style workers that post reply envelopes back onto mailboxes; this
//! crate holds the verified core of the bridge between the two worlds: the
//! single-fulfillment completion handles, the envelope dispatcher, the
//! streaming range-scan continuation machine, the event-loop and supervision
//! decisions, and the work-item router. The asynchronous shell that drives
//! these machines over real channels and a real worker pool lives outside the
//! verified library.

use vstd::prelude::*;

use crate::kv::{Flushed, Info, Inserted, KeyValuePair, Removed, ValueCell};

pub mod access_policy;
pub mod completion;
pub mod echo_policy;
pub mod ftd_sklave;
pub mod gen_server;
pub mod job;
pub mod kv;
pub mod proto;
pub mod scan;
pub mod wheels;

verus! {

/// Reported when the facade's request channel is gone: the gen-server
/// process no longer exists.
#[derive(Clone, Copy, Debug, PartialEq, Eq, Structural)]
pub struct NoProcError;

/// An engine-reported failure, opaque to this layer: the facade only wraps
/// it into the fatal error of the step that met it.
#[derive(Clone, Copy, Debug, PartialEq, Eq, Structural)]
pub struct EngineError;

/// A metadata query fails only when the facade itself is gone.
#[derive(Clone, Copy, Debug, PartialEq, Eq, Structural)]
pub enum InfoError {
    GenServer(NoProcError),
}

/// An insert fails only when the facade itself is gone.
#[derive(Clone, Copy, Debug, PartialEq, Eq, Structural)]
pub enum InsertError {
    GenServer(NoProcError),
}

/// A point lookup fails only when the facade itself is gone.
#[derive(Clone, Copy, Debug, PartialEq, Eq, Structural)]
pub enum LookupError {
    GenServer(NoProcError),
}

/// A range lookup fails only when the facade itself is gone.
#[derive(Clone, Copy, Debug, PartialEq, Eq, Structural)]
pub enum LookupRangeError {
    GenServer(NoProcError),
}

/// A removal fails only when the facade itself is gone.
#[derive(Clone, Copy, Debug, PartialEq, Eq, Structural)]
pub enum RemoveError {
    GenServer(NoProcError),
}

/// A flush fails only when the facade itself is gone.
#[derive(Clone, Copy, Debug, PartialEq, Eq, Structural)]
pub enum FlushError {
    GenServer(NoProcError),
}

/// The client's handle on an accepted range scan: the stamp of the
/// rendezvous stream its items arrive on.
#[derive(Clone, Copy, Debug, PartialEq, Eq, Structural)]
pub struct LookupRange {
    pub key_values_rx: usize,
}

/// What a scan's stream yields to the client: items, then one explicit
/// end-of-stream marker.
#[derive(Clone, Debug, PartialEq, Eq)]
pub enum KeyValueStreamItem {
    KeyValue(KeyValuePair),
    NoMore,
}

/// One round of a client call: give up when the facade is gone, finish on a
/// reply, and try again when the round's completion handle was dropped
/// unresolved — a restart abandoned it, and the fresh facade may serve the
/// retried request.
#[derive(Debug, PartialEq, Eq)]
pub enum AttemptOutcome<T> {
    Finished(T),
    Retry,
}

/// One round of a metadata query.
pub fn info_attempt(send_ok: bool, reply: Option<Info>) -> (r: Result<
    AttemptOutcome<Info>,
    InfoError,
>)
    ensures
        !send_ok ==> r == Err::<AttemptOutcome<Info>, InfoError>(
            InfoError::GenServer(NoProcError),
        ),
        send_ok ==> (reply matches Some(info) ==> r == Ok::<AttemptOutcome<Info>, InfoError>(
            AttemptOutcome::Finished(info),
        )),
        send_ok && reply is None ==> r == Ok::<AttemptOutcome<Info>, InfoError>(
            AttemptOutcome::Retry,
        ),
{
    if !send_ok {
        return Err(InfoError::GenServer(NoProcError));
    }
    match reply {
        Some(info) => Ok(AttemptOutcome::Finished(info)),
        None => Ok(AttemptOutcome::Retry),
    }
}

/// One round of an insert.
pub fn insert_attempt(send_ok: bool, reply: Option<Inserted>) -> (r: Result<
    AttemptOutcome<Inserted>,
    InsertError,
>)
    ensures
        !send_ok ==> r == Err::<AttemptOutcome<Inserted>, InsertError>(
            InsertError::GenServer(NoProcError),
        ),
        send_ok ==> (reply matches Some(inserted) ==> r == Ok::<
            AttemptOutcome<Inserted>,
            InsertError,
        >(AttemptOutcome::Finished(inserted))),
        send_ok && reply is None ==> r == Ok::<AttemptOutcome<Inserted>, InsertError>(
            AttemptOutcome::Retry,
        ),
{
    if !send_ok {
        return Err(InsertError::GenServer(NoProcError));
    }
    match reply {
        Some(inserted) => Ok(AttemptOutcome::Finished(inserted)),
        None => Ok(AttemptOutcome::Retry),
    }
}

/// One round of a point lookup.
pub fn lookup_attempt(send_ok: bool, reply: Option<Option<ValueCell>>) -> (r: Result<
    AttemptOutcome<Option<ValueCell>>,
    LookupError,
>)
    ensures
        !send_ok ==> r == Err::<AttemptOutcome<Option<ValueCell>>, LookupError>(
            LookupError::GenServer(NoProcError),
        ),
        send_ok ==> (reply matches Some(found) ==> r == Ok::<
            AttemptOutcome<Option<ValueCell>>,
            LookupError,
        >(AttemptOutcome::Finished(found))),
        send_ok && reply is None ==> r == Ok::<AttemptOutcome<Option<ValueCell>>, LookupError>(
            AttemptOutcome::Retry,
        ),
{
    if !send_ok {
        return Err(LookupError::GenServer(NoProcError));
    }
    match reply {
        Some(found) => Ok(AttemptOutcome::Finished(found)),
        None => Ok(AttemptOutcome::Retry),
    }
}

/// One round of a range lookup, generic in the stream handle the reply
/// carries: the verified model hands the handle's stamp through it, an
/// asynchronous shell a real channel end.
pub fn lookup_range_attempt<T>(send_ok: bool, reply: Option<T>) -> (r: Result<
    AttemptOutcome<T>,
    LookupRangeError,
>)
    ensures
        !send_ok ==> r == Err::<AttemptOutcome<T>, LookupRangeError>(
            LookupRangeError::GenServer(NoProcError),
        ),
        send_ok ==> (reply matches Some(lookup_range) ==> r == Ok::<
            AttemptOutcome<T>,
            LookupRangeError,
        >(AttemptOutcome::Finished(lookup_range))),
        send_ok && reply is None ==> r == Ok::<AttemptOutcome<T>, LookupRangeError>(
            AttemptOutcome::Retry,
        ),
{
    if !send_ok {
        return Err(LookupRangeError::GenServer(NoProcError));
    }
    match reply {
        Some(lookup_range) => Ok(AttemptOutcome::Finished(lookup_range)),
        None => Ok(AttemptOutcome::Retry),
    }
}

/// One round of a removal.
pub fn remove_attempt(send_ok: bool, reply: Option<Removed>) -> (r: Result<
    AttemptOutcome<Removed>,
    RemoveError,
>)
    ensures
        !send_ok ==> r == Err::<AttemptOutcome<Removed>, RemoveError>(
            RemoveError::GenServer(NoProcError),
        ),
        send_ok ==> (reply matches Some(removed) ==> r == Ok::<AttemptOutcome<Removed>, RemoveError>(
            AttemptOutcome::Finished(removed),
        )),
        send_ok && reply is None ==> r == Ok::<AttemptOutcome<Removed>, RemoveError>(
            AttemptOutcome::Retry,
        ),
{
    if !send_ok {
        return Err(RemoveError::GenServer(NoProcError));
    }
    match reply {
        Some(removed) => Ok(AttemptOutcome::Finished(removed)),
        None => Ok(AttemptOutcome::Retry),
    }
}

/// One round of a flush.
pub fn flush_all_attempt(send_ok: bool, reply: Option<Flushed>) -> (r: Result<
    AttemptOutcome<Flushed>,
    FlushError,
>)
    ensures
        !send_ok ==> r == Err::<AttemptOutcome<Flushed>, FlushError>(
            FlushError::GenServer(NoProcError),
        ),
        send_ok ==> (reply matches Some(flushed) ==> r == Ok::<AttemptOutcome<Flushed>, FlushError>(
            AttemptOutcome::Finished(flushed),
        )),
        send_ok && reply is None ==> r == Ok::<AttemptOutcome<Flushed>, FlushError>(
            AttemptOutcome::Retry,
        ),
{
    if !send_ok {
        return Err(FlushError::GenServer(NoProcError));
    }
    match reply {
        Some(flushed) => Ok(AttemptOutcome::Finished(flushed)),
        None => Ok(AttemptOutcome::Retry),
    }
}

} // verus!
