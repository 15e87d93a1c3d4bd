//! The feedback dispatcher: the worker that takes reply envelopes posted by
//! the storage engine and resolves the completion handles they are stamped
//! with.
//!
//! `Welt` is the dispatcher's world: the registry of completion handles still
//! in flight, addressed by the stamp that travels inside each envelope. A
//! delivery envelope resolves the named handle with its payload. An
//! abandonment envelope means the engine's mailbox died before replying: it
//! resolves the stamped handle with the abandonment signal, so the waiter
//! never hangs, and is then fatal to the facade. A handle whose client went
//! away, or that is already resolved, rejects the delivery, which is logged
//! and harmless for client-facing handles.

use vstd::prelude::*;

use crate::completion::{Attempt, Completion, Reply, ReplyKind, Resolution, ResolveOutcome};
use crate::kv::{Flushed, Info, Inserted, Key, KeyValuePair, Removed, ValueCell};
use crate::scan::{feed, items_of, lemma_scan_ordering, ScanEvent, ScanTask, Streamzeug, StreamToken};

verus! {

/// A delivery envelope: a payload plus the stamp naming the completion
/// context it belongs to.
#[derive(Debug, PartialEq, Eq)]
pub struct Umschlag<I, S> {
    pub inhalt: I,
    pub stamp: S,
}

/// An abandonment envelope: the producer was torn down before it could
/// reply to this stamp.
#[derive(Debug, PartialEq, Eq)]
pub struct UmschlagAbbrechen<S> {
    pub stamp: S,
}

/// The continuation context of a lookup reply: a point lookup resolving a
/// completion handle, or one step of a streamed range scan.
#[derive(Debug, PartialEq, Eq)]
pub enum LookupKind {
    Single(LookupKindSingle),
    Range(LookupKindRange),
}

/// A point lookup's context: the client's completion handle and the event
/// loop's feedback handle for the scan identifier.
#[derive(Debug, PartialEq, Eq)]
pub struct LookupKindSingle {
    pub reply_tx: usize,
    pub feedback_tx: usize,
}

/// A range scan step's context: the scan task's handle awaiting the next
/// stream reply.
#[derive(Debug, PartialEq, Eq)]
pub struct LookupKindRange {
    pub kv_items_stream_tx: usize,
}

/// Everything the dispatcher can be ordered to deliver: one delivery and one
/// abandonment envelope kind per operation of the facade.
#[derive(Debug, PartialEq, Eq)]
pub enum Order {
    InfoCancel(UmschlagAbbrechen<usize>),
    Info(Umschlag<Info, usize>),
    InsertCancel(UmschlagAbbrechen<usize>),
    Insert(Umschlag<Inserted, usize>),
    LookupRangeCancel(UmschlagAbbrechen<LookupKind>),
    LookupRange(Umschlag<Streamzeug, LookupKind>),
    RemoveCancel(UmschlagAbbrechen<usize>),
    Remove(Umschlag<Removed, usize>),
    FlushCancel(UmschlagAbbrechen<usize>),
    Flushed(Umschlag<Flushed, usize>),
}

/// How the dispatcher fails. An abandonment envelope names the request the
/// engine walked out on; losing the event loop's feedback handle mid-lookup
/// is fatal as well.
#[derive(Clone, Copy, Debug, PartialEq, Eq, Structural)]
pub enum Error {
    GenServerIsLostOnRequestInfo,
    GenServerIsLostOnRequestInsert,
    GenServerIsLostOnRequestRemove,
    GenServerIsLostOnRequestFlush,
    GenServerIsLostOnRequestLookupSingle,
    GenServerIsLostOnRequestLookupRange,
}

/// Resolving a stamp in a registry of handles: the named handle takes the
/// attempt; a stamp that names no handle is rejected.
pub open spec fn resolve_slots_spec(slots: Seq<Completion>, stamp: int, a: Attempt) -> (
    Seq<Completion>,
    ResolveOutcome,
) {
    if 0 <= stamp < slots.len() {
        let stepped = slots[stamp].attempt_spec(a);
        (slots.update(stamp, stepped.0), stepped.1)
    } else {
        (slots, ResolveOutcome::Rejected)
    }
}

/// The point-lookup reading of one stream reply: an item maps to its cell,
/// end-of-stream maps to "not found".
pub open spec fn single_reply_spec(z: Streamzeug) -> Option<ValueCell> {
    match z {
        Streamzeug::NichtMehr { .. } => None,
        Streamzeug::Zeug { zeug, .. } => Some(zeug.value_cell),
    }
}

/// The dispatcher's world: the completion handles still in flight.
pub struct Welt {
    pub slots: Vec<Completion>,
}

impl Welt {
    /// An empty world: a restart begins with no handle in flight.
    pub fn new() -> (w: Welt)
        ensures
            w.slots@ == Seq::<Completion>::empty(),
    {
        Welt { slots: Vec::new() }
    }

    /// Issue a fresh completion handle of the given kind; the returned stamp
    /// names it in every envelope.
    pub fn issue(&mut self, kind: ReplyKind) -> (stamp: usize)
        ensures
            final(self).slots@ == old(self).slots@.push(
                (Completion { kind, resolution: Resolution::Pending, receiver_live: true }),
            ),
            stamp == old(self).slots@.len(),
    {
        let stamp = self.slots.len();
        self.slots.push(Completion::new(kind));
        stamp
    }

    /// Deliver a payload to the handle a stamp names.
    pub fn resolve(&mut self, stamp: usize, reply: Reply) -> (r: ResolveOutcome)
        ensures
            (final(self).slots@, r) == resolve_slots_spec(
                old(self).slots@,
                stamp as int,
                Attempt::Deliver(reply),
            ),
    {
        if stamp < self.slots.len() {
            let slot = &mut self.slots[stamp];
            slot.resolve(reply)
        } else {
            ResolveOutcome::Rejected
        }
    }

    /// Signal abandonment to the handle a stamp names.
    pub fn abandon(&mut self, stamp: usize) -> (r: ResolveOutcome)
        ensures
            (final(self).slots@, r) == resolve_slots_spec(
                old(self).slots@,
                stamp as int,
                Attempt::Abandon,
            ),
    {
        if stamp < self.slots.len() {
            let slot = &mut self.slots[stamp];
            slot.abandon()
        } else {
            ResolveOutcome::Rejected
        }
    }

    /// The waiter of a stamp drops its receiving end.
    pub fn drop_receiver(&mut self, stamp: usize)
        requires
            stamp < old(self).slots@.len(),
        ensures
            final(self).slots@ == old(self).slots@.update(
                stamp as int,
                (Completion { receiver_live: false, ..old(self).slots@[stamp as int] }),
            ),
    {
        let slot = &mut self.slots[stamp];
        slot.drop_receiver();
    }

    /// What the waiter of a stamp observes.
    pub fn resolution_of(&self, stamp: usize) -> (r: &Resolution)
        requires
            stamp < self.slots@.len(),
        ensures
            *r == self.slots@[stamp as int].resolution,
    {
        self.slots[stamp].resolution()
    }

    /// How many handles this world has issued.
    pub fn len(&self) -> (n: usize)
        ensures
            n == self.slots@.len(),
    {
        self.slots.len()
    }

    /// Tearing the world down abandons every handle still pending: the
    /// clients of a crashed facade observe abandonment, never a value.
    pub fn abandon_all(&mut self)
        ensures
            final(self).slots@.len() == old(self).slots@.len(),
            forall|i: int|
                0 <= i < old(self).slots@.len() ==> final(self).slots@[i] == old(
                    self,
                ).slots@[i].attempt_spec(Attempt::Abandon).0,
    {
        let n = self.slots.len();
        let mut i: usize = 0;
        while i < n
            invariant
                n == self.slots@.len(),
                i <= n,
                n == old(self).slots@.len(),
                forall|j: int|
                    i <= j < n ==> self.slots@[j] == old(self).slots@[j],
                forall|j: int|
                    0 <= j < i ==> self.slots@[j] == old(self).slots@[j].attempt_spec(
                        Attempt::Abandon,
                    ).0,
            decreases n - i,
        {
            let slot = &mut self.slots[i];
            slot.abandon();
            i = i + 1;
        }
    }
}

impl Default for Welt {
    /// The dispatcher's initial world is empty.
    fn default() -> (w: Welt)
        ensures
            w.slots@ == Seq::<Completion>::empty(),
    {
        Welt::new()
    }
}

/// The effect of delivering one order: which handles resolve with what, and
/// whether the dispatcher dies. An abandonment envelope resolves each
/// handle it is stamped with using the abandonment signal — the waiter
/// observes that the reply will never come — and is then fatal, naming its
/// request. Deliveries to client-facing handles are never fatal, whatever
/// the handle's state; losing the feedback handle of a point lookup is.
pub open spec fn run_befehl_spec(slots: Seq<Completion>, order: Order) -> (
    Seq<Completion>,
    Result<(), Error>,
) {
    match order {
        Order::InfoCancel(UmschlagAbbrechen { stamp }) => (
            resolve_slots_spec(slots, stamp as int, Attempt::Abandon).0,
            Err(Error::GenServerIsLostOnRequestInfo),
        ),
        Order::Info(Umschlag { inhalt, stamp }) => (
            resolve_slots_spec(slots, stamp as int, Attempt::Deliver(Reply::Info(inhalt))).0,
            Ok(()),
        ),
        Order::InsertCancel(UmschlagAbbrechen { stamp }) => (
            resolve_slots_spec(slots, stamp as int, Attempt::Abandon).0,
            Err(Error::GenServerIsLostOnRequestInsert),
        ),
        Order::Insert(Umschlag { inhalt, stamp }) => (
            resolve_slots_spec(slots, stamp as int, Attempt::Deliver(Reply::Inserted(inhalt))).0,
            Ok(()),
        ),
        Order::LookupRangeCancel(UmschlagAbbrechen { stamp: LookupKind::Single(single) }) => {
            let after_reply = resolve_slots_spec(slots, single.reply_tx as int, Attempt::Abandon).0;
            (
                resolve_slots_spec(after_reply, single.feedback_tx as int, Attempt::Abandon).0,
                Err(Error::GenServerIsLostOnRequestLookupRange),
            )
        },
        Order::LookupRangeCancel(UmschlagAbbrechen { stamp: LookupKind::Range(range) }) => (
            resolve_slots_spec(slots, range.kv_items_stream_tx as int, Attempt::Abandon).0,
            Err(Error::GenServerIsLostOnRequestLookupRange),
        ),
        Order::LookupRange(Umschlag { inhalt, stamp: LookupKind::Single(single) }) => {
            let after_reply = resolve_slots_spec(
                slots,
                single.reply_tx as int,
                Attempt::Deliver(Reply::LookupSingle(single_reply_spec(inhalt))),
            ).0;
            let fed = resolve_slots_spec(
                after_reply,
                single.feedback_tx as int,
                Attempt::Deliver(Reply::StreamFeedback(inhalt.stream_id_spec())),
            );
            if fed.1 == ResolveOutcome::Delivered {
                (fed.0, Ok(()))
            } else {
                (fed.0, Err(Error::GenServerIsLostOnRequestLookupSingle))
            }
        },
        Order::LookupRange(Umschlag { inhalt, stamp: LookupKind::Range(range) }) => (
            resolve_slots_spec(
                slots,
                range.kv_items_stream_tx as int,
                Attempt::Deliver(Reply::Streamzeug(inhalt)),
            ).0,
            Ok(()),
        ),
        Order::RemoveCancel(UmschlagAbbrechen { stamp }) => (
            resolve_slots_spec(slots, stamp as int, Attempt::Abandon).0,
            Err(Error::GenServerIsLostOnRequestRemove),
        ),
        Order::Remove(Umschlag { inhalt, stamp }) => (
            resolve_slots_spec(slots, stamp as int, Attempt::Deliver(Reply::Removed(inhalt))).0,
            Ok(()),
        ),
        Order::FlushCancel(UmschlagAbbrechen { stamp }) => (
            resolve_slots_spec(slots, stamp as int, Attempt::Abandon).0,
            Err(Error::GenServerIsLostOnRequestFlush),
        ),
        Order::Flushed(Umschlag { stamp, .. }) => (
            resolve_slots_spec(slots, stamp as int, Attempt::Deliver(Reply::Flushed)).0,
            Ok(()),
        ),
    }
}

/// Deliver one order: exactly the transition of `run_befehl_spec`.
pub fn run_befehl(welt: &mut Welt, order: Order) -> (r: Result<(), Error>)
    ensures
        (final(welt).slots@, r) == run_befehl_spec(old(welt).slots@, order),
{
    match order {
        Order::InfoCancel(UmschlagAbbrechen { stamp }) => {
            welt.abandon(stamp);
            Err(Error::GenServerIsLostOnRequestInfo)
        },
        Order::Info(Umschlag { inhalt, stamp }) => {
            welt.resolve(stamp, Reply::Info(inhalt));
            Ok(())
        },
        Order::InsertCancel(UmschlagAbbrechen { stamp }) => {
            welt.abandon(stamp);
            Err(Error::GenServerIsLostOnRequestInsert)
        },
        Order::Insert(Umschlag { inhalt, stamp }) => {
            welt.resolve(stamp, Reply::Inserted(inhalt));
            Ok(())
        },
        Order::LookupRangeCancel(UmschlagAbbrechen { stamp: LookupKind::Single(single) }) => {
            welt.abandon(single.reply_tx);
            welt.abandon(single.feedback_tx);
            Err(Error::GenServerIsLostOnRequestLookupRange)
        },
        Order::LookupRangeCancel(UmschlagAbbrechen { stamp: LookupKind::Range(range) }) => {
            welt.abandon(range.kv_items_stream_tx);
            Err(Error::GenServerIsLostOnRequestLookupRange)
        },
        Order::LookupRange(Umschlag { inhalt, stamp: LookupKind::Single(single) }) => {
            let stream_id = inhalt.stream_id();
            let found = match inhalt {
                Streamzeug::NichtMehr { .. } => None,
                Streamzeug::Zeug { zeug, .. } => Some(zeug.value_cell),
            };
            welt.resolve(single.reply_tx, Reply::LookupSingle(found));
            let fed = welt.resolve(single.feedback_tx, Reply::StreamFeedback(stream_id));
            if fed == ResolveOutcome::Delivered {
                Ok(())
            } else {
                Err(Error::GenServerIsLostOnRequestLookupSingle)
            }
        },
        Order::LookupRange(Umschlag { inhalt, stamp: LookupKind::Range(range) }) => {
            welt.resolve(range.kv_items_stream_tx, Reply::Streamzeug(inhalt));
            Ok(())
        },
        Order::RemoveCancel(UmschlagAbbrechen { stamp }) => {
            welt.abandon(stamp);
            Err(Error::GenServerIsLostOnRequestRemove)
        },
        Order::Remove(Umschlag { inhalt, stamp }) => {
            welt.resolve(stamp, Reply::Removed(inhalt));
            Ok(())
        },
        Order::FlushCancel(UmschlagAbbrechen { stamp }) => {
            welt.abandon(stamp);
            Err(Error::GenServerIsLostOnRequestFlush)
        },
        Order::Flushed(Umschlag { stamp, .. }) => {
            welt.resolve(stamp, Reply::Flushed);
            Ok(())
        },
    }
}

/// Delivering a batch of orders in order, stopping at the first fatal one.
pub open spec fn run_job_spec(slots: Seq<Completion>, orders: Seq<Order>) -> (
    Seq<Completion>,
    Result<(), Error>,
)
    decreases orders.len(),
{
    if orders.len() == 0 {
        (slots, Ok(()))
    } else {
        let stepped = run_befehl_spec(slots, orders[0]);
        if stepped.1 is Err {
            stepped
        } else {
            run_job_spec(stepped.0, orders.skip(1))
        }
    }
}

/// Deliver a batch of orders, front to back: exactly the fold of
/// `run_befehl_spec`, stopping at the first fatal envelope.
pub fn run_job(welt: &mut Welt, befehle: Vec<Order>) -> (r: Result<(), Error>)
    ensures
        (final(welt).slots@, r) == run_job_spec(old(welt).slots@, befehle@),
{
    let ghost orig = befehle@;
    let mut rest = befehle;
    let mut failure: Option<Error> = None;
    while rest.len() != 0 && failure.is_none()
        invariant
            failure is None ==> run_job_spec(old(welt).slots@, orig) == run_job_spec(
                welt.slots@,
                rest@,
            ),
            failure matches Some(error) ==> run_job_spec(old(welt).slots@, orig) == (
                welt.slots@,
                Err::<(), Error>(error),
            ),
        decreases rest@.len(),
    {
        let ghost rest_before = rest@;
        let order = rest.remove(0);
        proof {
            assert(rest_before.remove(0) =~= rest_before.skip(1));
        }
        let stepped = run_befehl(welt, order);
        if let Err(error) = stepped {
            failure = Some(error);
        }
    }
    match failure {
        None => Ok(()),
        Some(error) => Err(error),
    }
}

/// A handle a stamp names that can still take a resolution: it exists, is
/// pending, and its waiter still listens.
pub open spec fn stamp_pending_live(slots: Seq<Completion>, stamp: usize) -> bool {
    &&& (stamp as int) < slots.len()
    &&& slots[stamp as int].resolution is Pending
    &&& slots[stamp as int].receiver_live
}

/// Abandonment reaches the waiter: an abandonment envelope whose stamps
/// name pending handles with live waiters resolves every one of them with
/// the abandonment signal — so together with the at-most-one-resolution law
/// each waiter observes exactly one of value or abandonment — and is then
/// fatal to the dispatcher.
pub proof fn lemma_abandonment_reaches_the_handle(slots: Seq<Completion>, order: Order)
    requires
        match order {
            Order::InfoCancel(UmschlagAbbrechen { stamp }) => stamp_pending_live(slots, stamp),
            Order::InsertCancel(UmschlagAbbrechen { stamp }) => stamp_pending_live(slots, stamp),
            Order::LookupRangeCancel(UmschlagAbbrechen { stamp: LookupKind::Single(single) }) => {
                &&& stamp_pending_live(slots, single.reply_tx)
                &&& stamp_pending_live(slots, single.feedback_tx)
            },
            Order::LookupRangeCancel(UmschlagAbbrechen { stamp: LookupKind::Range(range) }) => {
                stamp_pending_live(slots, range.kv_items_stream_tx)
            },
            Order::RemoveCancel(UmschlagAbbrechen { stamp }) => stamp_pending_live(slots, stamp),
            Order::FlushCancel(UmschlagAbbrechen { stamp }) => stamp_pending_live(slots, stamp),
            _ => false,
        },
    ensures
        run_befehl_spec(slots, order).1 is Err,
        ({
            let abandoned = run_befehl_spec(slots, order).0;
            match order {
                Order::InfoCancel(UmschlagAbbrechen { stamp }) => abandoned[stamp as int].resolution
                    == Resolution::Abandoned,
                Order::InsertCancel(UmschlagAbbrechen { stamp }) => abandoned[
                    stamp as int
                ].resolution == Resolution::Abandoned,
                Order::LookupRangeCancel(UmschlagAbbrechen { stamp: LookupKind::Single(single) }) => {
                    &&& abandoned[single.reply_tx as int].resolution == Resolution::Abandoned
                    &&& abandoned[single.feedback_tx as int].resolution == Resolution::Abandoned
                },
                Order::LookupRangeCancel(UmschlagAbbrechen { stamp: LookupKind::Range(range) }) => {
                    abandoned[range.kv_items_stream_tx as int].resolution == Resolution::Abandoned
                },
                Order::RemoveCancel(UmschlagAbbrechen { stamp }) => abandoned[
                    stamp as int
                ].resolution == Resolution::Abandoned,
                Order::FlushCancel(UmschlagAbbrechen { stamp }) => abandoned[
                    stamp as int
                ].resolution == Resolution::Abandoned,
                _ => true,
            }
        }),
{
}

/// The stream reply a scan opens with: its first item, or straight
/// end-of-stream when the engine has nothing in range.
pub open spec fn first_streamzeug(
    replies: Seq<(KeyValuePair, StreamToken)>,
    stream_id: u64,
) -> Streamzeug {
    if replies.len() == 0 {
        Streamzeug::NichtMehr { stream_id }
    } else {
        Streamzeug::Zeug { zeug: replies[0].0, mehr: replies[0].1 }
    }
}

/// Point-lookup degeneracy: a point lookup is a scan over the single-key
/// range. For an engine that yields at most one item, all of it under the
/// looked-up key, the dispatcher's point-lookup reply is `Some` exactly when
/// the same replies, run through the scan machine, deliver exactly one item
/// under that key — and then the reply carries that item's cell; it is
/// `None` exactly when the scan delivers nothing before end-of-stream.
pub proof fn lemma_point_lookup_degeneracy(
    t: ScanTask,
    replies: Seq<(KeyValuePair, StreamToken)>,
    key: Key,
    stream_id: u64,
)
    requires
        t.state is AwaitingReply,
        t.delivered@.len() == 0,
        replies.len() <= 1,
        forall|i: int| 0 <= i < replies.len() ==> #[trigger] replies[i].0.key == key,
    ensures
        ({
            let found = single_reply_spec(first_streamzeug(replies, stream_id));
            let d = feed(t, replies).step(ScanEvent::EngineEnd).0.delivered@;
            &&& (found is Some <==> d.len() == 1 && d[0].key == key)
            &&& (found is None <==> d.len() == 0)
            &&& (d.len() == 1 ==> found == Some(d[0].value_cell))
        }),
{
    lemma_scan_ordering(t, replies);
    let d = feed(t, replies).step(ScanEvent::EngineEnd).0.delivered@;
    assert(d =~= items_of(replies));
    if replies.len() == 1 {
        assert(d[0] == replies[0].0);
    }
}

} // verus!
