//! Single-fulfillment completion handles: the correlation primitive between
//! a mailbox-based worker and an asynchronous waiter.
//!
//! A completion handle is a single-use channel. Exactly one of a value or an
//! abandonment signal is ever accepted by it; any later resolution attempt is
//! detected and rejected without changing what the waiter observes. The
//! handle also records whether the waiter is still listening, so a producer
//! learns about a client that went away at its next delivery attempt.

use vstd::prelude::*;

use crate::kv::{Info, Inserted, Removed, ValueCell};
use crate::scan::Streamzeug;
use crate::LookupRange;

verus! {

/// The payload kinds a completion handle can be resolved with, one per
/// operation of the facade.
#[derive(Clone, Copy, Debug, PartialEq, Eq, Structural)]
pub enum ReplyKind {
    Info,
    Insert,
    Remove,
    Flush,
    LookupSingle,
    LookupRange,
    StreamFeedback,
    Streamzeug,
}

/// A reply payload, tagged with the operation it answers.
#[derive(Clone, Debug, PartialEq, Eq)]
pub enum Reply {
    Info(Info),
    Inserted(Inserted),
    Removed(Removed),
    Flushed,
    /// Outcome of a point lookup: the cell found under the key, if any.
    LookupSingle(Option<ValueCell>),
    /// The client-visible handle of a freshly accepted range scan.
    LookupRange(LookupRange),
    /// A scan's stream identifier, acknowledged back to the event loop.
    StreamFeedback(u64),
    /// One step of a range scan: an item with a continuation, or its end.
    Streamzeug(Streamzeug),
}

impl Reply {
    /// The kind tag of a payload.
    pub open spec fn kind_spec(self) -> ReplyKind {
        match self {
            Reply::Info(_) => ReplyKind::Info,
            Reply::Inserted(_) => ReplyKind::Insert,
            Reply::Removed(_) => ReplyKind::Remove,
            Reply::Flushed => ReplyKind::Flush,
            Reply::LookupSingle(_) => ReplyKind::LookupSingle,
            Reply::LookupRange(_) => ReplyKind::LookupRange,
            Reply::StreamFeedback(_) => ReplyKind::StreamFeedback,
            Reply::Streamzeug(_) => ReplyKind::Streamzeug,
        }
    }

    /// Executable kind tag.
    pub fn kind(&self) -> (k: ReplyKind)
        ensures
            k == self.kind_spec(),
    {
        match self {
            Reply::Info(_) => ReplyKind::Info,
            Reply::Inserted(_) => ReplyKind::Insert,
            Reply::Removed(_) => ReplyKind::Remove,
            Reply::Flushed => ReplyKind::Flush,
            Reply::LookupSingle(_) => ReplyKind::LookupSingle,
            Reply::LookupRange(_) => ReplyKind::LookupRange,
            Reply::StreamFeedback(_) => ReplyKind::StreamFeedback,
            Reply::Streamzeug(_) => ReplyKind::Streamzeug,
        }
    }
}

/// What a completion handle currently holds.
#[derive(Clone, Debug, PartialEq, Eq)]
pub enum Resolution {
    /// No resolution has been accepted yet.
    Pending,
    /// A value was delivered.
    Value(Reply),
    /// The producer went away before replying.
    Abandoned,
}

/// How a resolution attempt ended.
#[derive(Clone, Copy, Debug, PartialEq, Eq, Structural)]
pub enum ResolveOutcome {
    /// The handle accepted the resolution.
    Delivered,
    /// The waiter had already dropped its end; nothing was delivered.
    Disconnected,
    /// The handle was already resolved, or the payload kind did not match
    /// the handle's kind: the attempt is rejected and the handle unchanged.
    Rejected,
}

/// A single-use completion handle.
#[derive(Clone, Debug, PartialEq, Eq)]
pub struct Completion {
    /// The payload kind this handle was issued for.
    pub kind: ReplyKind,
    /// The resolution accepted so far, if any.
    pub resolution: Resolution,
    /// Whether the waiter still holds its receiving end.
    pub receiver_live: bool,
}

/// A resolution attempt: deliver a value, or signal abandonment.
#[derive(Clone, Debug, PartialEq, Eq)]
pub enum Attempt {
    Deliver(Reply),
    Abandon,
}

impl Completion {
    /// A handle accepts an attempt only while pending; a delivery must also
    /// match the handle's kind and still have a live waiter.
    pub open spec fn attempt_spec(self, a: Attempt) -> (Completion, ResolveOutcome) {
        match a {
            Attempt::Deliver(reply) => {
                if !(self.resolution is Pending) || reply.kind_spec() != self.kind {
                    (self, ResolveOutcome::Rejected)
                } else if !self.receiver_live {
                    (self, ResolveOutcome::Disconnected)
                } else {
                    (
                        Completion { resolution: Resolution::Value(reply), ..self },
                        ResolveOutcome::Delivered,
                    )
                }
            },
            Attempt::Abandon => {
                if !(self.resolution is Pending) {
                    (self, ResolveOutcome::Rejected)
                } else if !self.receiver_live {
                    (self, ResolveOutcome::Disconnected)
                } else {
                    (
                        Completion { resolution: Resolution::Abandoned, ..self },
                        ResolveOutcome::Delivered,
                    )
                }
            },
        }
    }

    /// A fresh, pending handle for the given payload kind.
    pub fn new(kind: ReplyKind) -> (c: Completion)
        ensures
            c == (Completion { kind, resolution: Resolution::Pending, receiver_live: true }),
    {
        Completion { kind, resolution: Resolution::Pending, receiver_live: true }
    }

    /// Deliver a value to the waiter. Exactly the transition of
    /// `attempt_spec` with `Attempt::Deliver`.
    pub fn resolve(&mut self, reply: Reply) -> (r: ResolveOutcome)
        ensures
            (*final(self), r) == old(self).attempt_spec(Attempt::Deliver(reply)),
    {
        let pending = matches!(self.resolution, Resolution::Pending);
        if !pending {
            return ResolveOutcome::Rejected;
        }
        let k = reply.kind();
        if k != self.kind {
            return ResolveOutcome::Rejected;
        }
        if !self.receiver_live {
            return ResolveOutcome::Disconnected;
        }
        self.resolution = Resolution::Value(reply);
        ResolveOutcome::Delivered
    }

    /// Signal that the producer terminated before replying. Exactly the
    /// transition of `attempt_spec` with `Attempt::Abandon`.
    pub fn abandon(&mut self) -> (r: ResolveOutcome)
        ensures
            (*final(self), r) == old(self).attempt_spec(Attempt::Abandon),
    {
        let pending = matches!(self.resolution, Resolution::Pending);
        if !pending {
            return ResolveOutcome::Rejected;
        }
        if !self.receiver_live {
            return ResolveOutcome::Disconnected;
        }
        self.resolution = Resolution::Abandoned;
        ResolveOutcome::Delivered
    }

    /// The waiter drops its receiving end: the sole cancellation signal,
    /// detected lazily by the next resolution attempt.
    pub fn drop_receiver(&mut self)
        ensures
            *final(self) == (Completion { receiver_live: false, ..*old(self) }),
    {
        self.receiver_live = false;
    }

    /// What the waiter observes on its end: pending means it suspends,
    /// anything else is the single resolution this handle ever accepted.
    pub fn resolution(&self) -> (r: &Resolution)
        ensures
            *r == self.resolution,
    {
        &self.resolution
    }

    /// Whether a resolution has been accepted.
    pub fn is_resolved(&self) -> (r: bool)
        ensures
            r == !(self.resolution is Pending),
    {
        !matches!(self.resolution, Resolution::Pending)
    }
}

/// At-most-one resolution: once a handle has accepted a resolution, every
/// later attempt — delivery or abandonment — is rejected and leaves the
/// handle exactly as it was, so the waiter observes exactly the first
/// accepted resolution and never a second one.
pub proof fn lemma_at_most_one_resolution(c: Completion, first: Attempt, later: Attempt)
    requires
        c.attempt_spec(first).1 == ResolveOutcome::Delivered,
    ensures
        c.attempt_spec(first).0.attempt_spec(later).1 == ResolveOutcome::Rejected,
        c.attempt_spec(first).0.attempt_spec(later).0 == c.attempt_spec(first).0,
{
}

/// A pending handle never resolves behind the waiter's back: only a
/// delivered attempt changes the resolution, and a handle whose waiter is
/// gone stays pending forever.
pub proof fn lemma_disconnected_stays_pending(c: Completion, a: Attempt)
    requires
        c.resolution is Pending,
        !c.receiver_live,
    ensures
        c.attempt_spec(a).0 == c,
        c.attempt_spec(a).1 != ResolveOutcome::Delivered,
{
}

} // verus!
