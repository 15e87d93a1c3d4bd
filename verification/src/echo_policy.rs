//! The engine-side binding policy: which handle kind each reply envelope
//! may be stamped with.
//!
//! In the running system the engine can only construct an envelope around
//! the stamp it was handed at submission time, so a delivery always reaches
//! a handle of the matching kind. The model makes that guarantee a proved
//! lemma: a delivery envelope whose stamps are bound as this policy demands
//! — the right kinds, still pending, waiters still listening — is never
//! rejected, resolves exactly the handles it names with exactly its
//! payload, and is never fatal.

use vstd::prelude::*;

use crate::completion::{Completion, Reply, ReplyKind, Resolution};
use crate::ftd_sklave::{run_befehl_spec, single_reply_spec, LookupKind, Order, Umschlag};

verus! {

/// Binds each reply envelope to the handle kinds its stamps must name.
pub struct EchoPolicy;

impl EchoPolicy {
    /// A stamp is bound when it names a handle of the given kind that is
    /// still pending with a live waiter.
    pub open spec fn stamp_bound(slots: Seq<Completion>, stamp: usize, kind: ReplyKind) -> bool {
        &&& (stamp as int) < slots.len()
        &&& slots[stamp as int].kind == kind
        &&& slots[stamp as int].resolution is Pending
        &&& slots[stamp as int].receiver_live
    }

    /// A delivery envelope is well stamped when every stamp it carries is
    /// bound to the handle kind this policy assigns to its operation. The
    /// two stamps of a point lookup are distinct handles. Abandonment
    /// envelopes carry no delivery and are never well stamped.
    pub open spec fn well_stamped(slots: Seq<Completion>, order: Order) -> bool {
        match order {
            Order::Info(Umschlag { stamp, .. }) => Self::stamp_bound(slots, stamp, ReplyKind::Info),
            Order::Insert(Umschlag { stamp, .. }) => Self::stamp_bound(
                slots,
                stamp,
                ReplyKind::Insert,
            ),
            Order::LookupRange(Umschlag { stamp: LookupKind::Single(single), .. }) => {
                &&& Self::stamp_bound(slots, single.reply_tx, ReplyKind::LookupSingle)
                &&& Self::stamp_bound(slots, single.feedback_tx, ReplyKind::StreamFeedback)
                &&& single.reply_tx != single.feedback_tx
            },
            Order::LookupRange(Umschlag { stamp: LookupKind::Range(range), .. }) => {
                Self::stamp_bound(slots, range.kv_items_stream_tx, ReplyKind::Streamzeug)
            },
            Order::Remove(Umschlag { stamp, .. }) => Self::stamp_bound(
                slots,
                stamp,
                ReplyKind::Remove,
            ),
            Order::Flushed(Umschlag { stamp, .. }) => Self::stamp_bound(
                slots,
                stamp,
                ReplyKind::Flush,
            ),
            _ => false,
        }
    }
}

/// A well-stamped delivery is sound: the dispatcher never dies on it, and
/// every handle the envelope names ends up holding exactly the envelope's
/// payload, under the kind this policy binds it to.
pub proof fn lemma_well_stamped_delivery(slots: Seq<Completion>, order: Order)
    requires
        EchoPolicy::well_stamped(slots, order),
    ensures
        run_befehl_spec(slots, order).1 is Ok,
        ({
            let delivered = run_befehl_spec(slots, order).0;
            match order {
                Order::Info(Umschlag { inhalt, stamp }) => delivered[stamp as int].resolution
                    == Resolution::Value(Reply::Info(inhalt)),
                Order::Insert(Umschlag { inhalt, stamp }) => delivered[stamp as int].resolution
                    == Resolution::Value(Reply::Inserted(inhalt)),
                Order::LookupRange(Umschlag { inhalt, stamp: LookupKind::Single(single) }) => {
                    &&& delivered[single.reply_tx as int].resolution == Resolution::Value(
                        Reply::LookupSingle(single_reply_spec(inhalt)),
                    )
                    &&& delivered[single.feedback_tx as int].resolution == Resolution::Value(
                        Reply::StreamFeedback(inhalt.stream_id_spec()),
                    )
                },
                Order::LookupRange(Umschlag { inhalt, stamp: LookupKind::Range(range) }) => {
                    delivered[range.kv_items_stream_tx as int].resolution == Resolution::Value(
                        Reply::Streamzeug(inhalt),
                    )
                },
                Order::Remove(Umschlag { inhalt, stamp }) => delivered[stamp as int].resolution
                    == Resolution::Value(Reply::Removed(inhalt)),
                Order::Flushed(Umschlag { stamp, .. }) => delivered[stamp as int].resolution
                    == Resolution::Value(Reply::Flushed),
                _ => true,
            }
        }),
{
}

} // verus!
