//! The streaming range-scan continuation engine.
//!
//! One `ScanTask` owns one range scan from acceptance to end-of-stream or
//! client disconnect. The engine yields one reply per "resume" call: an item
//! together with a fresh continuation token, or an end-of-stream marker. The
//! task forwards each item into a rendezvous channel towards the client and
//! issues the next resume only once the client has taken the item, so at most
//! one item is ever in flight and no two resume calls are ever outstanding.
//!
//! The task is a state machine driven by events; every transition is the
//! spec-level `step` function, which the proofs about ordering, backpressure
//! and cancellation are stated over.

use vstd::prelude::*;

use crate::kv::{bytes_lt, KeyValuePair};

verus! {

/// A continuation token: consume it with a "resume" call to obtain the next
/// scan reply. At most one token per scan is live at any time.
#[derive(Clone, Copy, Debug, PartialEq, Eq, Structural)]
pub struct StreamToken {
    pub stream_id: u64,
}

/// One reply of the engine to a "resume" call: the next item plus the token
/// to continue with, or the end of the stream.
#[derive(Clone, Debug, PartialEq, Eq)]
pub enum Streamzeug {
    NichtMehr { stream_id: u64 },
    Zeug { zeug: KeyValuePair, mehr: StreamToken },
}

impl Streamzeug {
    /// The scan this reply belongs to.
    pub open spec fn stream_id_spec(self) -> u64 {
        match self {
            Streamzeug::NichtMehr { stream_id } => stream_id,
            Streamzeug::Zeug { mehr, .. } => mehr.stream_id,
        }
    }

    /// Executable accessor for the scan identifier.
    pub fn stream_id(&self) -> (id: u64)
        ensures
            id == self.stream_id_spec(),
    {
        match self {
            Streamzeug::NichtMehr { stream_id } => *stream_id,
            Streamzeug::Zeug { mehr, .. } => mehr.stream_id,
        }
    }
}

/// Where a scan task stands.
#[derive(Clone, Debug, PartialEq, Eq)]
pub enum ScanState {
    /// The stream handle is being offered to the client; no data has been
    /// fetched yet.
    Handing,
    /// Exactly one resume call is outstanding at the engine.
    AwaitingReply,
    /// An item is offered to the client's rendezvous channel; its
    /// continuation token is held, unconsumed, until the client takes it.
    Forwarding { item: KeyValuePair, token: StreamToken },
    /// The scan ended: end-of-stream reached or the client went away.
    Finished,
    /// The engine abandoned the scan mid-flight: fatal.
    Failed,
}

/// What the world observes about a scan task.
#[derive(Clone, Debug, PartialEq, Eq)]
pub enum ScanEvent {
    /// The client accepted the stream handle, or had already dropped it.
    HandleHanded { accepted: bool },
    /// The engine replied with an item and its continuation token.
    EngineItem { item: KeyValuePair, token: StreamToken },
    /// The engine replied with end-of-stream.
    EngineEnd,
    /// The engine's mailbox terminated before replying.
    EngineAbandoned,
    /// The client took the offered item, or had dropped its channel end.
    ItemTaken { accepted: bool },
}

/// What the scan task asks the surrounding shell to do next.
#[derive(Clone, Debug, PartialEq, Eq)]
pub enum ScanAction {
    /// Submit the scan's first resume call (no token yet) to the engine.
    IssueFirstResume,
    /// Offer the item held in the task's forwarding state to the client's
    /// rendezvous channel.
    ForwardItem,
    /// Consume this continuation token with the next resume call.
    IssueResume(StreamToken),
    /// Offer the end-of-stream marker to the client, best effort.
    ForwardEnd,
    /// Tear down silently: the scan is over and nothing went wrong.
    Stop,
    /// Tear down with a fatal error: the engine is gone.
    Fail,
}

/// One range scan's lifecycle.
pub struct ScanTask {
    pub state: ScanState,
    /// How many resume calls have been issued, the first one included.
    pub resumes: Ghost<nat>,
    /// The items the client has taken, in order.
    pub delivered: Ghost<Seq<KeyValuePair>>,
}

impl ScanTask {
    /// Which events can reach the task in which state.
    pub open spec fn enabled(self, e: ScanEvent) -> bool {
        match self.state {
            ScanState::Handing => e is HandleHanded,
            ScanState::AwaitingReply => e is EngineItem || e is EngineEnd || e is EngineAbandoned,
            ScanState::Forwarding { .. } => e is ItemTaken,
            ScanState::Finished => false,
            ScanState::Failed => false,
        }
    }

    /// The transition function: every executable event handler performs
    /// exactly this step.
    pub open spec fn step(self, e: ScanEvent) -> (ScanTask, ScanAction) {
        match (self.state, e) {
            (ScanState::Handing, ScanEvent::HandleHanded { accepted }) => {
                if accepted {
                    (
                        ScanTask {
                            state: ScanState::AwaitingReply,
                            resumes: Ghost(self.resumes@ + 1),
                            ..self
                        },
                        ScanAction::IssueFirstResume,
                    )
                } else {
                    (ScanTask { state: ScanState::Finished, ..self }, ScanAction::Stop)
                }
            },
            (ScanState::AwaitingReply, ScanEvent::EngineItem { item, token }) => (
                ScanTask { state: ScanState::Forwarding { item, token }, ..self },
                ScanAction::ForwardItem,
            ),
            (ScanState::AwaitingReply, ScanEvent::EngineEnd) => (
                ScanTask { state: ScanState::Finished, ..self },
                ScanAction::ForwardEnd,
            ),
            (ScanState::AwaitingReply, ScanEvent::EngineAbandoned) => (
                ScanTask { state: ScanState::Failed, ..self },
                ScanAction::Fail,
            ),
            (ScanState::Forwarding { item, token }, ScanEvent::ItemTaken { accepted }) => {
                if accepted {
                    (
                        ScanTask {
                            state: ScanState::AwaitingReply,
                            resumes: Ghost(self.resumes@ + 1),
                            delivered: Ghost(self.delivered@.push(item)),
                        },
                        ScanAction::IssueResume(token),
                    )
                } else {
                    (ScanTask { state: ScanState::Finished, ..self }, ScanAction::Stop)
                }
            },
            _ => (self, ScanAction::Stop),
        }
    }

    /// A fresh scan task: the stream handle is handed to the client before
    /// any data is fetched, so the task starts out offering it.
    pub fn new() -> (t: ScanTask)
        ensures
            t.state == ScanState::Handing,
            t.resumes@ == 0,
            t.delivered@ == Seq::<KeyValuePair>::empty(),
    {
        ScanTask {
            state: ScanState::Handing,
            resumes: Ghost(0),
            delivered: Ghost(Seq::empty()),
        }
    }

    /// The client accepted the stream handle — or had already dropped it,
    /// in which case the scan dies silently before any engine call.
    pub fn on_handle_handed(&mut self, accepted: bool) -> (a: ScanAction)
        requires
            old(self).enabled(ScanEvent::HandleHanded { accepted }),
        ensures
            (*final(self), a) == old(self).step(ScanEvent::HandleHanded { accepted }),
    {
        if accepted {
            self.state = ScanState::AwaitingReply;
            let resumed: Ghost<nat> = Ghost(self.resumes@ + 1);
            self.resumes = resumed;
            ScanAction::IssueFirstResume
        } else {
            self.state = ScanState::Finished;
            ScanAction::Stop
        }
    }

    /// The engine replied with an item: offer it to the client and hold the
    /// continuation token until the client takes the item.
    pub fn on_engine_item(&mut self, item: KeyValuePair, token: StreamToken) -> (a: ScanAction)
        requires
            old(self).enabled(ScanEvent::EngineItem { item, token }),
        ensures
            (*final(self), a) == old(self).step(ScanEvent::EngineItem { item, token }),
    {
        self.state = ScanState::Forwarding { item, token };
        ScanAction::ForwardItem
    }

    /// The engine replied with end-of-stream: tell the client, best effort,
    /// and terminate normally.
    pub fn on_engine_end(&mut self) -> (a: ScanAction)
        requires
            old(self).enabled(ScanEvent::EngineEnd),
        ensures
            (*final(self), a) == old(self).step(ScanEvent::EngineEnd),
    {
        self.state = ScanState::Finished;
        ScanAction::ForwardEnd
    }

    /// The engine's mailbox terminated before replying: fatal.
    pub fn on_engine_abandoned(&mut self) -> (a: ScanAction)
        requires
            old(self).enabled(ScanEvent::EngineAbandoned),
        ensures
            (*final(self), a) == old(self).step(ScanEvent::EngineAbandoned),
    {
        self.state = ScanState::Failed;
        ScanAction::Fail
    }

    /// The client took the offered item — then and only then the held token
    /// is consumed by the next resume — or dropped its channel end, which
    /// tears the scan down silently.
    pub fn on_item_taken(&mut self, accepted: bool) -> (a: ScanAction)
        requires
            old(self).enabled(ScanEvent::ItemTaken { accepted }),
        ensures
            (*final(self), a) == old(self).step(ScanEvent::ItemTaken { accepted }),
    {
        let (tok, offered): (StreamToken, Ghost<KeyValuePair>) = match &self.state {
            ScanState::Forwarding { item, token } => (*token, Ghost(*item)),
            _ => {
                proof {
                    assert(false);
                }
                (StreamToken { stream_id: 0 }, Ghost(vstd::pervasive::arbitrary()))
            },
        };
        if accepted {
            let grown: Ghost<Seq<KeyValuePair>> = Ghost(self.delivered@.push(offered@));
            self.delivered = grown;
            self.state = ScanState::AwaitingReply;
            let resumed: Ghost<nat> = Ghost(self.resumes@ + 1);
            self.resumes = resumed;
            ScanAction::IssueResume(tok)
        } else {
            self.state = ScanState::Finished;
            ScanAction::Stop
        }
    }

    /// The item currently offered to the client: readable exactly while the
    /// task is forwarding one.
    pub fn offered_item(&self) -> (r: Option<&KeyValuePair>)
        ensures
            match self.state {
                ScanState::Forwarding { item, .. } => r matches Some(i) && *i == item,
                _ => r is None,
            },
    {
        match &self.state {
            ScanState::Forwarding { item, .. } => Some(item),
            _ => None,
        }
    }
}

/// Feeding a scan: for each engine reply in order, the engine yields the item
/// and the client takes it.
pub open spec fn feed(t: ScanTask, replies: Seq<(KeyValuePair, StreamToken)>) -> ScanTask
    decreases replies.len(),
{
    if replies.len() == 0 {
        t
    } else {
        let offered = t.step(
            ScanEvent::EngineItem { item: replies[0].0, token: replies[0].1 },
        ).0;
        let taken = offered.step(ScanEvent::ItemTaken { accepted: true }).0;
        feed(taken, replies.skip(1))
    }
}

/// The items of a sequence of engine replies, in engine order.
pub open spec fn items_of(replies: Seq<(KeyValuePair, StreamToken)>) -> Seq<KeyValuePair> {
    replies.map_values(|p: (KeyValuePair, StreamToken)| p.0)
}

/// Scan ordering: a client that reads a scan to the end observes exactly the
/// items the engine produced, in the engine's order, and the end-of-stream
/// marker after them. No item is reordered, duplicated or dropped.
pub proof fn lemma_scan_ordering(t: ScanTask, replies: Seq<(KeyValuePair, StreamToken)>)
    requires
        t.state is AwaitingReply,
    ensures
        feed(t, replies).state is AwaitingReply,
        feed(t, replies).delivered@ == t.delivered@ + items_of(replies),
        feed(t, replies).step(ScanEvent::EngineEnd).0.state is Finished,
        feed(t, replies).step(ScanEvent::EngineEnd).1 == ScanAction::ForwardEnd,
        feed(t, replies).step(ScanEvent::EngineEnd).0.delivered@ == t.delivered@ + items_of(replies),
    decreases replies.len(),
{
    if replies.len() == 0 {
        assert(t.delivered@ + items_of(replies) =~= t.delivered@);
    } else {
        let offered = t.step(
            ScanEvent::EngineItem { item: replies[0].0, token: replies[0].1 },
        ).0;
        let taken = offered.step(ScanEvent::ItemTaken { accepted: true }).0;
        lemma_scan_ordering(taken, replies.skip(1));
        assert(taken.delivered@ == t.delivered@.push(replies[0].0));
        assert(items_of(replies.skip(1)) =~= items_of(replies).skip(1));
        assert(t.delivered@.push(replies[0].0) + items_of(replies).skip(1) =~= t.delivered@
            + items_of(replies));
    }
}

/// Backpressure: while an item is in flight to the client, the only party
/// that can move the scan forward is the client itself, and no transition
/// other than the client taking the item (or the initial acceptance of the
/// stream handle) ever issues a resume call. A client that never reads
/// therefore leaves the scan suspended at its first forwarding attempt with
/// no further continuation token consumed.
pub proof fn lemma_backpressure(t: ScanTask)
    requires
        t.state is Forwarding,
    ensures
        forall|e: ScanEvent| #[trigger] t.enabled(e) ==> e is ItemTaken,
        forall|e: ScanEvent|
            !(e == ScanEvent::ItemTaken { accepted: true }) ==> #[trigger] t.step(
                e,
            ).0.resumes@ == t.resumes@,
{
}

/// Resume calls are issued only when the client accepts: in any state, a
/// step increases the resume count only on the client's acceptance of the
/// stream handle or of an offered item, and then by exactly one.
pub proof fn lemma_resume_needs_acceptance(t: ScanTask, e: ScanEvent)
    ensures
        t.step(e).0.resumes@ >= t.resumes@,
        t.step(e).0.resumes@ != t.resumes@ ==> (e == ScanEvent::HandleHanded { accepted: true }
            || e == ScanEvent::ItemTaken { accepted: true }) && t.step(e).0.resumes@ == t.resumes@
            + 1,
{
}

/// Cancellation silence: when the client drops its channel end, the scan
/// terminates silently — the action is a plain stop, not a failure — with no
/// further resume call, and no event can ever move the task again.
pub proof fn lemma_cancellation_silence(t: ScanTask)
    requires
        t.state is Forwarding,
    ensures
        t.step(ScanEvent::ItemTaken { accepted: false }).0.state is Finished,
        t.step(ScanEvent::ItemTaken { accepted: false }).1 == ScanAction::Stop,
        t.step(ScanEvent::ItemTaken { accepted: false }).0.resumes@ == t.resumes@,
        t.step(ScanEvent::ItemTaken { accepted: false }).0.delivered@ == t.delivered@,
        forall|e: ScanEvent|
            !(#[trigger] t.step(ScanEvent::ItemTaken { accepted: false }).0.enabled(e)),
{
}

/// Scan ordering over sorted keys: when the engine yields keys in strictly
/// ascending order — as it does for a range scan over keys present in the
/// backing data — the client observes exactly those items, in exactly that
/// ascending order, terminated by end-of-stream.
pub proof fn lemma_scan_preserves_key_order(t: ScanTask, replies: Seq<(KeyValuePair, StreamToken)>)
    requires
        t.state is AwaitingReply,
        t.delivered@.len() == 0,
        forall|i: int, j: int|
            0 <= i < j < replies.len() ==> bytes_lt(
                #[trigger] replies[i].0.key.key_bytes@,
                #[trigger] replies[j].0.key.key_bytes@,
            ),
    ensures
        ({
            let d = feed(t, replies).step(ScanEvent::EngineEnd).0.delivered@;
            &&& d.len() == replies.len()
            &&& forall|i: int| 0 <= i < d.len() ==> #[trigger] d[i] == replies[i].0
            &&& forall|i: int, j: int|
                0 <= i < j < d.len() ==> bytes_lt(
                    #[trigger] d[i].key.key_bytes@,
                    #[trigger] d[j].key.key_bytes@,
                )
        }),
{
    lemma_scan_ordering(t, replies);
    let d = feed(t, replies).step(ScanEvent::EngineEnd).0.delivered@;
    assert(d =~= items_of(replies));
}

/// A continuation token is consumed exactly once: a resume call carrying a
/// token is emitted only by the step in which the client takes the item the
/// token arrived with, the machine holds exactly that token at that moment,
/// and afterwards it holds none — so no two resume calls can ever carry the
/// same token.
pub proof fn lemma_token_single_use(t: ScanTask, e: ScanEvent, token: StreamToken)
    ensures
        t.step(e).1 == ScanAction::IssueResume(token) ==> {
            &&& t.state matches ScanState::Forwarding { token: held, .. } && held == token
            &&& e == ScanEvent::ItemTaken { accepted: true }
            &&& t.step(e).0.state is AwaitingReply
        },
{
}

/// A terminated scan never acts again: no event is enabled in a terminal
/// state, whether the scan finished or failed.
pub proof fn lemma_terminal_is_silent(t: ScanTask)
    requires
        t.state is Finished || t.state is Failed,
    ensures
        forall|e: ScanEvent| !(#[trigger] t.enabled(e)),
{
}

} // verus!
