//! The event loop's decisions, and the supervision policy around it.
//!
//! The loop owns the inbound request channel and a dynamic set of background
//! scan tasks. On each iteration it waits for whichever is ready first — the
//! next request or the completion of any tracked task — and `busyloop_step`
//! is what it decides then: which engine submission to make, which scan task
//! to spawn, whether to go on, stop cleanly, or die. A point lookup is
//! submitted as the degenerate scan over its single key. Every engine
//! submission failure is fatal; a task failure is fatal; the loop ends
//! cleanly when the request channel is exhausted, indifferent to whatever
//! scan tasks still run.

use vstd::prelude::*;

use crate::completion::{Completion, ReplyKind, Resolution};
use crate::ftd_sklave::Welt;
use crate::kv::{Key, Value};
use crate::proto::{
    KeyBound, Request, RequestFlush, RequestInfo, RequestInsert, RequestLookupKind,
    RequestLookupKindRange, RequestLookupKindSingle, RequestRemove,
};
use crate::scan::{ScanState, ScanTask};
use crate::wheels;
use crate::EngineError;

verus! {

/// How the facade dies. Setup failures come first; each submission kind has
/// its own failure; an engine that walks away from a lookup is fatal too.
#[derive(Clone, Copy, Debug, PartialEq, Eq, Structural)]
pub enum Error {
    Wheels(wheels::Error),
    BlockwheelKvVersklaven(EngineError),
    FtdSendegeraetStarten(EngineError),
    FtdVersklaven(EngineError),
    RequestInfoBefehl(EngineError),
    RequestInsertBefehl(EngineError),
    RequestLookupSingleBefehl(EngineError),
    RequestLookupRangeBefehl(EngineError),
    RequestRemoveBefehl(EngineError),
    RequestFlushBefehl(EngineError),
    LookupRangeNext(EngineError),
    BlockwheelKvMeisterHasGoneDuringLookupSingle,
    BlockwheelKvMeisterHasGoneDuringLookupRange,
}

/// What the event loop's wait can come back with: the next inbound request
/// (`None` when the channel is exhausted), or the result of one tracked
/// background task.
#[derive(Debug, PartialEq, Eq)]
pub enum Event {
    Request(Option<Request>),
    Task(Result<(), Error>),
}

/// What the loop asks the shell to do for one request.
#[derive(Debug, PartialEq, Eq)]
pub enum Action {
    /// Submit a metadata query, stamped with the client's handle.
    SubmitInfo { reply_tx: usize },
    /// Submit an insert, stamped with the client's handle.
    SubmitInsert { key: Key, value: Value, reply_tx: usize },
    /// Submit a point lookup as the degenerate scan over the single-key
    /// range `[key, key]`, stamped with the client's handle and the freshly
    /// issued feedback handle the loop will await the stream identifier on.
    SubmitLookupSingle { key: Key, reply_tx: usize, feedback_tx: usize },
    /// Spawn a background scan task for this range; the client's handle is
    /// resolved with the stream handle when the task starts, never tied to
    /// the scan's completion.
    SpawnLookupRange { range_from: KeyBound, range_to: KeyBound, reply_tx: usize },
    /// Submit a removal, stamped with the client's handle.
    SubmitRemove { key: Key, reply_tx: usize },
    /// Submit a flush, stamped with the client's handle.
    SubmitFlush { reply_tx: usize },
}

/// Whether the loop goes on, and with what work.
#[derive(Debug, PartialEq, Eq)]
pub enum Flow {
    Continue(Option<Action>),
    Break,
}

/// The loop's decision for one event, over the registry of completion
/// handles: only a point lookup touches it, by issuing the feedback handle
/// its background task will wait on.
pub open spec fn busyloop_step_spec(slots: Seq<Completion>, event: Event) -> (
    Seq<Completion>,
    Result<Flow, Error>,
) {
    match event {
        Event::Request(None) => (slots, Ok(Flow::Break)),
        Event::Request(Some(Request::Info(RequestInfo { reply_tx }))) => (
            slots,
            Ok(Flow::Continue(Some(Action::SubmitInfo { reply_tx }))),
        ),
        Event::Request(Some(Request::Insert(RequestInsert { key, value, reply_tx }))) => (
            slots,
            Ok(Flow::Continue(Some(Action::SubmitInsert { key, value, reply_tx }))),
        ),
        Event::Request(
            Some(
                Request::LookupRange(
                    RequestLookupKind::Single(RequestLookupKindSingle { key, reply_tx }),
                ),
            ),
        ) => (
            slots.push(
                (Completion {
                    kind: ReplyKind::StreamFeedback,
                    resolution: Resolution::Pending,
                    receiver_live: true,
                }),
            ),
            Ok(
                Flow::Continue(
                    Some(
                        Action::SubmitLookupSingle {
                            key,
                            reply_tx,
                            feedback_tx: slots.len() as usize,
                        },
                    ),
                ),
            ),
        ),
        Event::Request(
            Some(
                Request::LookupRange(
                    RequestLookupKind::Range(
                        RequestLookupKindRange { range_from, range_to, reply_tx },
                    ),
                ),
            ),
        ) => (
            slots,
            Ok(Flow::Continue(Some(Action::SpawnLookupRange { range_from, range_to, reply_tx }))),
        ),
        Event::Request(Some(Request::Remove(RequestRemove { key, reply_tx }))) => (
            slots,
            Ok(Flow::Continue(Some(Action::SubmitRemove { key, reply_tx }))),
        ),
        Event::Request(Some(Request::FlushAll(RequestFlush { reply_tx }))) => (
            slots,
            Ok(Flow::Continue(Some(Action::SubmitFlush { reply_tx }))),
        ),
        Event::Task(Ok(())) => (slots, Ok(Flow::Continue(None))),
        Event::Task(Err(error)) => (slots, Err(error)),
    }
}

/// One iteration of the event loop: exactly the decision of
/// `busyloop_step_spec`.
pub fn busyloop_step(welt: &mut Welt, event: Event) -> (r: Result<Flow, Error>)
    ensures
        (final(welt).slots@, r) == busyloop_step_spec(old(welt).slots@, event),
{
    match event {
        Event::Request(None) => Ok(Flow::Break),
        Event::Request(Some(Request::Info(RequestInfo { reply_tx }))) => Ok(
            Flow::Continue(Some(Action::SubmitInfo { reply_tx })),
        ),
        Event::Request(Some(Request::Insert(RequestInsert { key, value, reply_tx }))) => Ok(
            Flow::Continue(Some(Action::SubmitInsert { key, value, reply_tx })),
        ),
        Event::Request(
            Some(
                Request::LookupRange(
                    RequestLookupKind::Single(RequestLookupKindSingle { key, reply_tx }),
                ),
            ),
        ) => {
            let feedback_tx = welt.issue(ReplyKind::StreamFeedback);
            Ok(Flow::Continue(Some(Action::SubmitLookupSingle { key, reply_tx, feedback_tx })))
        },
        Event::Request(
            Some(
                Request::LookupRange(
                    RequestLookupKind::Range(
                        RequestLookupKindRange { range_from, range_to, reply_tx },
                    ),
                ),
            ),
        ) => Ok(Flow::Continue(Some(Action::SpawnLookupRange { range_from, range_to, reply_tx }))),
        Event::Request(Some(Request::Remove(RequestRemove { key, reply_tx }))) => Ok(
            Flow::Continue(Some(Action::SubmitRemove { key, reply_tx })),
        ),
        Event::Request(Some(Request::FlushAll(RequestFlush { reply_tx }))) => Ok(
            Flow::Continue(Some(Action::SubmitFlush { reply_tx })),
        ),
        Event::Task(Ok(())) => Ok(Flow::Continue(None)),
        Event::Task(Err(error)) => Err(error),
    }
}

/// The engine submissions the loop makes, each with its own fatal error.
#[derive(Clone, Copy, Debug, PartialEq, Eq, Structural)]
pub enum SubmitKind {
    Info,
    Insert,
    LookupSingle,
    LookupRange,
    Remove,
    Flush,
    /// A scan's next "resume" call.
    Next,
}

/// The fatal error a refused submission of each kind escalates to.
pub open spec fn submit_error_spec(kind: SubmitKind, error: EngineError) -> Error {
    match kind {
        SubmitKind::Info => Error::RequestInfoBefehl(error),
        SubmitKind::Insert => Error::RequestInsertBefehl(error),
        SubmitKind::LookupSingle => Error::RequestLookupSingleBefehl(error),
        SubmitKind::LookupRange => Error::RequestLookupRangeBefehl(error),
        SubmitKind::Remove => Error::RequestRemoveBefehl(error),
        SubmitKind::Flush => Error::RequestFlushBefehl(error),
        SubmitKind::Next => Error::LookupRangeNext(error),
    }
}

/// An engine that refuses a submission is gone: fatal, with the error
/// variant of the submission kind. An accepted submission is no promise of
/// a result yet — the reply arrives later, through the dispatcher.
pub fn submission_outcome(kind: SubmitKind, sent: Result<(), EngineError>) -> (r: Result<
    (),
    Error,
>)
    ensures
        sent is Ok <==> r is Ok,
        sent matches Err(error) ==> r == Err::<(), Error>(submit_error_spec(kind, error)),
{
    match sent {
        Ok(()) => Ok(()),
        Err(error) => Err(
            match kind {
                SubmitKind::Info => Error::RequestInfoBefehl(error),
                SubmitKind::Insert => Error::RequestInsertBefehl(error),
                SubmitKind::LookupSingle => Error::RequestLookupSingleBefehl(error),
                SubmitKind::LookupRange => Error::RequestLookupRangeBefehl(error),
                SubmitKind::Remove => Error::RequestRemoveBefehl(error),
                SubmitKind::Flush => Error::RequestFlushBefehl(error),
                SubmitKind::Next => Error::LookupRangeNext(error),
            },
        ),
    }
}

/// What a point lookup's background task concludes from its feedback
/// handle: the stream identifier echoed back means the scan went through
/// the engine exactly once; no echo means the engine died first, which is
/// fatal. An echoed identifier always names the lookup's own stream.
pub fn single_feedback_outcome(feedback: Option<u64>, expected_stream_id: u64) -> (r: Result<
    (),
    Error,
>)
    requires
        feedback matches Some(stream_id) ==> stream_id == expected_stream_id,
    ensures
        feedback is Some <==> r is Ok,
        feedback is None ==> r == Err::<(), Error>(
            Error::BlockwheelKvMeisterHasGoneDuringLookupSingle,
        ),
{
    match feedback {
        Some(_stream_id) => Ok(()),
        None => Err(Error::BlockwheelKvMeisterHasGoneDuringLookupSingle),
    }
}

/// The result the loop records for a scan task, once it is terminal: a
/// finished scan is a success whether it ran to end-of-stream or its client
/// went away; a scan the engine abandoned is the fatal loss of the engine.
pub fn scan_outcome(task: &ScanTask) -> (r: Option<Result<(), Error>>)
    ensures
        task.state is Finished ==> r == Some(Ok::<(), Error>(())),
        task.state is Failed ==> r == Some(
            Err::<(), Error>(Error::BlockwheelKvMeisterHasGoneDuringLookupRange),
        ),
        !(task.state is Finished || task.state is Failed) ==> r is None,
{
    match &task.state {
        ScanState::Finished => Some(Ok(())),
        ScanState::Failed => Some(Err(Error::BlockwheelKvMeisterHasGoneDuringLookupRange)),
        _ => None,
    }
}

/// How severe an error is: a recoverable one carries the state to resume
/// from, a fatal one only what went wrong.
#[derive(Debug, PartialEq, Eq)]
pub enum ErrorSeverity<S, A> {
    Recoverable { state: S },
    Fatal(A),
}

/// What the supervision wrapper does with a finished event loop.
#[derive(Clone, Copy, Debug, PartialEq, Eq, Structural)]
pub enum SupervisionDecision {
    /// The loop ended cleanly: the facade terminates.
    Exit,
    /// The loop died: every piece of state is discarded — waiting clients
    /// observe abandonment — and a fresh loop is built from scratch.
    RestartFresh,
}

/// The instant-crash supervision policy: a clean exit terminates the
/// facade; any error, recoverable or fatal, discards all in-flight state
/// and restarts from empty — there is no partial recovery.
pub fn supervise<S, A>(outcome: &Result<(), ErrorSeverity<S, A>>) -> (d: SupervisionDecision)
    ensures
        outcome is Ok <==> d == SupervisionDecision::Exit,
        outcome is Err <==> d == SupervisionDecision::RestartFresh,
{
    match outcome {
        Ok(()) => SupervisionDecision::Exit,
        Err(_) => SupervisionDecision::RestartFresh,
    }
}

} // verus!
