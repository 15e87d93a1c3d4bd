//! End-to-end scenarios: the verified decision functions wired together
//! with a fake in-memory engine standing in for the storage engines.

use std::collections::BTreeMap;

use blockwheel_kv_ero::access_policy::{AccessPolicy, RequestKind};
use blockwheel_kv_ero::completion::{Reply, ReplyKind, Resolution};
use blockwheel_kv_ero::ftd_sklave::{
    run_job, LookupKind, LookupKindRange, LookupKindSingle, Order, Umschlag, Welt,
};
use blockwheel_kv_ero::gen_server::{
    busyloop_step, scan_outcome, single_feedback_outcome, Action, Event, Flow,
};
use blockwheel_kv_ero::kv::{Cell, Key, KeyValuePair, Value, ValueCell};
use blockwheel_kv_ero::proto::{
    KeyBound, Request, RequestInsert, RequestLookupKind, RequestLookupKindRange,
    RequestLookupKindSingle, RequestRemove,
};
use blockwheel_kv_ero::scan::{ScanAction, ScanTask, StreamToken, Streamzeug};

/// The storage engine, faked: a versioned in-memory map.
struct FakeEngine {
    map: BTreeMap<Vec<u8>, (u64, Vec<u8>)>,
    version: u64,
}

impl FakeEngine {
    fn new() -> FakeEngine {
        FakeEngine {
            map: BTreeMap::new(),
            version: 0,
        }
    }

    fn insert(&mut self, key: &[u8], value: &[u8]) -> u64 {
        self.version += 1;
        self.map
            .insert(key.to_vec(), (self.version, value.to_vec()));
        self.version
    }

    fn remove(&mut self, key: &[u8]) -> u64 {
        self.version += 1;
        self.map.remove(key);
        self.version
    }

    fn pairs_in_range(&self, from: &KeyBound, to: &KeyBound) -> Vec<KeyValuePair> {
        self.map
            .iter()
            .filter(|(k, _)| {
                let lower_ok = match from {
                    KeyBound::Unbounded => true,
                    KeyBound::Included(b) => k.as_slice() >= b.key_bytes.as_slice(),
                    KeyBound::Excluded(b) => k.as_slice() > b.key_bytes.as_slice(),
                };
                let upper_ok = match to {
                    KeyBound::Unbounded => true,
                    KeyBound::Included(b) => k.as_slice() <= b.key_bytes.as_slice(),
                    KeyBound::Excluded(b) => k.as_slice() < b.key_bytes.as_slice(),
                };
                lower_ok && upper_ok
            })
            .map(|(k, (version, v))| KeyValuePair {
                key: Key {
                    key_bytes: k.clone(),
                },
                value_cell: ValueCell {
                    version: *version,
                    cell: Cell::Value(Value {
                        value_bytes: v.clone(),
                    }),
                },
            })
            .collect()
    }
}

fn key(bytes: &[u8]) -> Key {
    Key {
        key_bytes: bytes.to_vec(),
    }
}

fn value(bytes: &[u8]) -> Value {
    Value {
        value_bytes: bytes.to_vec(),
    }
}

/// Submit an insert through the event loop, let the fake engine answer
/// through the dispatcher, and return what the client observes.
fn do_insert(welt: &mut Welt, engine: &mut FakeEngine, k: &[u8], v: &[u8]) -> Resolution {
    let reply_tx = welt.issue(AccessPolicy::reply_kind(RequestKind::Insert));
    let flow = busyloop_step(
        welt,
        Event::Request(Some(Request::Insert(RequestInsert {
            key: key(k),
            value: value(v),
            reply_tx,
        }))),
    )
    .unwrap();
    let action = match flow {
        Flow::Continue(Some(action)) => action,
        other => panic!("unexpected flow for insert: {:?}", other),
    };
    let (engine_key, engine_value, stamp) = match action {
        Action::SubmitInsert {
            key,
            value,
            reply_tx,
        } => (key, value, reply_tx),
        other => panic!("unexpected action for insert: {:?}", other),
    };
    let version = engine.insert(&engine_key.key_bytes, &engine_value.value_bytes);
    run_job(
        welt,
        vec![Order::Insert(Umschlag {
            inhalt: blockwheel_kv_ero::kv::Inserted { version },
            stamp,
        })],
    )
    .unwrap();
    welt.resolution_of(reply_tx).clone()
}

/// Submit a point lookup through the event loop: the loop turns it into the
/// degenerate scan over the single key, the fake engine answers with one
/// stream reply, and the dispatcher resolves both the client's handle and
/// the loop's feedback handle.
fn do_lookup_single(welt: &mut Welt, engine: &FakeEngine, k: &[u8]) -> Option<ValueCell> {
    let reply_tx = welt.issue(AccessPolicy::reply_kind(RequestKind::LookupSingle));
    let flow = busyloop_step(
        welt,
        Event::Request(Some(Request::LookupRange(RequestLookupKind::Single(
            RequestLookupKindSingle {
                key: key(k),
                reply_tx,
            },
        )))),
    )
    .unwrap();
    let (lookup_key, stamp_reply, stamp_feedback) = match flow {
        Flow::Continue(Some(Action::SubmitLookupSingle {
            key,
            reply_tx,
            feedback_tx,
        })) => (key, reply_tx, feedback_tx),
        other => panic!("unexpected flow for lookup: {:?}", other),
    };
    let bound_from = KeyBound::Included(Key {
        key_bytes: lookup_key.key_bytes.clone(),
    });
    let bound_to = KeyBound::Included(lookup_key);
    let in_range = engine.pairs_in_range(&bound_from, &bound_to);
    let stream_id = 40;
    let zeug = match in_range.into_iter().next() {
        Some(pair) => Streamzeug::Zeug {
            zeug: pair,
            mehr: StreamToken { stream_id },
        },
        None => Streamzeug::NichtMehr { stream_id },
    };
    run_job(
        welt,
        vec![Order::LookupRange(Umschlag {
            inhalt: zeug,
            stamp: LookupKind::Single(LookupKindSingle {
                reply_tx: stamp_reply,
                feedback_tx: stamp_feedback,
            }),
        })],
    )
    .unwrap();
    let feedback = match welt.resolution_of(stamp_feedback) {
        Resolution::Value(Reply::StreamFeedback(id)) => Some(*id),
        Resolution::Pending => None,
        other => panic!("unexpected feedback resolution: {:?}", other),
    };
    assert_eq!(single_feedback_outcome(feedback, stream_id), Ok(()));
    match welt.resolution_of(reply_tx) {
        Resolution::Value(Reply::LookupSingle(found)) => found.clone(),
        other => panic!("unexpected lookup resolution: {:?}", other),
    }
}

fn do_remove(welt: &mut Welt, engine: &mut FakeEngine, k: &[u8]) -> Resolution {
    let reply_tx = welt.issue(AccessPolicy::reply_kind(RequestKind::Remove));
    let flow = busyloop_step(
        welt,
        Event::Request(Some(Request::Remove(RequestRemove {
            key: key(k),
            reply_tx,
        }))),
    )
    .unwrap();
    let (engine_key, stamp) = match flow {
        Flow::Continue(Some(Action::SubmitRemove { key, reply_tx })) => (key, reply_tx),
        other => panic!("unexpected flow for remove: {:?}", other),
    };
    let version = engine.remove(&engine_key.key_bytes);
    run_job(
        welt,
        vec![Order::Remove(Umschlag {
            inhalt: blockwheel_kv_ero::kv::Removed { version },
            stamp,
        })],
    )
    .unwrap();
    welt.resolution_of(reply_tx).clone()
}

#[test]
fn insert_lookup_remove_lookup_round_trip() {
    let mut welt = Welt::new();
    let mut engine = FakeEngine::new();

    let inserted = do_insert(&mut welt, &mut engine, b"K", b"V");
    assert!(matches!(
        inserted,
        Resolution::Value(Reply::Inserted(blockwheel_kv_ero::kv::Inserted { version: 1 }))
    ));

    let found = do_lookup_single(&mut welt, &engine, b"K");
    match found {
        Some(cell) => match cell.cell {
            Cell::Value(v) => assert_eq!(v.value_bytes, b"V".to_vec()),
            Cell::Tombstone => panic!("expected a live value"),
        },
        None => panic!("expected the inserted key to be found"),
    }

    let removed = do_remove(&mut welt, &mut engine, b"K");
    assert!(matches!(
        removed,
        Resolution::Value(Reply::Removed(blockwheel_kv_ero::kv::Removed { version: 2 }))
    ));

    let found_after_remove = do_lookup_single(&mut welt, &engine, b"K");
    assert_eq!(found_after_remove, None);
}

/// Drive one range scan task against the fake engine. `reads` says how many
/// items the client takes before it drops its stream end (`usize::MAX` to
/// read everything). Returns the items the client observed, whether the
/// stream ended with the end-of-stream marker, the number of resume calls
/// the engine received, and the task's terminal outcome.
fn drive_scan(
    welt: &mut Welt,
    engine: &FakeEngine,
    range_from: KeyBound,
    range_to: KeyBound,
    reads: usize,
) -> (Vec<KeyValuePair>, bool, usize, Option<Result<(), blockwheel_kv_ero::gen_server::Error>>) {
    let reply_tx = welt.issue(AccessPolicy::reply_kind(RequestKind::LookupRange));
    let flow = busyloop_step(
        welt,
        Event::Request(Some(Request::LookupRange(RequestLookupKind::Range(
            RequestLookupKindRange {
                range_from,
                range_to,
                reply_tx,
            },
        )))),
    )
    .unwrap();
    let (from, to, stamp) = match flow {
        Flow::Continue(Some(Action::SpawnLookupRange {
            range_from,
            range_to,
            reply_tx,
        })) => (range_from, range_to, reply_tx),
        other => panic!("unexpected flow for range lookup: {:?}", other),
    };

    // The task hands the client its stream handle first, before any data.
    let stream_handle = welt.issue(ReplyKind::LookupRange);
    welt.resolve(
        stamp,
        Reply::LookupRange(blockwheel_kv_ero::LookupRange {
            key_values_rx: stream_handle,
        }),
    );

    let pairs = engine.pairs_in_range(&from, &to);
    let mut fetched: usize = 0;
    let mut observed: Vec<KeyValuePair> = Vec::new();
    let mut saw_end = false;
    let mut taken: usize = 0;

    let mut task = ScanTask::new();
    let mut action = task.on_handle_handed(true);
    loop {
        match action {
            ScanAction::IssueFirstResume | ScanAction::IssueResume(_) => {
                // The engine answers each resume with one stream reply,
                // delivered through the dispatcher to a fresh handle.
                let step_stamp = welt.issue(ReplyKind::Streamzeug);
                let zeug = if fetched < pairs.len() {
                    let reply = Streamzeug::Zeug {
                        zeug: pairs[fetched].clone(),
                        mehr: StreamToken {
                            stream_id: fetched as u64,
                        },
                    };
                    fetched += 1;
                    reply
                } else {
                    Streamzeug::NichtMehr { stream_id: 99 }
                };
                run_job(
                    welt,
                    vec![Order::LookupRange(Umschlag {
                        inhalt: zeug,
                        stamp: LookupKind::Range(LookupKindRange {
                            kv_items_stream_tx: step_stamp,
                        }),
                    })],
                )
                .unwrap();
                action = match welt.resolution_of(step_stamp) {
                    Resolution::Value(Reply::Streamzeug(Streamzeug::Zeug { zeug, mehr })) => {
                        task.on_engine_item(zeug.clone(), *mehr)
                    }
                    Resolution::Value(Reply::Streamzeug(Streamzeug::NichtMehr { .. })) => {
                        task.on_engine_end()
                    }
                    other => panic!("unexpected stream resolution: {:?}", other),
                };
            }
            ScanAction::ForwardItem => {
                if taken < reads {
                    observed.push(task.offered_item().unwrap().clone());
                    taken += 1;
                    action = task.on_item_taken(true);
                } else {
                    action = task.on_item_taken(false);
                }
            }
            ScanAction::ForwardEnd => {
                saw_end = true;
                break;
            }
            ScanAction::Stop | ScanAction::Fail => break,
        }
    }
    let outcome = scan_outcome(&task);
    (observed, saw_end, fetched, outcome)
}

#[test]
fn full_range_scan_yields_inserted_keys_in_order_then_end_of_stream() {
    let mut welt = Welt::new();
    let mut engine = FakeEngine::new();
    // Inserted out of order on purpose; the engine serves them sorted.
    do_insert(&mut welt, &mut engine, b"B", b"2");
    do_insert(&mut welt, &mut engine, b"C", b"3");
    do_insert(&mut welt, &mut engine, b"A", b"1");

    let (observed, saw_end, _fetched, outcome) = drive_scan(
        &mut welt,
        &engine,
        KeyBound::Unbounded,
        KeyBound::Unbounded,
        usize::MAX,
    );
    let keys: Vec<Vec<u8>> = observed.iter().map(|p| p.key.key_bytes.clone()).collect();
    assert_eq!(keys, vec![b"A".to_vec(), b"B".to_vec(), b"C".to_vec()]);
    assert!(saw_end);
    assert_eq!(outcome, Some(Ok(())));
}

#[test]
fn receiver_dropped_after_first_item_silences_the_scan() {
    let mut welt = Welt::new();
    let mut engine = FakeEngine::new();
    do_insert(&mut welt, &mut engine, b"A", b"1");
    do_insert(&mut welt, &mut engine, b"B", b"2");
    do_insert(&mut welt, &mut engine, b"C", b"3");

    let (observed, saw_end, fetched, outcome) = drive_scan(
        &mut welt,
        &engine,
        KeyBound::Unbounded,
        KeyBound::Unbounded,
        1,
    );
    let keys: Vec<Vec<u8>> = observed.iter().map(|p| p.key.key_bytes.clone()).collect();
    assert_eq!(keys, vec![b"A".to_vec()], "only the item read before the drop");
    assert!(!saw_end, "no end-of-stream marker reaches a gone client");
    assert_eq!(
        outcome,
        Some(Ok(())),
        "a dropped receiver terminates the scan without an error"
    );
    assert!(
        fetched <= 2,
        "after the drop no further item is fetched from the engine"
    );
}

#[test]
fn point_lookup_matches_degenerate_range_scan() {
    let mut welt = Welt::new();
    let mut engine = FakeEngine::new();
    do_insert(&mut welt, &mut engine, b"K", b"V");
    do_insert(&mut welt, &mut engine, b"L", b"W");

    // Present key: the degenerate scan over [K, K] yields exactly one item,
    // and the point lookup returns exactly that item's cell.
    let (observed, saw_end, _fetched, _outcome) = drive_scan(
        &mut welt,
        &engine,
        KeyBound::Included(key(b"K")),
        KeyBound::Included(key(b"K")),
        usize::MAX,
    );
    assert_eq!(observed.len(), 1);
    assert!(saw_end);
    let looked_up = do_lookup_single(&mut welt, &engine, b"K");
    assert_eq!(looked_up, Some(observed[0].value_cell.clone()));

    // Absent key: the degenerate scan yields nothing, the lookup says None.
    let (observed, _saw_end, _fetched, _outcome) = drive_scan(
        &mut welt,
        &engine,
        KeyBound::Included(key(b"M")),
        KeyBound::Included(key(b"M")),
        usize::MAX,
    );
    assert_eq!(observed.len(), 0);
    assert_eq!(do_lookup_single(&mut welt, &engine, b"M"), None);
}
