//! The envelope dispatcher and the work-item router: deliveries resolve the
//! stamped handles, abandonment envelopes are fatal, and jobs reach the
//! handler their tag names.

use blockwheel_kv_ero::completion::{Reply, ReplyKind, Resolution, ResolveOutcome};
use blockwheel_kv_ero::ftd_sklave::{
    run_befehl, run_job, Error, LookupKind, LookupKindRange, LookupKindSingle, Order, Umschlag,
    UmschlagAbbrechen, Welt,
};
use blockwheel_kv_ero::job::{BlockwheelFsJob, BlockwheelKvJob, EngineJob, FtdSklaveJob, Job, JobUnit};
use blockwheel_kv_ero::kv::{Cell, Flushed, Inserted, Key, KeyValuePair, Removed, Value, ValueCell};
use blockwheel_kv_ero::scan::{StreamToken, Streamzeug};

fn pair(key: &[u8], value: &[u8], version: u64) -> KeyValuePair {
    KeyValuePair {
        key: Key {
            key_bytes: key.to_vec(),
        },
        value_cell: ValueCell {
            version,
            cell: Cell::Value(Value {
                value_bytes: value.to_vec(),
            }),
        },
    }
}

#[test]
fn delivery_resolves_the_stamped_handle() {
    let mut welt = Welt::new();
    let stamp = welt.issue(ReplyKind::Insert);
    let outcome = run_befehl(
        &mut welt,
        Order::Insert(Umschlag {
            inhalt: Inserted { version: 4 },
            stamp,
        }),
    );
    assert_eq!(outcome, Ok(()));
    assert_eq!(
        *welt.resolution_of(stamp),
        Resolution::Value(Reply::Inserted(Inserted { version: 4 }))
    );
}

#[test]
fn each_abandonment_envelope_is_fatal_and_abandons_its_handle() {
    let cases: Vec<(ReplyKind, fn(usize) -> Order, Error)> = vec![
        (
            ReplyKind::Info,
            (|stamp| Order::InfoCancel(UmschlagAbbrechen { stamp })) as fn(usize) -> Order,
            Error::GenServerIsLostOnRequestInfo,
        ),
        (
            ReplyKind::Insert,
            |stamp| Order::InsertCancel(UmschlagAbbrechen { stamp }),
            Error::GenServerIsLostOnRequestInsert,
        ),
        (
            ReplyKind::Streamzeug,
            |stamp| {
                Order::LookupRangeCancel(UmschlagAbbrechen {
                    stamp: LookupKind::Range(LookupKindRange {
                        kv_items_stream_tx: stamp,
                    }),
                })
            },
            Error::GenServerIsLostOnRequestLookupRange,
        ),
        (
            ReplyKind::Remove,
            |stamp| Order::RemoveCancel(UmschlagAbbrechen { stamp }),
            Error::GenServerIsLostOnRequestRemove,
        ),
        (
            ReplyKind::Flush,
            |stamp| Order::FlushCancel(UmschlagAbbrechen { stamp }),
            Error::GenServerIsLostOnRequestFlush,
        ),
    ];
    for (kind, order_of, expected) in cases {
        let mut welt = Welt::new();
        let stamp = welt.issue(kind);
        assert_eq!(run_befehl(&mut welt, order_of(stamp)), Err(expected));
        assert_eq!(
            *welt.resolution_of(stamp),
            Resolution::Abandoned,
            "the waiter observes abandonment, never a hang"
        );
    }
}

#[test]
fn abandoned_point_lookup_abandons_both_of_its_handles() {
    let mut welt = Welt::new();
    let reply_tx = welt.issue(ReplyKind::LookupSingle);
    let feedback_tx = welt.issue(ReplyKind::StreamFeedback);
    let outcome = run_befehl(
        &mut welt,
        Order::LookupRangeCancel(UmschlagAbbrechen {
            stamp: LookupKind::Single(LookupKindSingle {
                reply_tx,
                feedback_tx,
            }),
        }),
    );
    assert_eq!(outcome, Err(Error::GenServerIsLostOnRequestLookupRange));
    assert_eq!(*welt.resolution_of(reply_tx), Resolution::Abandoned);
    assert_eq!(*welt.resolution_of(feedback_tx), Resolution::Abandoned);
}

#[test]
fn point_lookup_found_replies_with_the_cell_and_acknowledges_the_stream() {
    let mut welt = Welt::new();
    let reply_tx = welt.issue(ReplyKind::LookupSingle);
    let feedback_tx = welt.issue(ReplyKind::StreamFeedback);
    let item = pair(b"k", b"v", 9);
    let outcome = run_befehl(
        &mut welt,
        Order::LookupRange(Umschlag {
            inhalt: Streamzeug::Zeug {
                zeug: item.clone(),
                mehr: StreamToken { stream_id: 17 },
            },
            stamp: LookupKind::Single(LookupKindSingle {
                reply_tx,
                feedback_tx,
            }),
        }),
    );
    assert_eq!(outcome, Ok(()));
    assert_eq!(
        *welt.resolution_of(reply_tx),
        Resolution::Value(Reply::LookupSingle(Some(item.value_cell)))
    );
    assert_eq!(
        *welt.resolution_of(feedback_tx),
        Resolution::Value(Reply::StreamFeedback(17))
    );
}

#[test]
fn point_lookup_not_found_replies_none() {
    let mut welt = Welt::new();
    let reply_tx = welt.issue(ReplyKind::LookupSingle);
    let feedback_tx = welt.issue(ReplyKind::StreamFeedback);
    let outcome = run_befehl(
        &mut welt,
        Order::LookupRange(Umschlag {
            inhalt: Streamzeug::NichtMehr { stream_id: 5 },
            stamp: LookupKind::Single(LookupKindSingle {
                reply_tx,
                feedback_tx,
            }),
        }),
    );
    assert_eq!(outcome, Ok(()));
    assert_eq!(
        *welt.resolution_of(reply_tx),
        Resolution::Value(Reply::LookupSingle(None))
    );
    assert_eq!(
        *welt.resolution_of(feedback_tx),
        Resolution::Value(Reply::StreamFeedback(5))
    );
}

#[test]
fn lost_feedback_handle_is_fatal_even_after_the_client_got_its_reply() {
    let mut welt = Welt::new();
    let reply_tx = welt.issue(ReplyKind::LookupSingle);
    let feedback_tx = welt.issue(ReplyKind::StreamFeedback);
    welt.drop_receiver(feedback_tx);
    let outcome = run_befehl(
        &mut welt,
        Order::LookupRange(Umschlag {
            inhalt: Streamzeug::NichtMehr { stream_id: 1 },
            stamp: LookupKind::Single(LookupKindSingle {
                reply_tx,
                feedback_tx,
            }),
        }),
    );
    assert_eq!(outcome, Err(Error::GenServerIsLostOnRequestLookupSingle));
    assert_eq!(
        *welt.resolution_of(reply_tx),
        Resolution::Value(Reply::LookupSingle(None)),
        "the client still got its reply before the fatal error"
    );
}

#[test]
fn client_gone_during_plain_delivery_is_harmless() {
    let mut welt = Welt::new();
    let stamp = welt.issue(ReplyKind::Remove);
    welt.drop_receiver(stamp);
    let outcome = run_befehl(
        &mut welt,
        Order::Remove(Umschlag {
            inhalt: Removed { version: 2 },
            stamp,
        }),
    );
    assert_eq!(outcome, Ok(()));
    assert_eq!(*welt.resolution_of(stamp), Resolution::Pending);
}

#[test]
fn batch_delivers_in_order_and_stops_at_the_first_fatal_envelope() {
    let mut welt = Welt::new();
    let flush_stamp = welt.issue(ReplyKind::Flush);
    let cancelled_stamp = welt.issue(ReplyKind::Insert);
    let unreached_stamp = welt.issue(ReplyKind::Insert);
    let outcome = run_job(
        &mut welt,
        vec![
            Order::Flushed(Umschlag {
                inhalt: Flushed,
                stamp: flush_stamp,
            }),
            Order::InsertCancel(UmschlagAbbrechen {
                stamp: cancelled_stamp,
            }),
            Order::Insert(Umschlag {
                inhalt: Inserted { version: 1 },
                stamp: unreached_stamp,
            }),
        ],
    );
    assert_eq!(outcome, Err(Error::GenServerIsLostOnRequestInsert));
    assert_eq!(
        *welt.resolution_of(flush_stamp),
        Resolution::Value(Reply::Flushed),
        "envelopes before the fatal one were delivered"
    );
    assert_eq!(
        *welt.resolution_of(cancelled_stamp),
        Resolution::Abandoned,
        "the fatal envelope abandoned the handle it was stamped with"
    );
    assert_eq!(
        *welt.resolution_of(unreached_stamp),
        Resolution::Pending,
        "envelopes after the fatal one were not delivered"
    );
}

#[test]
fn router_hands_each_tag_to_its_handler() {
    let mut welt = Welt::new();

    let unit = JobUnit {
        job: Job::BlockwheelFs(BlockwheelFsJob { token: 11 }),
    };
    assert_eq!(
        unit.run(&mut welt),
        Ok(Some(EngineJob::BlockwheelFs(BlockwheelFsJob { token: 11 })))
    );

    let unit = JobUnit {
        job: Job::BlockwheelKv(BlockwheelKvJob { token: 12 }),
    };
    assert_eq!(
        unit.run(&mut welt),
        Ok(Some(EngineJob::BlockwheelKv(BlockwheelKvJob { token: 12 })))
    );

    let stamp = welt.issue(ReplyKind::Info);
    let unit = JobUnit {
        job: Job::FtdSklave(FtdSklaveJob {
            befehle: vec![Order::Info(Umschlag {
                inhalt: blockwheel_kv_ero::kv::Info {
                    key_values_count: 1,
                    wheels: vec![],
                },
                stamp,
            })],
        }),
    };
    assert_eq!(unit.run(&mut welt), Ok(None));
    assert!(matches!(
        *welt.resolution_of(stamp),
        Resolution::Value(Reply::Info(_))
    ));
}

#[test]
fn double_dispatch_is_detected_and_rejected() {
    let mut welt = Welt::new();
    let stamp = welt.issue(ReplyKind::Insert);
    let first = run_befehl(
        &mut welt,
        Order::Insert(Umschlag {
            inhalt: Inserted { version: 1 },
            stamp,
        }),
    );
    assert_eq!(first, Ok(()));
    // The engine violating its single-reply contract: a second envelope for
    // the same stamp. The handle rejects it; the first value stands.
    let second = run_befehl(
        &mut welt,
        Order::Insert(Umschlag {
            inhalt: Inserted { version: 2 },
            stamp,
        }),
    );
    assert_eq!(second, Ok(()), "rejection of a client-side handle is not fatal");
    assert_eq!(
        *welt.resolution_of(stamp),
        Resolution::Value(Reply::Inserted(Inserted { version: 1 }))
    );
}

#[test]
fn abandon_all_leaves_no_handle_pending() {
    let mut welt = Welt::new();
    let a = welt.issue(ReplyKind::Info);
    let b = welt.issue(ReplyKind::Insert);
    let c = welt.issue(ReplyKind::Flush);
    welt.resolve(b, Reply::Inserted(Inserted { version: 1 }));
    welt.abandon_all();
    assert_eq!(*welt.resolution_of(a), Resolution::Abandoned);
    assert_eq!(
        *welt.resolution_of(b),
        Resolution::Value(Reply::Inserted(Inserted { version: 1 })),
        "an already delivered handle keeps its value"
    );
    assert_eq!(*welt.resolution_of(c), Resolution::Abandoned);
}
