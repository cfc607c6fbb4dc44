use twin_connector::client::{PropertyBuilder, UpsertFeedWithMeta, Visibility};
use twin_connector::connector::{ConnectorData, Feeds};
use twin_connector::constants::{
    CONCURRENT_NEW_TWINS_LIMIT, CONCURRENT_SHARES_LIMIT, MAILBOX_CAPACITY, RESCHEDULE_DELAY_MILLIS,
};
use twin_connector::messages::{
    Cleanup, GetData, HeartbeatData, ShareConcurrencyReduction, TwinConcurrencyReduction, TwinData,
};
use twin_connector::model::Model;
use twin_connector::model_actor::{poll_delay_millis, Admission, ModelActor, TickReport};
use twin_connector::registry::TwinActorInfo;
use twin_connector::twin_actor::{CleanupAction, TwinActor, WorkerAction};

const MODEL_DID: &str = "did:iotics:model";

fn model() -> Model {
    Model::new(
        "bus".to_string(),
        "Bus".to_string(),
        Visibility::Public,
        vec![PropertyBuilder::build_label("en", "Bus Model")],
        vec![UpsertFeedWithMeta {
            id: "f".to_string(),
            store_last: true,
            values: Vec::new(),
            properties: Vec::new(),
        }],
        vec![PropertyBuilder::build_label("en", "<SET-LATER>")],
    )
}

fn record(id: &str, samples: usize) -> ConnectorData {
    let mut feeds = Feeds::new();
    for i in 0..samples {
        feeds.insert(format!("f{}", i), "{\"v\":1}".to_string());
    }
    ConnectorData {
        id: id.to_string(),
        label: id.to_uppercase(),
        location: None,
        feeds,
        properties: Vec::new(),
    }
}

fn twin_data(id: &str, samples: usize, expire_time: u128) -> TwinData {
    TwinData { model_did: MODEL_DID.to_string(), data: record(id, samples), expire_time }
}

fn created(actor: &mut ModelActor, seed: &str) {
    actor.handle_twin_concurrency_reduction(TwinConcurrencyReduction {
        twin_seed: Some(seed.to_string()),
    });
}

/// Registers a worker for `id` and reports its twin created.
fn with_worker(actor: &mut ModelActor, id: &str) {
    match actor.handle_twin_data(twin_data(id, 0, u128::MAX), 0, false) {
        Admission::Started { twin, .. } => created(actor, &twin.seed),
        other => panic!("no worker started: {:?}", other),
    }
}

#[test]
fn new_supervisor_has_counted_nothing() {
    let actor = ModelActor::new(model(), 10, true);
    assert_eq!(actor.concurrent_new_twins(), 0);
    assert_eq!(actor.concurrent_shares(), 0);
    assert_eq!(actor.previously_unhandled_twins(), 0);
    assert_eq!(actor.running_twins(), 0);
    assert_eq!(actor.fetch_every_secs(), 10);
    assert!(actor.delete_twins());
    assert_eq!(actor.model(), &model());
    assert_eq!(actor.twin_info("bus a"), None);
}

#[test]
fn mailbox_holds_a_large_tick() {
    assert!(MAILBOX_CAPACITY >= 32 * 1024);
}

#[test]
fn model_upsert_carries_the_heartbeat_feed() {
    let actor = ModelActor::new(model(), 10, true);
    let upsert = actor.model_upsert();
    assert_eq!(upsert.seed, "bus Model");
    assert_eq!(upsert.properties, vec![PropertyBuilder::build_label("en", "Bus Model")]);
    assert_eq!(upsert.feeds, model().get_feeds(true));
    assert_eq!(upsert.feeds.len(), 2);
    assert_eq!(upsert.feeds[1].id, "heartbeat");
    assert_eq!(upsert.location, None);
    assert_eq!(upsert.visibility, Visibility::Public);
}

#[test]
fn poll_delay_is_what_is_left_of_the_interval() {
    let actor = ModelActor::new(model(), 10, true);
    assert_eq!(actor.poll_delay_millis(0), 10_000);
    assert_eq!(actor.poll_delay_millis(2_500), 7_500);
    assert_eq!(actor.poll_delay_millis(10_000), 0);
    assert_eq!(actor.poll_delay_millis(10_001), 0);
    assert_eq!(actor.poll_delay_millis(u64::MAX), 0);
    let slow = ModelActor::new(model(), u64::MAX, true);
    assert_eq!(slow.poll_delay_millis(1), u64::MAX as u128 * 1000 - 1);
}

#[test]
fn cleanup_comes_every_three_and_a_half_intervals() {
    assert_eq!(ModelActor::new(model(), 10, true).cleanup_every_millis(), 35_000);
    assert_eq!(ModelActor::new(model(), 1, true).cleanup_every_millis(), 3_500);
    assert_eq!(ModelActor::new(model(), 0, true).cleanup_every_millis(), 0);
    assert_eq!(
        ModelActor::new(model(), u64::MAX, true).cleanup_every_millis(),
        u64::MAX as u128 * 3500
    );
    assert_eq!(
        ModelActor::new(model(), 10, false).cleanup_message(),
        Cleanup { delete_twins: false, cleanup_every_millis: 35_000 }
    );
}

#[test]
fn fan_out_sends_each_record_and_then_the_heartbeat() {
    let actor = ModelActor::new(model(), 10, true);
    let tick = actor.fan_out(MODEL_DID, vec![record("a", 1), record("b", 2), record("c", 0)], 1_000);
    assert_eq!(
        tick.twin_data,
        vec![twin_data("a", 1, 8_500), twin_data("b", 2, 8_500), twin_data("c", 0, 8_500)]
    );
    assert_eq!(tick.heartbeat, HeartbeatData { model_did: MODEL_DID.to_string(), shares: 3 });
}

#[test]
fn fan_out_of_nothing_still_sends_the_heartbeat() {
    let actor = ModelActor::new(model(), 1, true);
    let tick = actor.fan_out(MODEL_DID, Vec::new(), u64::MAX);
    assert!(tick.twin_data.is_empty());
    assert_eq!(tick.heartbeat, HeartbeatData { model_did: MODEL_DID.to_string(), shares: 0 });
}

#[test]
fn tick_deadline_is_three_quarters_of_the_interval() {
    let tick = ModelActor::new(model(), 1, true).fan_out(MODEL_DID, vec![record("a", 1)], 20_000);
    assert_eq!(tick.twin_data[0].expire_time, 20_750);
    let tick = ModelActor::new(model(), u64::MAX, true).fan_out(MODEL_DID, vec![record("a", 1)], u64::MAX);
    assert_eq!(tick.twin_data[0].expire_time, u64::MAX as u128 * 751);
}

#[test]
fn record_at_its_deadline_is_still_admitted() {
    let mut actor = ModelActor::new(model(), 1, true);
    let admission = actor.handle_twin_data(twin_data("a", 1, 750), 750, false);
    assert!(matches!(admission, Admission::Started { .. }));
    assert_eq!(actor.previously_unhandled_twins(), 0);
}

#[test]
fn record_past_its_deadline_is_dropped_and_counted() {
    let mut actor = ModelActor::new(model(), 1, true);
    assert_eq!(actor.handle_twin_data(twin_data("a", 1, 750), 751, false), Admission::Expired);
    assert_eq!(actor.previously_unhandled_twins(), 1);
    assert_eq!(actor.running_twins(), 0);
    assert_eq!(actor.concurrent_new_twins(), 0);
    assert_eq!(actor.concurrent_shares(), 0);
}

#[test]
fn first_record_of_a_twin_starts_a_worker_and_waits() {
    let mut actor = ModelActor::new(model(), 10, true);
    let mut message = twin_data("a", 1, 7_500);
    message.data.label = "  Alpha  ".to_string();
    message.data.location =
        Some(twin_connector::client::GeoLocation { lat_bits: 1, lon_bits: 2 });
    match actor.handle_twin_data(message.clone(), 0, true) {
        Admission::Started { twin, message: again, delay_millis } => {
            assert_eq!(twin.model_did, MODEL_DID);
            assert_eq!(twin.seed, "bus a");
            assert_eq!(twin.label, "Bus   Alpha");
            assert_eq!(twin.location, message.data.location);
            assert_eq!(again, message);
            assert_eq!(delay_millis, 500);
        }
        other => panic!("unexpected admission: {:?}", other),
    }
    assert_eq!(actor.twin_info("bus a"), Some(TwinActorInfo { created: false }));
    assert_eq!(actor.concurrent_new_twins(), 1);
    assert_eq!(actor.concurrent_shares(), 0);
}

#[test]
fn record_waits_until_its_twin_is_created() {
    let mut actor = ModelActor::new(model(), 10, true);
    assert!(matches!(
        actor.handle_twin_data(twin_data("a", 1, 7_500), 0, false),
        Admission::Started { .. }
    ));
    assert_eq!(
        actor.handle_twin_data(twin_data("a", 1, 7_500), 500, true),
        Admission::Deferred { message: twin_data("a", 1, 7_500), delay_millis: RESCHEDULE_DELAY_MILLIS }
    );
    assert_eq!(actor.concurrent_shares(), 0);
    created(&mut actor, "bus a");
    assert_eq!(actor.twin_info("bus a"), Some(TwinActorInfo { created: true }));
    assert_eq!(actor.concurrent_new_twins(), 0);
    assert_eq!(
        actor.handle_twin_data(twin_data("a", 1, 7_500), 1_000, true),
        Admission::Forwarded { seed: "bus a".to_string(), message: twin_data("a", 1, 7_500) }
    );
    assert_eq!(actor.concurrent_shares(), 1);
}

#[test]
fn fresh_twin_with_a_single_feed() {
    let mut actor = ModelActor::new(model(), 10, true);
    let mut feeds = Feeds::new();
    feeds.insert("f".to_string(), "{\"v\":1}".to_string());
    let data = ConnectorData {
        id: "a".to_string(),
        label: "A".to_string(),
        location: None,
        feeds,
        properties: Vec::new(),
    };
    actor.handle_get_data(&GetData { model_did: MODEL_DID.to_string() });
    let mut tick = actor.fan_out(MODEL_DID, vec![data], 0);
    assert_eq!(tick.twin_data.len(), 1);
    assert_eq!(tick.heartbeat.shares, 1);
    let message = tick.twin_data.pop().unwrap();
    assert_eq!(message.expire_time, 7_500);

    let (twin, message) = match actor.handle_twin_data(message, 1, false) {
        Admission::Started { twin, message, .. } => (twin, message),
        other => panic!("unexpected admission: {:?}", other),
    };
    assert_eq!(twin.seed, "bus a");
    assert_eq!(actor.running_twins(), 1);

    let mut worker = TwinActor::new(twin, model(), 1);
    let upsert = worker.started("1970-01-01T00:00:00.001Z");
    assert_eq!(upsert.seed, "bus a");
    assert_eq!(upsert.properties, vec![PropertyBuilder::build_label("en", "Bus A")]);
    assert_eq!(upsert.feeds, model().get_feeds(false));
    let signal = worker.handle_twin_creation_success(
        twin_connector::messages::TwinCreationSuccess { twin_did: "did:iotics:a".to_string() },
    );
    actor.handle_twin_concurrency_reduction(signal);

    let message = match actor.handle_twin_data(message, 501, true) {
        Admission::Forwarded { seed, message } => {
            assert_eq!(seed, "bus a");
            message
        }
        other => panic!("unexpected admission: {:?}", other),
    };
    assert_eq!(actor.concurrent_shares(), 1);

    let publication = worker.handle_twin_data(message, 502);
    assert_eq!(publication.shares.len(), 1);
    assert_eq!(publication.shares[0].twin_did, "did:iotics:a");
    assert_eq!(publication.shares[0].feed_id, "f");
    assert_eq!(publication.shares[0].payload, b"{\"v\":1}".to_vec());
    assert!(publication.shares[0].retain_last);
    assert_eq!(publication.update, None);
    let forward = worker.handle_share_concurrency_reduction(publication.done);
    actor.handle_share_concurrency_reduction(forward);

    assert_eq!(actor.concurrent_new_twins(), 0);
    assert_eq!(actor.concurrent_shares(), 0);
    assert_eq!(worker.shares_in_flight(), 0);
    assert_eq!(actor.running_twins(), 1);
}

#[test]
fn new_workers_are_refused_once_the_limit_is_exceeded() {
    let mut actor = ModelActor::new(model(), 10, true);
    let ids = ["a", "b", "c", "d", "e"];
    for (started, id) in ids.iter().enumerate() {
        assert_eq!(actor.concurrent_new_twins(), started);
        assert!(matches!(
            actor.handle_twin_data(twin_data(id, 1, 7_500), 0, false),
            Admission::Started { .. }
        ));
    }
    assert_eq!(actor.concurrent_new_twins(), CONCURRENT_NEW_TWINS_LIMIT + 1);
    assert_eq!(
        actor.handle_twin_data(twin_data("f", 1, 7_500), 0, false),
        Admission::Deferred { message: twin_data("f", 1, 7_500), delay_millis: 500 }
    );
    assert_eq!(actor.running_twins(), 5);
    assert_eq!(actor.twin_info("bus f"), None);
    assert_eq!(actor.concurrent_new_twins(), CONCURRENT_NEW_TWINS_LIMIT + 1);

    created(&mut actor, "bus c");
    assert_eq!(actor.concurrent_new_twins(), CONCURRENT_NEW_TWINS_LIMIT);
    match actor.handle_twin_data(twin_data("f", 1, 7_500), 500, false) {
        Admission::Started { twin, .. } => assert_eq!(twin.seed, "bus f"),
        other => panic!("unexpected admission: {:?}", other),
    }
    assert_eq!(actor.running_twins(), 6);
    assert_eq!(actor.concurrent_new_twins(), CONCURRENT_NEW_TWINS_LIMIT + 1);
}

#[test]
fn shares_in_flight_stay_within_their_limit() {
    let mut actor = ModelActor::new(model(), 10, true);
    with_worker(&mut actor, "a");
    with_worker(&mut actor, "b");
    assert!(matches!(
        actor.handle_twin_data(twin_data("a", 100, 7_500), 0, true),
        Admission::Forwarded { .. }
    ));
    assert_eq!(actor.concurrent_shares(), 100);
    assert_eq!(
        actor.handle_twin_data(twin_data("b", 29, 7_500), 0, true),
        Admission::Deferred { message: twin_data("b", 29, 7_500), delay_millis: 500 }
    );
    assert_eq!(actor.concurrent_shares(), 100);
    assert!(matches!(
        actor.handle_twin_data(twin_data("b", 28, 7_500), 0, true),
        Admission::Forwarded { .. }
    ));
    assert_eq!(actor.concurrent_shares(), CONCURRENT_SHARES_LIMIT);
    assert!(matches!(
        actor.handle_twin_data(twin_data("a", 1, 7_500), 0, true),
        Admission::Deferred { .. }
    ));
    assert!(matches!(
        actor.handle_twin_data(twin_data("a", 0, 7_500), 0, true),
        Admission::Forwarded { .. }
    ));
    actor.handle_share_concurrency_reduction(ShareConcurrencyReduction { shares_count: 28 });
    assert_eq!(actor.concurrent_shares(), 100);
    assert!(matches!(
        actor.handle_twin_data(twin_data("a", 1, 7_500), 0, true),
        Admission::Forwarded { .. }
    ));
    assert_eq!(actor.concurrent_shares(), 101);
}

#[test]
fn record_with_more_samples_than_the_limit_always_waits() {
    let mut actor = ModelActor::new(model(), 10, true);
    with_worker(&mut actor, "a");
    assert!(matches!(
        actor.handle_twin_data(twin_data("a", 129, 7_500), 0, true),
        Admission::Deferred { .. }
    ));
    assert!(matches!(
        actor.handle_twin_data(twin_data("a", 128, 7_500), 0, true),
        Admission::Forwarded { .. }
    ));
}

#[test]
fn counters_stop_at_zero() {
    let mut actor = ModelActor::new(model(), 10, true);
    actor.handle_twin_concurrency_reduction(TwinConcurrencyReduction { twin_seed: None });
    assert_eq!(actor.concurrent_new_twins(), 0);
    actor.handle_share_concurrency_reduction(ShareConcurrencyReduction { shares_count: 7 });
    assert_eq!(actor.concurrent_shares(), 0);
    with_worker(&mut actor, "a");
    assert!(matches!(
        actor.handle_twin_data(twin_data("a", 5, 7_500), 0, true),
        Admission::Forwarded { .. }
    ));
    actor.handle_share_concurrency_reduction(ShareConcurrencyReduction { shares_count: 2 });
    assert_eq!(actor.concurrent_shares(), 3);
    actor.handle_share_concurrency_reduction(ShareConcurrencyReduction { shares_count: usize::MAX });
    assert_eq!(actor.concurrent_shares(), 0);
}

#[test]
fn creation_signal_for_an_unknown_seed_only_counts() {
    let mut actor = ModelActor::new(model(), 10, true);
    assert!(matches!(
        actor.handle_twin_data(twin_data("a", 1, 7_500), 0, false),
        Admission::Started { .. }
    ));
    created(&mut actor, "bus x");
    assert_eq!(actor.concurrent_new_twins(), 0);
    assert_eq!(actor.twin_info("bus a"), Some(TwinActorInfo { created: false }));
    assert_eq!(actor.twin_info("bus x"), None);
    assert_eq!(actor.running_twins(), 1);
}

#[test]
fn worker_that_died_while_creating_is_replaced() {
    let mut actor = ModelActor::new(model(), 10, true);
    assert!(matches!(
        actor.handle_twin_data(twin_data("a", 1, 7_500), 0, false),
        Admission::Started { .. }
    ));
    assert_eq!(actor.twin_info("bus a"), Some(TwinActorInfo { created: false }));
    // The worker is gone and its last signal has not arrived yet.
    match actor.handle_twin_data(twin_data("a", 1, 7_500), 500, false) {
        Admission::Started { twin, .. } => assert_eq!(twin.seed, "bus a"),
        other => panic!("unexpected admission: {:?}", other),
    }
    assert_eq!(actor.running_twins(), 1);
    assert_eq!(actor.twin_info("bus a"), Some(TwinActorInfo { created: false }));
    assert_eq!(actor.concurrent_new_twins(), 2);
}

#[test]
fn worker_whose_creation_failed_is_replaced_on_the_next_tick() {
    let mut actor = ModelActor::new(model(), 10, true);
    let twin = match actor.handle_twin_data(twin_data("X", 1, 7_500), 0, false) {
        Admission::Started { twin, .. } => twin,
        other => panic!("unexpected admission: {:?}", other),
    };
    assert_eq!(twin.seed, "bus X");
    let mut worker = TwinActor::new(twin, model(), 0);
    worker.started("1970-01-01T00:00:00Z");
    let (signal, action) = worker.handle_twin_creation_failure(
        &twin_connector::messages::TwinCreationFailure {
            twin_label: "Bus X".to_string(),
            error: "upsert failed".to_string(),
        },
    );
    assert_eq!(signal, TwinConcurrencyReduction { twin_seed: Some("bus X".to_string()) });
    assert_eq!(action, WorkerAction::Stop);
    let signals = worker.stopping();
    assert_eq!(signals.creation, None);
    assert_eq!(signals.shares, None);
    actor.handle_twin_concurrency_reduction(signal);
    assert_eq!(actor.concurrent_new_twins(), 0);

    // The next tick brings the same source entity; its worker no longer answers.
    match actor.handle_twin_data(twin_data("X", 1, 17_500), 10_000, false) {
        Admission::Started { twin, .. } => assert_eq!(twin.seed, "bus X"),
        other => panic!("unexpected admission: {:?}", other),
    }
    assert_eq!(actor.running_twins(), 1);
    assert_eq!(actor.twin_info("bus X"), Some(TwinActorInfo { created: false }));
    assert_eq!(actor.concurrent_new_twins(), 1);
}

#[test]
fn stalled_tick_drops_every_record() {
    let mut actor = ModelActor::new(model(), 1, true);
    actor.handle_get_data(&GetData { model_did: MODEL_DID.to_string() });
    let records: Vec<ConnectorData> = (0..10).map(|i| record(&format!("r{}", i), 1)).collect();
    let tick = actor.fan_out(MODEL_DID, records, 5_000);
    assert_eq!(tick.twin_data.len(), 10);
    for message in tick.twin_data {
        assert_eq!(message.expire_time, 5_750);
        assert_eq!(actor.handle_twin_data(message, 6_000, false), Admission::Expired);
    }
    assert_eq!(actor.running_twins(), 0);
    assert_eq!(actor.previously_unhandled_twins(), 10);
    let report = actor.handle_get_data(&GetData { model_did: MODEL_DID.to_string() });
    assert_eq!(
        report,
        TickReport {
            running_twins: 0,
            previously_unhandled_twins: 10,
            concurrent_new_twins: 0,
            concurrent_shares: 0,
        }
    );
    assert_eq!(actor.previously_unhandled_twins(), 0);
}

#[test]
fn tick_report_leaves_registry_and_counters_alone() {
    let mut actor = ModelActor::new(model(), 10, true);
    with_worker(&mut actor, "a");
    assert!(matches!(
        actor.handle_twin_data(twin_data("b", 1, 7_500), 0, false),
        Admission::Started { .. }
    ));
    assert!(matches!(
        actor.handle_twin_data(twin_data("a", 3, 7_500), 0, true),
        Admission::Forwarded { .. }
    ));
    let report = actor.handle_get_data(&GetData { model_did: MODEL_DID.to_string() });
    assert_eq!(
        report,
        TickReport {
            running_twins: 2,
            previously_unhandled_twins: 0,
            concurrent_new_twins: 1,
            concurrent_shares: 3,
        }
    );
    assert_eq!(actor.running_twins(), 2);
    assert_eq!(actor.concurrent_new_twins(), 1);
    assert_eq!(actor.concurrent_shares(), 3);
}

#[test]
fn heartbeat_reports_the_records_of_the_tick() {
    let actor = ModelActor::new(model(), 10, true);
    let tick = actor.fan_out(MODEL_DID, vec![record("a", 1), record("b", 1), record("c", 1)], 0);
    let share = actor.handle_heartbeat(&tick.heartbeat, 1_714_979_289_000).unwrap();
    assert_eq!(share.twin_did, MODEL_DID);
    assert_eq!(share.feed_id, "heartbeat");
    assert!(share.retain_last);
    assert_eq!(
        String::from_utf8(share.payload).unwrap(),
        "{\"timestamp\":\"2024-05-06T07:08:09Z\",\"shares\":3}"
    );
}

#[test]
fn heartbeat_share_takes_the_timestamp_as_given() {
    let share = ModelActor::heartbeat_share(MODEL_DID, 12, "2024-05-06T07:08:09.25Z");
    assert_eq!(share.twin_did, MODEL_DID);
    assert_eq!(share.feed_id, "heartbeat");
    assert!(share.retain_last);
    assert_eq!(
        String::from_utf8(share.payload).unwrap(),
        "{\"timestamp\":\"2024-05-06T07:08:09.25Z\",\"shares\":12}"
    );
}

#[test]
fn heartbeat_needs_a_time_that_can_be_written() {
    let actor = ModelActor::new(model(), 10, true);
    let message = HeartbeatData { model_did: MODEL_DID.to_string(), shares: 3 };
    assert_eq!(actor.handle_heartbeat(&message, u64::MAX), None);
}

#[test]
fn cleanup_strikes_dead_workers_and_asks_the_live_ones() {
    let mut actor = ModelActor::new(model(), 10, true);
    for id in ["a", "b", "c"] {
        with_worker(&mut actor, id);
    }
    let sweep = actor.handle_cleanup(&vec!["bus b".to_string(), "bus z".to_string()]);
    assert_eq!(sweep.message, Cleanup { delete_twins: true, cleanup_every_millis: 35_000 });
    assert_eq!(sweep.live, vec!["bus a".to_string(), "bus c".to_string()]);
    assert_eq!(actor.running_twins(), 2);
    assert_eq!(actor.twin_info("bus b"), None);
    assert_eq!(actor.twin_info("bus a"), Some(TwinActorInfo { created: true }));
    assert_eq!(actor.concurrent_new_twins(), 0);
    assert_eq!(actor.concurrent_shares(), 0);
}

#[test]
fn cleanup_of_an_empty_registry_asks_nobody() {
    let mut actor = ModelActor::new(model(), 2, false);
    let sweep = actor.handle_cleanup(&Vec::new());
    assert_eq!(sweep.message, Cleanup { delete_twins: false, cleanup_every_millis: 7_000 });
    assert!(sweep.live.is_empty());
}

/// Runs a tick of `records` records of one sample each to its end. Every
/// pending message is looked at once in each round, and the clock advances
/// by `step` between two rounds. Whenever a message has to wait, the
/// creations and the shares in flight complete before the next message is
/// looked at. Returns how many records reached a worker and how many were
/// dropped.
fn run_tick(actor: &mut ModelActor, records: usize, now: u64, step: u64) -> (usize, usize) {
    actor.handle_get_data(&GetData { model_did: MODEL_DID.to_string() });
    let data: Vec<ConnectorData> = (0..records).map(|i| record(&format!("r{}", i), 1)).collect();
    let tick = actor.fan_out(MODEL_DID, data, now);
    assert_eq!(tick.heartbeat.shares, records as u64);
    let mut pending: Vec<TwinData> = tick.twin_data;
    let mut live: std::collections::HashSet<String> = std::collections::HashSet::new();
    let mut creating: Vec<String> = Vec::new();
    let mut sharing = 0;
    let mut forwarded = 0;
    let mut dropped = 0;
    let mut clock = now;
    while !pending.is_empty() {
        let mut waiting: Vec<TwinData> = Vec::new();
        for message in pending {
            let seed = format!("bus {}", message.data.id);
            let connected = live.contains(&seed);
            match actor.handle_twin_data(message, clock, connected) {
                Admission::Expired => dropped += 1,
                Admission::Deferred { message, delay_millis } => {
                    assert_eq!(delay_millis, 500);
                    waiting.push(message);
                    for seed in creating.drain(..) {
                        created(actor, &seed);
                    }
                    actor.handle_share_concurrency_reduction(ShareConcurrencyReduction {
                        shares_count: sharing,
                    });
                    sharing = 0;
                }
                Admission::Started { twin, message, .. } => {
                    live.insert(twin.seed.clone());
                    creating.push(twin.seed);
                    waiting.push(message);
                }
                Admission::Forwarded { message, .. } => {
                    sharing += message.data.feeds.len();
                    forwarded += 1;
                }
            }
            assert!(actor.concurrent_shares() <= CONCURRENT_SHARES_LIMIT);
            assert_eq!(actor.concurrent_shares(), sharing);
            assert!(actor.concurrent_new_twins() <= CONCURRENT_NEW_TWINS_LIMIT + 1);
            assert_eq!(actor.concurrent_new_twins(), creating.len());
        }
        pending = waiting;
        clock += step;
    }
    for seed in creating.drain(..) {
        created(actor, &seed);
    }
    actor.handle_share_concurrency_reduction(ShareConcurrencyReduction { shares_count: sharing });
    (forwarded, dropped)
}

#[test]
fn large_tick_loses_no_record_before_the_deadline() {
    let mut actor = ModelActor::new(model(), 1, true);
    // The clock stands still: no record can expire.
    let (forwarded, dropped) = run_tick(&mut actor, 5000, 1_000, 0);
    assert_eq!((forwarded, dropped), (5000, 0));
    assert_eq!(actor.running_twins(), 5000);
    assert_eq!(actor.concurrent_shares(), 0);
    assert_eq!(actor.concurrent_new_twins(), 0);
    assert_eq!(actor.previously_unhandled_twins(), 0);
}

#[test]
fn large_tick_drops_what_the_deadline_overtakes() {
    let mut actor = ModelActor::new(model(), 1, true);
    let (forwarded, dropped) = run_tick(&mut actor, 5000, 1_000, 500);
    assert_eq!(forwarded + dropped, 5000);
    assert!(dropped > 0);
    assert!(forwarded > 0);
    assert_eq!(actor.previously_unhandled_twins(), dropped);
    assert_eq!(actor.concurrent_shares(), 0);
    assert_eq!(actor.concurrent_new_twins(), 0);
}

#[test]
fn poll_delay_of_any_interval() {
    assert_eq!(poll_delay_millis(1, 250), 750);
    assert_eq!(poll_delay_millis(0, 0), 0);
    assert_eq!(poll_delay_millis(0, 1), 0);
    assert_eq!(poll_delay_millis(3, 3_000), 0);
    assert_eq!(poll_delay_millis(u64::MAX, u64::MAX), u64::MAX as u128 * 999);
}

#[test]
fn tick_report_tells_of_work_left_over() {
    let quiet = TickReport {
        running_twins: 3,
        previously_unhandled_twins: 9,
        concurrent_new_twins: 0,
        concurrent_shares: 0,
    };
    assert!(!quiet.has_residue());
    assert!(TickReport { concurrent_new_twins: 1, ..quiet }.has_residue());
    assert!(TickReport { concurrent_shares: 1, ..quiet }.has_residue());
}

#[test]
fn deleted_worker_is_struck_on_the_next_sweep() {
    let mut actor = ModelActor::new(model(), 10, true);
    let twin = match actor.handle_twin_data(twin_data("a", 0, 7_500), 0, false) {
        Admission::Started { twin, .. } => twin,
        other => panic!("unexpected admission: {:?}", other),
    };
    let mut worker = TwinActor::new(twin, model(), 0);
    worker.started("1970-01-01T00:00:00Z");
    let signal = worker.handle_twin_creation_success(
        twin_connector::messages::TwinCreationSuccess { twin_did: "did:iotics:a".to_string() },
    );
    actor.handle_twin_concurrency_reduction(signal);

    // An hour goes by without data.
    let hour: u64 = 3_600_000;
    let sweep = actor.handle_cleanup(&Vec::new());
    assert_eq!(sweep.live, vec!["bus a".to_string()]);
    assert_eq!(sweep.message, Cleanup { delete_twins: true, cleanup_every_millis: 35_000 });
    assert_eq!(
        worker.handle_cleanup(sweep.message, hour),
        CleanupAction::Delete { twin_did: "did:iotics:a".to_string() }
    );
    let deleted = worker.deletion_report(true).unwrap();
    assert_eq!(worker.handle_twin_deleted(deleted), WorkerAction::Stop);
    let signals = worker.stopping();
    assert_eq!(signals.creation, None);
    assert_eq!(signals.shares, None);

    // The worker no longer answers.
    let sweep = actor.handle_cleanup(&vec!["bus a".to_string()]);
    assert!(sweep.live.is_empty());
    assert_eq!(actor.running_twins(), 0);
    assert_eq!(actor.twin_info("bus a"), None);
}

#[test]
fn every_event_leaves_the_counters_within_their_caps() {
    let mut actor = ModelActor::new(model(), 10, true);
    let ids = ["a", "b", "c", "d", "e", "f", "g"];
    let mut step: u64 = 0;
    for round in 0..200 {
        let id = ids[round % ids.len()];
        let samples = (round * 37) % 140;
        let connected = round % 3 != 0;
        actor.handle_twin_data(twin_data(id, samples, 1_000_000), step, connected);
        if round % 4 == 0 {
            created(&mut actor, &format!("bus {}", id));
        }
        if round % 5 == 0 {
            actor.handle_share_concurrency_reduction(ShareConcurrencyReduction {
                shares_count: (round * 11) % 90,
            });
        }
        if round % 17 == 0 {
            actor.handle_cleanup(&vec![format!("bus {}", ids[(round / 17) % ids.len()])]);
        }
        if round % 50 == 0 {
            actor.handle_get_data(&GetData { model_did: MODEL_DID.to_string() });
        }
        assert!(actor.concurrent_new_twins() <= CONCURRENT_NEW_TWINS_LIMIT + 1);
        assert!(actor.concurrent_shares() <= CONCURRENT_SHARES_LIMIT);
        assert!(actor.running_twins() <= ids.len());
        step += 10;
    }
}
