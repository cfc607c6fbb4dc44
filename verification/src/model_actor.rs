//! The supervisor of one model: it fans the records of each tick out,
//! admits them under the concurrency caps, keeps the registry of workers
//! and the two counters, and reports the heartbeat.
//!
//! The supervisor here is a state machine. Each handler takes the state, a
//! message and what the outside world has to tell (the time, whether a
//! worker still answers), and gives back what is to be done; whoever runs
//! the supervisor does it and hands the next message in.

use vstd::prelude::*;
use vstd::string::*;
use vstd::utf8::encode_utf8;

use crate::client::{views, FeedShare, FeedShareView, TwinUpsert, TwinUpsertView};
use crate::connector::{ConnectorData, ConnectorDataView};
use crate::constants::{
    CLEANUP_MILLIS_PER_SEC, CONCURRENT_NEW_TWINS_LIMIT, CONCURRENT_SHARES_LIMIT,
    HEARTBEAT_FEED_ID, MILLIS_PER_SEC, RESCHEDULE_DELAY_MILLIS, TICK_CAP_MILLIS_PER_SEC,
};
use crate::messages::{
    Cleanup, GetData, HeartbeatData, ShareConcurrencyReduction, TwinConcurrencyReduction, TwinData,
};
use crate::model::{model_name, prefixed, twin_label_text, Model, ModelView};
use crate::payload::{heartbeat_payload, heartbeat_text};
pub use crate::registry::TwinActorInfo;
use crate::registry::{
    info_of, lemma_marked_created, lemma_with_entry, lemma_without_seeds, marked_created,
    seeds_of, with_entry, without_seeds, TwinRegistry,
};
use crate::timestamp::{nanos_of, rfc3339_timestamp, rfc3339_utc};
use crate::twin::{Twin, TwinView};

verus! {

/// The tick deadline of the records polled at `now`, in milliseconds since
/// the Unix epoch: three quarters of the fetch interval later.
pub open spec fn tick_deadline(now: u64, fetch_every_secs: u64) -> int {
    now + fetch_every_secs * TICK_CAP_MILLIS_PER_SEC
}

/// The time between two cleanups, in milliseconds: three and a half fetch
/// intervals.
pub open spec fn cleanup_interval(fetch_every_secs: u64) -> int {
    fetch_every_secs * CLEANUP_MILLIS_PER_SEC
}

/// The time to wait before the next poll, in milliseconds, when the last one
/// took `elapsed_millis`: what is left of the fetch interval, and nothing
/// when the poll took longer.
pub open spec fn poll_delay(fetch_every_secs: u64, elapsed_millis: u64) -> int {
    if fetch_every_secs * MILLIS_PER_SEC >= elapsed_millis {
        fetch_every_secs * MILLIS_PER_SEC - elapsed_millis
    } else {
        0
    }
}

/// `count` less `by`, and zero where `by` is the larger.
pub open spec fn reduced(count: nat, by: nat) -> nat {
    if count >= by {
        (count - by) as nat
    } else {
        0
    }
}

/// What becomes of a record at admission.
pub enum Verdict {
    /// Its tick deadline has passed: it is dropped.
    Expired,
    /// It has to wait, and is looked at again after the reschedule delay.
    Deferred,
    /// A worker is started for its twin; the record itself waits until the
    /// worker has its twin.
    Started,
    /// It goes to the worker of its twin.
    Forwarded,
}

/// What changes the state of a supervisor.
pub enum ModelEvent {
    /// A tick begins.
    GetData,
    /// A record comes up for admission at `now`; `connected` tells whether
    /// the worker registered for its twin, if there is one, still answers.
    TwinData { data: ConnectorDataView, expire_time: u128, now: u64, connected: bool },
    /// One creation is no longer in flight.
    TwinConcurrencyReduction { twin_seed: Option<Seq<char>> },
    /// `shares_count` samples are no longer in flight.
    ShareConcurrencyReduction { shares_count: nat },
    /// A sweep strikes the workers whose seed is among `dead`.
    Cleanup { dead: Seq<Seq<char>> },
}

/// What a [`ModelActor`] holds.
pub struct ModelActorView {
    pub model: ModelView,
    pub fetch_every_secs: u64,
    pub delete_twins: bool,
    pub twins: Seq<(Seq<char>, TwinActorInfo)>,
    pub concurrent_new_twins: nat,
    pub concurrent_shares: nat,
    pub previously_unhandled_twins: nat,
}

impl ModelActorView {
    /// Both counters are within what the caps allow: one creation above the
    /// limit of new twins, since a worker is refused only when the limit is
    /// already exceeded, and no share above the limit of shares.
    pub open spec fn within_caps(self) -> bool {
        &&& self.concurrent_new_twins <= CONCURRENT_NEW_TWINS_LIMIT + 1
        &&& self.concurrent_shares <= CONCURRENT_SHARES_LIMIT
    }

    /// The seed of the twin of `data`.
    pub open spec fn seed_of(self, data: ConnectorDataView) -> Seq<char> {
        prefixed(self.model.seed_prefix, data.id)
    }

    /// Whether the twin of `data` needs a new worker: none is registered, or
    /// the one that is no longer answers.
    pub open spec fn needs_worker(self, data: ConnectorDataView, connected: bool) -> bool {
        info_of(self.twins, self.seed_of(data)).is_none() || !connected
    }

    /// What admission decides for `data` at `now`.
    pub open spec fn verdict(
        self,
        data: ConnectorDataView,
        expire_time: u128,
        now: u64,
        connected: bool,
    ) -> Verdict {
        if now > expire_time {
            Verdict::Expired
        } else if self.needs_worker(data, connected) {
            if self.concurrent_new_twins > CONCURRENT_NEW_TWINS_LIMIT {
                Verdict::Deferred
            } else {
                Verdict::Started
            }
        } else if !info_of(self.twins, self.seed_of(data)).unwrap().created
            || self.concurrent_shares + data.feeds.len() > CONCURRENT_SHARES_LIMIT {
            Verdict::Deferred
        } else {
            Verdict::Forwarded
        }
    }

    /// The twin that a new worker for `data` looks after.
    pub open spec fn twin_of(self, model_did: Seq<char>, data: ConnectorDataView) -> TwinView {
        TwinView {
            model_did,
            seed: self.seed_of(data),
            label: twin_label_text(self.model.label_prefix, data.label),
            location: data.location,
        }
    }

    /// The state after admission has decided for `data`.
    pub open spec fn after_twin_data(
        self,
        data: ConnectorDataView,
        expire_time: u128,
        now: u64,
        connected: bool,
    ) -> ModelActorView {
        match self.verdict(data, expire_time, now, connected) {
            Verdict::Expired => ModelActorView {
                previously_unhandled_twins: self.previously_unhandled_twins + 1,
                ..self
            },
            Verdict::Deferred => self,
            Verdict::Started => ModelActorView {
                twins: with_entry(self.twins, self.seed_of(data), TwinActorInfo { created: false }),
                concurrent_new_twins: self.concurrent_new_twins + 1,
                ..self
            },
            Verdict::Forwarded => ModelActorView {
                concurrent_shares: self.concurrent_shares + data.feeds.len(),
                ..self
            },
        }
    }

    /// The state after `event` was handled.
    pub open spec fn after(self, event: ModelEvent) -> ModelActorView {
        match event {
            ModelEvent::GetData => ModelActorView { previously_unhandled_twins: 0, ..self },
            ModelEvent::TwinData { data, expire_time, now, connected } => self.after_twin_data(
                data,
                expire_time,
                now,
                connected,
            ),
            ModelEvent::TwinConcurrencyReduction { twin_seed } => ModelActorView {
                twins: match twin_seed {
                    Some(seed) => marked_created(self.twins, seed),
                    None => self.twins,
                },
                concurrent_new_twins: reduced(self.concurrent_new_twins, 1),
                ..self
            },
            ModelEvent::ShareConcurrencyReduction { shares_count } => ModelActorView {
                concurrent_shares: reduced(self.concurrent_shares, shares_count),
                ..self
            },
            ModelEvent::Cleanup { dead } => ModelActorView {
                twins: without_seeds(self.twins, dead),
                ..self
            },
        }
    }

    /// The state after `events` were handled one after the other.
    pub open spec fn after_all(self, events: Seq<ModelEvent>) -> ModelActorView
        decreases events.len(),
    {
        if events.len() == 0 {
            self
        } else {
            self.after_all(events.drop_last()).after(events.last())
        }
    }

    /// What holds of the supervisor at all times: the counters are within
    /// their caps, and no seed has two workers.
    pub open spec fn in_order(self) -> bool {
        &&& self.within_caps()
        &&& seeds_of(self.twins).no_duplicates()
    }

    /// The upsert that brings the model twin itself up: the model's own
    /// properties, its feeds and the heartbeat feed, no location.
    pub open spec fn model_upsert(self) -> TwinUpsertView {
        TwinUpsertView {
            seed: model_name(self.model.seed_prefix),
            properties: self.model.model_properties,
            feeds: self.model.feeds_with(true),
            location: None,
            visibility: self.model.visibility,
        }
    }
}

/// The share that reports `shares` records on the heartbeat feed of the
/// model twin `model_did` at the time that `timestamp` gives.
pub open spec fn heartbeat_share_of(
    model_did: Seq<char>,
    shares: u64,
    timestamp: Seq<char>,
) -> FeedShareView {
    FeedShareView {
        twin_did: model_did,
        feed_id: HEARTBEAT_FEED_ID@,
        payload: encode_utf8(heartbeat_text(timestamp, shares as nat)),
        retain_last: true,
    }
}

/// Whatever the supervisor handles, its counters stay within their caps and
/// no seed gets a second worker.
pub proof fn lemma_event_keeps_order(state: ModelActorView, event: ModelEvent)
    requires
        state.in_order(),
    ensures
        state.after(event).in_order(),
{
    match event {
        ModelEvent::TwinData { data, expire_time, now, connected } => {
            lemma_with_entry(
                state.twins,
                state.seed_of(data),
                TwinActorInfo { created: false },
                state.seed_of(data),
            );
        },
        ModelEvent::TwinConcurrencyReduction { twin_seed: Some(seed) } => {
            lemma_marked_created(state.twins, seed, seed);
        },
        ModelEvent::Cleanup { dead } => {
            lemma_without_seeds(state.twins, dead, Seq::empty());
        },
        _ => {},
    }
}

/// From a state that is in order, every run of events leads to states that
/// are in order: at no time are more than the limit and one creations in
/// flight, or more shares than their limit.
pub proof fn lemma_order_holds(state: ModelActorView, events: Seq<ModelEvent>)
    requires
        state.in_order(),
    ensures
        state.after_all(events).in_order(),
    decreases events.len(),
{
    if events.len() > 0 {
        lemma_order_holds(state, events.drop_last());
        lemma_event_keeps_order(state.after_all(events.drop_last()), events.last());
    }
}

/// The count of creations comes down only when a creation is reported done,
/// and the count of shares only when shares are; neither ever falls below
/// zero.
pub proof fn lemma_counters_fall_on_reduction_only(state: ModelActorView, event: ModelEvent)
    ensures
        !(event is TwinConcurrencyReduction) ==> state.after(event).concurrent_new_twins
            >= state.concurrent_new_twins,
        !(event is ShareConcurrencyReduction) ==> state.after(event).concurrent_shares
            >= state.concurrent_shares,
        state.after(event).concurrent_new_twins >= 0,
        state.after(event).concurrent_shares >= 0,
{
}

/// A record goes to its worker only where its samples fit under the limit
/// of shares, and a worker is started only where the creations in flight do
/// not exceed their limit yet.
pub proof fn lemma_admission_respects_caps(
    state: ModelActorView,
    data: ConnectorDataView,
    expire_time: u128,
    now: u64,
    connected: bool,
)
    ensures
        state.verdict(data, expire_time, now, connected) == Verdict::Forwarded ==> {
            &&& state.concurrent_shares + data.feeds.len() <= CONCURRENT_SHARES_LIMIT
            &&& state.after_twin_data(data, expire_time, now, connected).concurrent_shares
                <= CONCURRENT_SHARES_LIMIT
            &&& info_of(state.twins, state.seed_of(data)) == Some(TwinActorInfo { created: true })
        },
        state.verdict(data, expire_time, now, connected) == Verdict::Started ==> state.after_twin_data(
            data,
            expire_time,
            now,
            connected,
        ).concurrent_new_twins <= CONCURRENT_NEW_TWINS_LIMIT + 1,
{
}

/// A record is dropped exactly when its deadline has passed: every other
/// record waits, starts a worker or goes to one.
pub proof fn lemma_only_expired_records_are_dropped(
    state: ModelActorView,
    data: ConnectorDataView,
    expire_time: u128,
    now: u64,
    connected: bool,
)
    ensures
        state.verdict(data, expire_time, now, connected) == Verdict::Expired <==> now
            > expire_time,
{
}

/// A record in time whose worker no longer answers gets a new worker under
/// the same seed, registered as not created yet, unless the creations in
/// flight exceed their limit.
pub proof fn lemma_dead_worker_is_replaced(
    state: ModelActorView,
    data: ConnectorDataView,
    expire_time: u128,
    now: u64,
)
    requires
        seeds_of(state.twins).no_duplicates(),
        now <= expire_time,
        state.concurrent_new_twins <= CONCURRENT_NEW_TWINS_LIMIT,
    ensures
        state.verdict(data, expire_time, now, false) == Verdict::Started,
        info_of(state.after_twin_data(data, expire_time, now, false).twins, state.seed_of(data))
            == Some(TwinActorInfo { created: false }),
        state.after_twin_data(data, expire_time, now, false).twins.len() == if info_of(
            state.twins,
            state.seed_of(data),
        ).is_some() {
            state.twins.len()
        } else {
            state.twins.len() + 1
        },
{
    lemma_with_entry(
        state.twins,
        state.seed_of(data),
        TwinActorInfo { created: false },
        state.seed_of(data),
    );
}

/// Milliseconds to wait before the next poll of a source that is polled
/// every `fetch_every_secs` seconds, when the last poll took
/// `elapsed_millis`.
pub fn poll_delay_millis(fetch_every_secs: u64, elapsed_millis: u64) -> (delay: u128)
    ensures
        delay == poll_delay(fetch_every_secs, elapsed_millis),
{
    assert(fetch_every_secs * MILLIS_PER_SEC <= u128::MAX) by {
        assert(MILLIS_PER_SEC == 1000);
    }
    let interval: u128 = (fetch_every_secs as u128) * (MILLIS_PER_SEC as u128);
    if interval >= elapsed_millis as u128 {
        interval - (elapsed_millis as u128)
    } else {
        0
    }
}

/// What the supervisor tells its operator at the start of a tick.
#[derive(Debug, Clone, Copy, PartialEq, Eq, Structural)]
pub struct TickReport {
    /// Number of registered workers.
    pub running_twins: usize,
    /// Number of records that the last tick dropped as expired.
    pub previously_unhandled_twins: usize,
    /// Creations still in flight; zero when the last tick was done in time.
    pub concurrent_new_twins: usize,
    /// Shares still in flight; zero when the last tick was done in time.
    pub concurrent_shares: usize,
}

impl TickReport {
    /// Whether creations or shares of the last tick are still in flight as
    /// the next one begins, which the operator should hear of.
    pub fn has_residue(&self) -> (residue: bool)
        ensures
            residue == (self.concurrent_new_twins > 0 || self.concurrent_shares > 0),
    {
        self.concurrent_new_twins > 0 || self.concurrent_shares > 0
    }
}

/// What a tick sends to the supervisor itself: one message for each polled
/// record, in the order of the records, and then the heartbeat.
#[derive(Debug, PartialEq, Eq)]
pub struct Tick {
    pub twin_data: Vec<TwinData>,
    pub heartbeat: HeartbeatData,
}

/// What is to be done with a record after admission.
#[derive(Debug, PartialEq, Eq)]
pub enum Admission {
    /// Nothing: the record is dropped.
    Expired,
    /// `message` is to be sent to the supervisor again after `delay_millis`.
    Deferred { message: TwinData, delay_millis: u64 },
    /// A worker is to be started for `twin`, and `message` is to be sent to
    /// the supervisor again after `delay_millis`.
    Started { twin: Twin, message: TwinData, delay_millis: u64 },
    /// `message` is to be sent to the worker registered under `seed`.
    Forwarded { seed: String, message: TwinData },
}

/// What a cleanup sweep leaves to be done: `message` is to be sent to the
/// worker of each seed in `live`.
#[derive(Debug, PartialEq, Eq)]
pub struct CleanupSweep {
    pub message: Cleanup,
    pub live: Vec<String>,
}

/// The state of the supervisor of one model.
#[derive(Debug, PartialEq, Eq)]
pub struct ModelActor {
    model: Model,
    fetch_every_secs: u64,
    delete_twins: bool,
    twins: TwinRegistry,
    concurrent_new_twins: usize,
    concurrent_shares: usize,
    previously_unhandled_twins: usize,
}

impl View for ModelActor {
    type V = ModelActorView;

    closed spec fn view(&self) -> ModelActorView {
        ModelActorView {
            model: self.model@,
            fetch_every_secs: self.fetch_every_secs,
            delete_twins: self.delete_twins,
            twins: self.twins@,
            concurrent_new_twins: self.concurrent_new_twins as nat,
            concurrent_shares: self.concurrent_shares as nat,
            previously_unhandled_twins: self.previously_unhandled_twins as nat,
        }
    }
}

impl ModelActor {
    /// A supervisor that has started no worker and counted nothing yet.
    pub fn new(model: Model, fetch_every_secs: u64, delete_twins: bool) -> (actor: ModelActor)
        ensures
            actor@ == (ModelActorView {
                model: model@,
                fetch_every_secs,
                delete_twins,
                twins: Seq::empty(),
                concurrent_new_twins: 0,
                concurrent_shares: 0,
                previously_unhandled_twins: 0,
            }),
            actor@.in_order(),
    {
        ModelActor {
            model,
            fetch_every_secs,
            delete_twins,
            twins: TwinRegistry::new(),
            concurrent_new_twins: 0,
            concurrent_shares: 0,
            previously_unhandled_twins: 0,
        }
    }

    pub fn model(&self) -> (model: &Model)
        ensures
            model@ == self@.model,
    {
        &self.model
    }

    pub fn fetch_every_secs(&self) -> (secs: u64)
        ensures
            secs == self@.fetch_every_secs,
    {
        self.fetch_every_secs
    }

    pub fn delete_twins(&self) -> (delete: bool)
        ensures
            delete == self@.delete_twins,
    {
        self.delete_twins
    }

    /// Number of creations in flight.
    pub fn concurrent_new_twins(&self) -> (count: usize)
        ensures
            count == self@.concurrent_new_twins,
    {
        self.concurrent_new_twins
    }

    /// Number of feed samples in flight.
    pub fn concurrent_shares(&self) -> (count: usize)
        ensures
            count == self@.concurrent_shares,
    {
        self.concurrent_shares
    }

    /// Number of records dropped as expired since the last tick began.
    pub fn previously_unhandled_twins(&self) -> (count: usize)
        ensures
            count == self@.previously_unhandled_twins,
    {
        self.previously_unhandled_twins
    }

    /// What is registered for the twin `seed`, if anything.
    pub fn twin_info(&self, seed: &str) -> (info: Option<TwinActorInfo>)
        ensures
            info == info_of(self@.twins, seed@),
    {
        let wanted = String::from_str(seed);
        self.twins.get(&wanted)
    }

    /// Number of registered workers, none of which shares its seed with
    /// another.
    pub fn running_twins(&self) -> (count: usize)
        ensures
            count == self@.twins.len(),
            seeds_of(self@.twins).no_duplicates(),
    {
        self.twins.len()
    }

    /// What to upsert to bring the model twin up, once the channels to the
    /// platform stand.
    pub fn model_upsert(&self) -> (upsert: TwinUpsert)
        ensures
            upsert@ == self@.model_upsert(),
    {
        let own = self.model.get_model_properties();
        let properties = own.clone();
        proof {
            assert(properties@ =~= own@);
        }
        TwinUpsert {
            seed: self.model.get_seed(),
            properties,
            feeds: self.model.get_feeds(true),
            location: None,
            visibility: self.model.get_visibility(),
        }
    }

    /// Milliseconds to wait before the next poll when the last one took
    /// `elapsed_millis`.
    pub fn poll_delay_millis(&self, elapsed_millis: u64) -> (delay: u128)
        ensures
            delay == poll_delay(self@.fetch_every_secs, elapsed_millis),
    {
        poll_delay_millis(self.fetch_every_secs, elapsed_millis)
    }

    /// Milliseconds between two cleanups.
    pub fn cleanup_every_millis(&self) -> (interval: u128)
        ensures
            interval == cleanup_interval(self@.fetch_every_secs),
    {
        assert(self.fetch_every_secs * CLEANUP_MILLIS_PER_SEC <= u128::MAX) by {
            assert(CLEANUP_MILLIS_PER_SEC == 3500);
        }
        (self.fetch_every_secs as u128) * (CLEANUP_MILLIS_PER_SEC as u128)
    }

    /// The message with which the cleanup timer starts a sweep.
    pub fn cleanup_message(&self) -> (message: Cleanup)
        ensures
            message.delete_twins == self@.delete_twins,
            message.cleanup_every_millis == cleanup_interval(self@.fetch_every_secs),
    {
        Cleanup { delete_twins: self.delete_twins, cleanup_every_millis: self.cleanup_every_millis() }
    }

    /// Begins a tick: the count of expired records starts again from zero,
    /// and what it and the other counts were goes to the operator. The
    /// registry and the two concurrency counters are left as they are.
    pub fn handle_get_data(&mut self, message: &GetData) -> (report: TickReport)
        ensures
            final(self)@ == old(self)@.after(ModelEvent::GetData),
            report.running_twins == old(self)@.twins.len(),
            report.previously_unhandled_twins == old(self)@.previously_unhandled_twins,
            report.concurrent_new_twins == old(self)@.concurrent_new_twins,
            report.concurrent_shares == old(self)@.concurrent_shares,
            old(self)@.in_order() ==> final(self)@.in_order(),
    {
        proof {
            if self@.in_order() {
                lemma_event_keeps_order(self@, ModelEvent::GetData);
            }
        }
        let report = TickReport {
            running_twins: self.twins.len(),
            previously_unhandled_twins: self.previously_unhandled_twins,
            concurrent_new_twins: self.concurrent_new_twins,
            concurrent_shares: self.concurrent_shares,
        };
        self.previously_unhandled_twins = 0;
        report
    }

    /// Turns what the data source returned at `now` into the messages of the
    /// tick: each record with the tick deadline, and the heartbeat with the
    /// number of records.
    pub fn fan_out(&self, model_did: &str, results: Vec<ConnectorData>, now: u64) -> (tick: Tick)
        ensures
            tick.twin_data@.len() == results@.len(),
            forall|i: int|
                0 <= i < results@.len() ==> {
                    &&& (#[trigger] tick.twin_data@[i]).model_did@ == model_did@
                    &&& tick.twin_data@[i].data == results@[i]
                    &&& tick.twin_data@[i].expire_time == tick_deadline(
                        now,
                        self@.fetch_every_secs,
                    )
                },
            tick.heartbeat.model_did@ == model_did@,
            tick.heartbeat.shares == results@.len(),
    {
        assert(now + self.fetch_every_secs * TICK_CAP_MILLIS_PER_SEC <= u128::MAX) by {
            assert(TICK_CAP_MILLIS_PER_SEC == 750);
        }
        let window: u128 = (self.fetch_every_secs as u128) * (TICK_CAP_MILLIS_PER_SEC as u128);
        let expire_time: u128 = (now as u128) + window;
        let shares: u64 = results.len() as u64;
        let ghost records = results@;
        let mut twin_data: Vec<TwinData> = Vec::new();
        let source = results.into_iter();
        for data in it: source
            invariant
                it.seq() == records,
                twin_data@.len() == it.index(),
                forall|i: int|
                    0 <= i < it.index() ==> {
                        &&& (#[trigger] twin_data@[i]).model_did@ == model_did@
                        &&& twin_data@[i].data == records[i]
                        &&& twin_data@[i].expire_time == expire_time
                    },
        {
            twin_data.push(TwinData { model_did: String::from_str(model_did), data, expire_time });
        }
        Tick { twin_data, heartbeat: HeartbeatData { model_did: String::from_str(model_did), shares } }
    }

    /// Decides what becomes of one record at `now`. `connected` tells
    /// whether the worker registered for the record's twin, if there is one,
    /// still answers.
    ///
    /// A record past its deadline is dropped and counted. A record whose
    /// twin has no worker that answers gets a new worker, unless too many
    /// creations are in flight; the record then waits for the twin. A record
    /// whose twin is not created yet, or whose samples would take the shares
    /// in flight above their limit, waits as well. Every other record goes
    /// to its worker, and its samples count as in flight from then on.
    pub fn handle_twin_data(&mut self, message: TwinData, now: u64, connected: bool) -> (admission:
        Admission)
        requires
            now > message.expire_time ==> old(self)@.previously_unhandled_twins < usize::MAX,
        ensures
            final(self)@ == old(self)@.after(
                ModelEvent::TwinData {
                    data: message@.data,
                    expire_time: message.expire_time,
                    now,
                    connected,
                },
            ),
            match admission {
                Admission::Expired => old(self)@.verdict(
                    message@.data,
                    message.expire_time,
                    now,
                    connected,
                ) == Verdict::Expired,
                Admission::Deferred { message: again, delay_millis } => {
                    &&& old(self)@.verdict(message@.data, message.expire_time, now, connected)
                        == Verdict::Deferred
                    &&& again == message
                    &&& delay_millis == RESCHEDULE_DELAY_MILLIS
                },
                Admission::Started { twin, message: again, delay_millis } => {
                    &&& old(self)@.verdict(message@.data, message.expire_time, now, connected)
                        == Verdict::Started
                    &&& twin@ == old(self)@.twin_of(message.model_did@, message@.data)
                    &&& again == message
                    &&& delay_millis == RESCHEDULE_DELAY_MILLIS
                    &&& final(self)@.concurrent_new_twins <= CONCURRENT_NEW_TWINS_LIMIT + 1
                },
                Admission::Forwarded { seed, message: forwarded } => {
                    &&& old(self)@.verdict(message@.data, message.expire_time, now, connected)
                        == Verdict::Forwarded
                    &&& seed@ == old(self)@.seed_of(message@.data)
                    &&& forwarded == message
                    &&& old(self)@.concurrent_shares + message@.data.feeds.len()
                        <= CONCURRENT_SHARES_LIMIT
                },
            },
            old(self)@.in_order() ==> final(self)@.in_order(),
    {
        proof {
            if self@.in_order() {
                lemma_event_keeps_order(
                    self@,
                    ModelEvent::TwinData {
                        data: message@.data,
                        expire_time: message.expire_time,
                        now,
                        connected,
                    },
                );
            }
        }
        if now as u128 > message.expire_time {
            self.previously_unhandled_twins = self.previously_unhandled_twins + 1;
            return Admission::Expired;
        }
        let seed = self.model.get_twin_seed(message.data.id.as_str());
        let entry = self.twins.get(&seed);
        let start = match entry {
            Some(_) => !connected,
            None => true,
        };
        if start {
            if self.concurrent_new_twins > CONCURRENT_NEW_TWINS_LIMIT {
                return Admission::Deferred { message, delay_millis: RESCHEDULE_DELAY_MILLIS };
            }
            let label = self.model.get_twin_label(message.data.label.as_str());
            let twin = Twin::new(
                message.model_did.clone(),
                seed.clone(),
                label,
                message.data.location,
            );
            self.twins.insert(seed, TwinActorInfo { created: false });
            self.concurrent_new_twins = self.concurrent_new_twins + 1;
            return Admission::Started { twin, message, delay_millis: RESCHEDULE_DELAY_MILLIS };
        }
        let info = entry.unwrap();
        let samples = message.data.feeds.len();
        if !info.created || self.concurrent_shares > CONCURRENT_SHARES_LIMIT || samples
            > CONCURRENT_SHARES_LIMIT - self.concurrent_shares {
            return Admission::Deferred { message, delay_millis: RESCHEDULE_DELAY_MILLIS };
        }
        self.concurrent_shares = self.concurrent_shares + samples;
        Admission::Forwarded { seed, message }
    }

    /// Takes note that one creation is no longer in flight: the worker
    /// named, if it is registered, counts as created from now on, and the
    /// count of creations goes down by one, but not below zero.
    pub fn handle_twin_concurrency_reduction(&mut self, message: TwinConcurrencyReduction)
        ensures
            final(self)@ == old(self)@.after(
                ModelEvent::TwinConcurrencyReduction { twin_seed: message.seed() },
            ),
            old(self)@.in_order() ==> final(self)@.in_order(),
    {
        proof {
            if self@.in_order() {
                lemma_event_keeps_order(
                    self@,
                    ModelEvent::TwinConcurrencyReduction { twin_seed: message.seed() },
                );
            }
        }
        match &message.twin_seed {
            Some(seed) => {
                self.twins.mark_created(seed);
            },
            None => {},
        }
        if self.concurrent_new_twins > 0 {
            self.concurrent_new_twins = self.concurrent_new_twins - 1;
        }
    }

    /// Takes note that `shares_count` samples are no longer in flight: the
    /// count of shares goes down by as many, but not below zero.
    pub fn handle_share_concurrency_reduction(&mut self, message: ShareConcurrencyReduction)
        ensures
            final(self)@ == old(self)@.after(
                ModelEvent::ShareConcurrencyReduction { shares_count: message.shares_count as nat },
            ),
            old(self)@.in_order() ==> final(self)@.in_order(),
    {
        if self.concurrent_shares >= message.shares_count {
            self.concurrent_shares = self.concurrent_shares - message.shares_count;
        } else {
            self.concurrent_shares = 0;
        }
    }

    /// The share that reports `shares` records on the heartbeat feed of the
    /// model twin `model_did`, at the time that `timestamp` gives.
    pub fn heartbeat_share(model_did: &str, shares: u64, timestamp: &str) -> (share: FeedShare)
        ensures
            share@ == heartbeat_share_of(model_did@, shares, timestamp@),
    {
        FeedShare {
            twin_did: String::from_str(model_did),
            feed_id: String::from_str(HEARTBEAT_FEED_ID),
            payload: heartbeat_payload(timestamp, shares),
            retain_last: true,
        }
    }

    /// The share with which the model twin reports the tick at `now`. There
    /// is none where `now` cannot be written as a timestamp.
    pub fn handle_heartbeat(&self, message: &HeartbeatData, now: u64) -> (share: Option<FeedShare>)
        ensures
            match rfc3339_utc(nanos_of(now)) {
                Some(timestamp) => share.is_some() && share.unwrap()@ == heartbeat_share_of(
                    message.model_did@,
                    message.shares,
                    timestamp,
                ),
                None => share.is_none(),
            },
    {
        match rfc3339_timestamp(now) {
            Some(timestamp) => Some(
                ModelActor::heartbeat_share(
                    message.model_did.as_str(),
                    message.shares,
                    timestamp.as_str(),
                ),
            ),
            None => None,
        }
    }

    /// Sweeps the registry: the workers whose seed is among `dead`, those
    /// that no longer answer, are struck, and every other worker is to be
    /// asked to clean up.
    pub fn handle_cleanup(&mut self, dead: &Vec<String>) -> (sweep: CleanupSweep)
        ensures
            final(self)@ == old(self)@.after(ModelEvent::Cleanup { dead: views(dead@) }),
            views(sweep.live@) == seeds_of(final(self)@.twins),
            sweep.message.delete_twins == old(self)@.delete_twins,
            sweep.message.cleanup_every_millis == cleanup_interval(old(self)@.fetch_every_secs),
            old(self)@.in_order() ==> final(self)@.in_order(),
    {
        proof {
            if self@.in_order() {
                lemma_event_keeps_order(self@, ModelEvent::Cleanup { dead: views(dead@) });
            }
        }
        self.twins.remove_all(dead);
        CleanupSweep { message: self.cleanup_message(), live: self.twins.seeds() }
    }
}

} // verus!
