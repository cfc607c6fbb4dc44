//! The worker of one twin: it has the twin created, publishes what the
//! supervisor forwards, and tells the supervisor what is no longer in
//! flight, also when it stops in the middle of it.
//!
//! Like the supervisor, the worker is a state machine: each handler gives
//! back what is to be done on the platform and what is to be sent.

use vstd::prelude::*;
use vstd::string::*;
use vstd::utf8::encode_utf8;

use crate::client::{
    replacement_of, views, FeedShare, FeedShareView, PropertyUpdate, TwinUpsert, TwinUpsertView,
};
use crate::messages::{
    Cleanup, ShareConcurrencyReduction, TwinConcurrencyReduction, TwinCreationFailure,
    TwinCreationSuccess, TwinData, TwinDeleted,
};
use crate::model::{twin_properties, Model, ModelView};
use crate::model_actor::reduced;
use crate::payload::sample_payload;
use crate::twin::{Twin, TwinView};

verus! {

/// What a [`TwinActor`] holds.
pub struct TwinActorView {
    pub twin: TwinView,
    pub model: ModelView,
    pub twin_did: Option<Seq<char>>,
    pub last_data_received_at: u64,
    pub creation_in_flight: bool,
    pub shares_in_flight: nat,
}

/// What can reach a worker once it has started.
pub enum WorkerEvent {
    /// The twin exists under `twin_did`.
    CreationSuccess { twin_did: Seq<char> },
    /// The twin could not be created.
    CreationFailure,
    /// A record with `samples` feed samples arrived at `now`.
    TwinData { samples: nat, now: u64 },
    /// `count` samples were published.
    SharesDone { count: nat },
    /// The supervisor asked for a cleanup.
    Cleanup,
    /// The platform deleted the twin.
    TwinDeleted,
}

impl WorkerEvent {
    /// Whether the event reports how the creation of the twin ended.
    pub open spec fn reports_creation(self) -> bool {
        self is CreationSuccess || self is CreationFailure
    }
}

impl TwinActorView {
    /// The state once the worker has started: the creation is in flight.
    pub open spec fn after_started(self) -> TwinActorView {
        TwinActorView { creation_in_flight: true, ..self }
    }

    /// The state after `event` was handled.
    pub open spec fn after(self, event: WorkerEvent) -> TwinActorView {
        match event {
            WorkerEvent::CreationSuccess { twin_did } => TwinActorView {
                twin_did: Some(twin_did),
                creation_in_flight: false,
                ..self
            },
            WorkerEvent::CreationFailure => TwinActorView { creation_in_flight: false, ..self },
            WorkerEvent::TwinData { samples, now } => TwinActorView {
                shares_in_flight: self.shares_in_flight + samples,
                last_data_received_at: now,
                ..self
            },
            WorkerEvent::SharesDone { count } => TwinActorView {
                shares_in_flight: reduced(self.shares_in_flight, count),
                ..self
            },
            WorkerEvent::Cleanup => self,
            WorkerEvent::TwinDeleted => self,
        }
    }

    /// The state after `events` were handled one after the other.
    pub open spec fn after_all(self, events: Seq<WorkerEvent>) -> TwinActorView
        decreases events.len(),
    {
        if events.len() == 0 {
            self
        } else {
            self.after_all(events.drop_last()).after(events.last())
        }
    }

    /// Whether the worker has been without data for longer than `message`
    /// allows, at `now`.
    pub open spec fn idle_past(self, message: Cleanup, now: u64) -> bool {
        now > self.last_data_received_at + message.cleanup_every_millis
    }

    /// The upsert that creates the twin, made at the time that `timestamp`
    /// gives.
    pub open spec fn creation(self, timestamp: Seq<char>) -> TwinUpsertView {
        TwinUpsertView {
            seed: self.twin.seed,
            properties: twin_properties(
                self.model.twin_properties,
                self.twin.model_did,
                self.twin.label,
                timestamp,
            ),
            feeds: self.model.feeds_with(false),
            location: self.twin.location,
            visibility: self.model.visibility,
        }
    }

    /// Number of creation signals that stopping in this state sends.
    pub open spec fn creation_signals_on_stop(self) -> nat {
        if self.creation_in_flight {
            1
        } else {
            0
        }
    }
}

/// Number of events among `events` that report how the creation ended. The
/// worker sends the supervisor one creation signal for each of them.
pub open spec fn creation_reports(events: Seq<WorkerEvent>) -> nat
    decreases events.len(),
{
    if events.len() == 0 {
        0
    } else {
        creation_reports(events.drop_last()) + if events.last().reports_creation() {
            1nat
        } else {
            0nat
        }
    }
}

/// The creation is in flight after `events` exactly when it was in flight
/// before and none of them reports how it ended.
proof fn lemma_in_flight_until_reported(start: TwinActorView, events: Seq<WorkerEvent>)
    ensures
        start.after_all(events).creation_in_flight == (start.creation_in_flight
            && creation_reports(events) == 0),
    decreases events.len(),
{
    if events.len() > 0 {
        lemma_in_flight_until_reported(start, events.drop_last());
    }
}

/// Over the life of a worker that was started, the supervisor gets exactly
/// one creation signal: from the report of how the creation ended, which
/// comes once at most, or else from the worker's stopping.
pub proof fn lemma_one_creation_signal(fresh: TwinActorView, events: Seq<WorkerEvent>)
    requires
        creation_reports(events) <= 1,
    ensures
        creation_reports(events) + fresh.after_started().after_all(
            events,
        ).creation_signals_on_stop() == 1,
{
    lemma_in_flight_until_reported(fresh.after_started(), events);
}

/// A worker that was never started, and so never hears of a creation, sends
/// no creation signal.
pub proof fn lemma_no_creation_signal_unstarted(fresh: TwinActorView, events: Seq<WorkerEvent>)
    requires
        !fresh.creation_in_flight,
        creation_reports(events) == 0,
    ensures
        creation_reports(events) + fresh.after_all(events).creation_signals_on_stop() == 0,
{
    lemma_in_flight_until_reported(fresh, events);
}

/// The share of the sample `sample` on its feed of the twin `twin_did`.
pub open spec fn sample_share(twin_did: Seq<char>, sample: (Seq<char>, Seq<char>)) -> FeedShareView {
    FeedShareView {
        twin_did,
        feed_id: sample.0,
        payload: encode_utf8(sample.1),
        retain_last: true,
    }
}

/// The shares of `samples`, in order.
pub open spec fn sample_shares(
    twin_did: Seq<char>,
    samples: Seq<(Seq<char>, Seq<char>)>,
) -> Seq<FeedShareView> {
    Seq::new(samples.len(), |i: int| sample_share(twin_did, samples[i]))
}

/// Whether a worker goes on after a message.
#[derive(Debug, Clone, Copy, PartialEq, Eq, Structural)]
pub enum WorkerAction {
    Continue,
    Stop,
}

/// What a worker sends itself once the attempt to create its twin is over.
#[derive(Debug, PartialEq, Eq)]
pub enum CreationReport {
    Success(TwinCreationSuccess),
    Failure(TwinCreationFailure),
}

/// What a worker does on a cleanup.
#[derive(Debug, PartialEq, Eq)]
pub enum CleanupAction {
    /// It goes on: data came in not long ago.
    Keep,
    /// It stops at once.
    Stop,
    /// It has the twin `twin_did` deleted, and stops once the platform has
    /// done so.
    Delete { twin_did: String },
}

/// What a worker publishes for one record: the shares, in the order of the
/// record's samples, then the update of the properties where the record has
/// any, and after all of that `done`, which the worker sends to itself.
#[derive(Debug, PartialEq, Eq)]
pub struct Publication {
    pub twin_did: String,
    pub shares: Vec<FeedShare>,
    pub update: Option<PropertyUpdate>,
    pub done: ShareConcurrencyReduction,
}

/// What a stopping worker sends the supervisor.
#[derive(Debug, PartialEq, Eq)]
pub struct StopSignals {
    pub creation: Option<TwinConcurrencyReduction>,
    pub shares: Option<ShareConcurrencyReduction>,
}

/// The state of the worker of one twin.
#[derive(Debug, PartialEq, Eq)]
pub struct TwinActor {
    twin: Twin,
    model: Model,
    twin_did: Option<String>,
    last_data_received_at: u64,
    creation_in_flight: bool,
    shares_in_flight: usize,
}

impl View for TwinActor {
    type V = TwinActorView;

    closed spec fn view(&self) -> TwinActorView {
        TwinActorView {
            twin: self.twin@,
            model: self.model@,
            twin_did: match self.twin_did {
                Some(did) => Some(did@),
                None => None,
            },
            last_data_received_at: self.last_data_received_at,
            creation_in_flight: self.creation_in_flight,
            shares_in_flight: self.shares_in_flight as nat,
        }
    }
}

impl TwinActor {
    /// A worker for `twin`, made at `now`: nothing is in flight, and the
    /// twin has no identifier yet.
    pub fn new(twin: Twin, model: Model, now: u64) -> (actor: TwinActor)
        ensures
            actor@ == (TwinActorView {
                twin: twin@,
                model: model@,
                twin_did: None,
                last_data_received_at: now,
                creation_in_flight: false,
                shares_in_flight: 0,
            }),
    {
        TwinActor {
            twin,
            model,
            twin_did: None,
            last_data_received_at: now,
            creation_in_flight: false,
            shares_in_flight: 0,
        }
    }

    pub fn twin(&self) -> (twin: &Twin)
        ensures
            twin@ == self@.twin,
    {
        &self.twin
    }

    /// The identifier of the twin, once it is created.
    pub fn twin_did(&self) -> (twin_did: Option<&String>)
        ensures
            match twin_did {
                Some(did) => self@.twin_did == Some(did@),
                None => self@.twin_did.is_none(),
            },
    {
        match &self.twin_did {
            Some(did) => Some(did),
            None => None,
        }
    }

    /// Whether the creation of the twin is in flight.
    pub fn creation_in_flight(&self) -> (in_flight: bool)
        ensures
            in_flight == self@.creation_in_flight,
    {
        self.creation_in_flight
    }

    /// Number of samples being published.
    pub fn shares_in_flight(&self) -> (count: usize)
        ensures
            count == self@.shares_in_flight,
    {
        self.shares_in_flight
    }

    /// When the last record arrived, in milliseconds since the Unix epoch.
    pub fn last_data_received_at(&self) -> (at: u64)
        ensures
            at == self@.last_data_received_at,
    {
        self.last_data_received_at
    }

    fn creation_signal(&self) -> (signal: TwinConcurrencyReduction)
        ensures
            signal.seed() == Some(self@.twin.seed),
    {
        TwinConcurrencyReduction { twin_seed: Some(self.twin.seed.clone()) }
    }

    /// Starts the worker: the creation of the twin is in flight from now on,
    /// and the upsert that creates it is handed back. `timestamp` is the
    /// time of the start as text.
    pub fn started(&mut self, timestamp: &str) -> (upsert: TwinUpsert)
        ensures
            final(self)@ == old(self)@.after_started(),
            upsert@ == old(self)@.creation(timestamp@),
    {
        self.creation_in_flight = true;
        TwinUpsert {
            seed: self.twin.seed.clone(),
            properties: self.model.build_twin_properties(
                self.twin.model_did.as_str(),
                self.twin.label.as_str(),
                timestamp,
            ),
            feeds: self.model.get_feeds(false),
            location: self.twin.location,
            visibility: self.model.get_visibility(),
        }
    }

    /// What the worker sends itself when the attempt to create its twin has
    /// ended: the identifier of the twin where it succeeded, and the label
    /// of the twin with the text of the error where it failed.
    pub fn creation_report(&self, outcome: Result<String, String>) -> (report: CreationReport)
        ensures
            match outcome {
                Ok(twin_did) => report == CreationReport::Success(
                    TwinCreationSuccess { twin_did },
                ),
                Err(error) => report matches CreationReport::Failure(failure)
                    && failure.twin_label@ == self@.twin.label && failure.error == error,
            },
    {
        match outcome {
            Ok(twin_did) => CreationReport::Success(TwinCreationSuccess { twin_did }),
            Err(error) => CreationReport::Failure(
                TwinCreationFailure { twin_label: self.twin.label.clone(), error },
            ),
        }
    }

    /// What the worker sends itself when the attempt to delete its twin has
    /// ended: word of the deletion where it succeeded, nothing where it
    /// failed, so that the worker stays until the next cleanup.
    pub fn deletion_report(&self, deleted: bool) -> (report: Option<TwinDeleted>)
        ensures
            report == if deleted {
                Some(TwinDeleted)
            } else {
                None
            },
    {
        if deleted {
            Some(TwinDeleted)
        } else {
            None
        }
    }

    /// What the worker sends the supervisor as it stops: one creation signal
    /// where the creation is still in flight, and one share signal, for all
    /// the samples still in flight, where there are any.
    pub fn stopping(&self) -> (signals: StopSignals)
        ensures
            match signals.creation {
                Some(signal) => self@.creation_in_flight && signal.seed() == Some(
                    self@.twin.seed,
                ),
                None => !self@.creation_in_flight,
            },
            signals.shares == if self@.shares_in_flight > 0 {
                Some(ShareConcurrencyReduction { shares_count: self@.shares_in_flight as usize })
            } else {
                None
            },
    {
        let creation = if self.creation_in_flight {
            Some(self.creation_signal())
        } else {
            None
        };
        let shares = if self.shares_in_flight > 0 {
            Some(ShareConcurrencyReduction { shares_count: self.shares_in_flight })
        } else {
            None
        };
        StopSignals { creation, shares }
    }

    /// The twin exists: the worker keeps its identifier, the creation is no
    /// longer in flight, and the supervisor is to be told so.
    pub fn handle_twin_creation_success(&mut self, message: TwinCreationSuccess) -> (signal:
        TwinConcurrencyReduction)
        ensures
            final(self)@ == old(self)@.after(
                WorkerEvent::CreationSuccess { twin_did: message.twin_did@ },
            ),
            signal.seed() == Some(old(self)@.twin.seed),
    {
        self.twin_did = Some(message.twin_did);
        self.creation_in_flight = false;
        self.creation_signal()
    }

    /// The twin could not be created: the creation is no longer in flight,
    /// the supervisor is to be told so, and the worker stops.
    pub fn handle_twin_creation_failure(&mut self, message: &TwinCreationFailure) -> (outcome: (
        TwinConcurrencyReduction,
        WorkerAction,
    ))
        ensures
            final(self)@ == old(self)@.after(WorkerEvent::CreationFailure),
            outcome.0.seed() == Some(old(self)@.twin.seed),
            outcome.1 == WorkerAction::Stop,
    {
        self.creation_in_flight = false;
        (self.creation_signal(), WorkerAction::Stop)
    }

    /// A record arrived at `now`: its samples are in flight from now on, and
    /// what is to be published for it is handed back. Each sample goes to
    /// its feed as the UTF-8 bytes of its text, kept for late subscribers;
    /// the properties of the record, where it has any, replace those that
    /// the twin holds under the same keys.
    pub fn handle_twin_data(&mut self, message: TwinData, now: u64) -> (publication: Publication)
        requires
            old(self)@.twin_did.is_some(),
            old(self)@.shares_in_flight + message@.data.feeds.len() <= usize::MAX,
        ensures
            final(self)@ == old(self)@.after(
                WorkerEvent::TwinData { samples: message@.data.feeds.len(), now },
            ),
            publication.twin_did@ == old(self)@.twin_did.unwrap(),
            views(publication.shares@) == sample_shares(
                old(self)@.twin_did.unwrap(),
                message@.data.feeds,
            ),
            match publication.update {
                Some(update) => message@.data.properties.len() > 0 && update@ == replacement_of(
                    message@.data.properties,
                ),
                None => message@.data.properties.len() == 0,
            },
            publication.done.shares_count == message@.data.feeds.len(),
    {
        let shares_count = message.data.feeds.len();
        self.shares_in_flight = self.shares_in_flight + shares_count;
        self.last_data_received_at = now;
        let twin_did = self.twin_did.as_ref().unwrap();
        let ghost wanted = sample_shares(twin_did@, message@.data.feeds);
        let mut shares: Vec<FeedShare> = Vec::new();
        let mut i: usize = 0;
        while i < shares_count
            invariant
                i <= shares_count == message@.data.feeds.len(),
                shares.len() == i,
                wanted == sample_shares(twin_did@, message@.data.feeds),
                forall|j: int| 0 <= j < i ==> shares@[j]@ == wanted[j],
            decreases shares_count - i,
        {
            let sample = message.data.feeds.sample(i);
            shares.push(
                FeedShare {
                    twin_did: twin_did.clone(),
                    feed_id: sample.feed_id.clone(),
                    payload: sample_payload(sample.value.as_str()),
                    retain_last: true,
                },
            );
            i = i + 1;
        }
        proof {
            assert(views(shares@) =~= wanted);
        }
        let update = if message.data.properties.len() > 0 {
            Some(PropertyUpdate::replacing(&message.data.properties))
        } else {
            None
        };
        Publication {
            twin_did: twin_did.clone(),
            shares,
            update,
            done: ShareConcurrencyReduction { shares_count },
        }
    }

    /// The samples that `message` counts were published: they are no longer
    /// in flight, and the supervisor is to be sent the same message.
    pub fn handle_share_concurrency_reduction(&mut self, message: ShareConcurrencyReduction) -> (
        forward: ShareConcurrencyReduction
    )
        ensures
            final(self)@ == old(self)@.after(
                WorkerEvent::SharesDone { count: message.shares_count as nat },
            ),
            forward == message,
    {
        if self.shares_in_flight >= message.shares_count {
            self.shares_in_flight = self.shares_in_flight - message.shares_count;
        } else {
            self.shares_in_flight = 0;
        }
        message
    }

    /// The platform deleted the twin: the worker stops.
    pub fn handle_twin_deleted(&self, message: TwinDeleted) -> (action: WorkerAction)
        ensures
            action == WorkerAction::Stop,
    {
        WorkerAction::Stop
    }

    /// Whether the worker has been without data for longer than `message`
    /// allows, at `now`.
    pub fn is_idle(&self, message: &Cleanup, now: u64) -> (idle: bool)
        ensures
            idle == self@.idle_past(*message, now),
    {
        now > self.last_data_received_at && ((now - self.last_data_received_at) as u128)
            > message.cleanup_every_millis
    }

    /// Decides on a cleanup at `now`. A worker that had data within the time
    /// that `message` allows goes on. One that did not has its twin deleted
    /// where `message` asks for it, and stops at once where it does not.
    pub fn handle_cleanup(&self, message: Cleanup, now: u64) -> (action: CleanupAction)
        requires
            self@.idle_past(message, now) && message.delete_twins ==> self@.twin_did.is_some(),
        ensures
            match action {
                CleanupAction::Keep => !self@.idle_past(message, now),
                CleanupAction::Stop => self@.idle_past(message, now) && !message.delete_twins,
                CleanupAction::Delete { twin_did } => self@.idle_past(message, now)
                    && message.delete_twins && self@.twin_did == Some(twin_did@),
            },
    {
        if !self.is_idle(&message, now) {
            CleanupAction::Keep
        } else if message.delete_twins {
            CleanupAction::Delete { twin_did: self.twin_did.as_ref().unwrap().clone() }
        } else {
            CleanupAction::Stop
        }
    }
}

} // verus!
