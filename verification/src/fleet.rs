//! The supervisor and its workers taken together.
//!
//! Each concurrency counter of the supervisor stands for work that is
//! somewhere: with a worker, or in a message on its way. This module says
//! where, and proves that the two state machines keep the books balanced
//! whatever happens in whatever order, workers stopping in the middle of
//! their work included. With the caps of the supervisor this bounds the
//! work that the workers have in hand at any time.

use vstd::prelude::*;

use crate::connector::ConnectorDataView;
use crate::constants::{CONCURRENT_NEW_TWINS_LIMIT, CONCURRENT_SHARES_LIMIT};
use crate::model_actor::{lemma_event_keeps_order, ModelActorView, ModelEvent, Verdict};
use crate::twin_actor::{TwinActorView, WorkerEvent};

verus! {

/// A supervisor, the workers that it has started and that still run, and
/// what is on its way between them.
pub struct Fleet {
    pub supervisor: ModelActorView,
    /// The workers that run, in the order in which they were started.
    pub workers: Seq<TwinActorView>,
    /// Number of creation signals on their way to the supervisor.
    pub creation_signals: nat,
    /// Number of samples that the share signals on their way to the
    /// supervisor count.
    pub share_signals: nat,
    /// Number of samples in the records that were sent to a worker and have
    /// not been taken up by one.
    pub forwarded: nat,
}

/// What happens in a fleet, one thing at a time.
pub enum FleetEvent {
    /// The supervisor handles a message; `model_did` is the model of the
    /// record where the message is a record.
    Supervisor { event: ModelEvent, model_did: Seq<char> },
    /// The worker at `index` handles a message.
    Worker { index: int, event: WorkerEvent },
    /// The worker at `index` stops, and sends what its stopping sends.
    Stop { index: int },
}

/// Number of workers among `workers` whose twin is being created.
pub open spec fn creating(workers: Seq<TwinActorView>) -> nat
    decreases workers.len(),
{
    if workers.len() == 0 {
        0
    } else {
        creating(workers.drop_last()) + workers.last().creation_signals_on_stop()
    }
}

/// Number of samples that the workers among `workers` are publishing.
pub open spec fn publishing(workers: Seq<TwinActorView>) -> nat
    decreases workers.len(),
{
    if workers.len() == 0 {
        0
    } else {
        publishing(workers.drop_last()) + workers.last().shares_in_flight
    }
}

impl Fleet {
    /// The worker that the supervisor starts for `data`, as it is once it
    /// has started.
    pub open spec fn started_worker(
        self,
        model_did: Seq<char>,
        data: ConnectorDataView,
        now: u64,
    ) -> TwinActorView {
        TwinActorView {
            twin: self.supervisor.twin_of(model_did, data),
            model: self.supervisor.model,
            twin_did: None,
            last_data_received_at: now,
            creation_in_flight: false,
            shares_in_flight: 0,
        }.after_started()
    }

    /// Whether `event` can happen: a signal is handled only when one is on
    /// its way, a record is taken up only when it was sent, a worker hears
    /// how the creation ended only while it is in flight and counts as
    /// published only samples that it is publishing.
    pub open spec fn allows(self, event: FleetEvent) -> bool {
        match event {
            FleetEvent::Supervisor { event: ModelEvent::TwinConcurrencyReduction { .. }, .. } => {
                self.creation_signals > 0
            },
            FleetEvent::Supervisor {
                event: ModelEvent::ShareConcurrencyReduction { shares_count },
                ..
            } => shares_count <= self.share_signals,
            FleetEvent::Supervisor { .. } => true,
            FleetEvent::Worker { index, event } => {
                &&& 0 <= index < self.workers.len()
                &&& event.reports_creation() ==> self.workers[index].creation_in_flight
                &&& event matches WorkerEvent::TwinData { samples, .. } ==> samples
                    <= self.forwarded
                &&& event matches WorkerEvent::SharesDone { count } ==> count
                    <= self.workers[index].shares_in_flight
            },
            FleetEvent::Stop { index } => 0 <= index < self.workers.len(),
        }
    }

    /// The fleet after `event`.
    pub open spec fn after(self, event: FleetEvent) -> Fleet {
        match event {
            FleetEvent::Supervisor { event, model_did } => {
                let supervisor = self.supervisor.after(event);
                match event {
                    ModelEvent::TwinData { data, expire_time, now, connected } => {
                        match self.supervisor.verdict(data, expire_time, now, connected) {
                            Verdict::Started => Fleet {
                                supervisor,
                                workers: self.workers.push(
                                    self.started_worker(model_did, data, now),
                                ),
                                ..self
                            },
                            Verdict::Forwarded => Fleet {
                                supervisor,
                                forwarded: self.forwarded + data.feeds.len(),
                                ..self
                            },
                            _ => Fleet { supervisor, ..self },
                        }
                    },
                    ModelEvent::TwinConcurrencyReduction { .. } => Fleet {
                        supervisor,
                        creation_signals: (self.creation_signals - 1) as nat,
                        ..self
                    },
                    ModelEvent::ShareConcurrencyReduction { shares_count } => Fleet {
                        supervisor,
                        share_signals: (self.share_signals - shares_count) as nat,
                        ..self
                    },
                    _ => Fleet { supervisor, ..self },
                }
            },
            FleetEvent::Worker { index, event } => {
                let workers = self.workers.update(index, self.workers[index].after(event));
                match event {
                    WorkerEvent::CreationSuccess { .. } | WorkerEvent::CreationFailure => Fleet {
                        workers,
                        creation_signals: self.creation_signals + 1,
                        ..self
                    },
                    WorkerEvent::TwinData { samples, .. } => Fleet {
                        workers,
                        forwarded: (self.forwarded - samples) as nat,
                        ..self
                    },
                    WorkerEvent::SharesDone { count } => Fleet {
                        workers,
                        share_signals: self.share_signals + count,
                        ..self
                    },
                    _ => Fleet { workers, ..self },
                }
            },
            FleetEvent::Stop { index } => Fleet {
                workers: self.workers.remove(index),
                creation_signals: self.creation_signals
                    + self.workers[index].creation_signals_on_stop(),
                share_signals: self.share_signals + self.workers[index].shares_in_flight,
                ..self
            },
        }
    }

    /// Whether `events` can happen one after the other.
    pub open spec fn allows_all(self, events: Seq<FleetEvent>) -> bool
        decreases events.len(),
    {
        events.len() > 0 ==> self.allows_all(events.drop_last()) && self.after_all(
            events.drop_last(),
        ).allows(events.last())
    }

    /// The fleet after `events` happened one after the other.
    pub open spec fn after_all(self, events: Seq<FleetEvent>) -> Fleet
        decreases events.len(),
    {
        if events.len() == 0 {
            self
        } else {
            self.after_all(events.drop_last()).after(events.last())
        }
    }

    /// The books are balanced: every creation that the supervisor counts is
    /// in flight with a worker or reported in a signal on its way, and every
    /// share that it counts is a sample on its way to a worker, with a
    /// worker, or reported in a signal on its way.
    pub open spec fn balanced(self) -> bool {
        &&& self.supervisor.concurrent_new_twins == creating(self.workers)
            + self.creation_signals
        &&& self.supervisor.concurrent_shares == self.forwarded + publishing(self.workers)
            + self.share_signals
    }

    /// A supervisor that has started nothing yet, alone.
    pub open spec fn at_start(supervisor: ModelActorView) -> Fleet {
        Fleet {
            supervisor,
            workers: Seq::empty(),
            creation_signals: 0,
            share_signals: 0,
            forwarded: 0,
        }
    }
}

/// A worker more adds what it has in hand.
proof fn lemma_one_more(workers: Seq<TwinActorView>, worker: TwinActorView)
    ensures
        creating(workers.push(worker)) == creating(workers) + worker.creation_signals_on_stop(),
        publishing(workers.push(worker)) == publishing(workers) + worker.shares_in_flight,
{
    assert(workers.push(worker).drop_last() =~= workers);
}

/// A worker that changes takes out what it had in hand and adds what it has.
proof fn lemma_one_changed(workers: Seq<TwinActorView>, index: int, worker: TwinActorView)
    requires
        0 <= index < workers.len(),
    ensures
        creating(workers.update(index, worker)) + workers[index].creation_signals_on_stop()
            == creating(workers) + worker.creation_signals_on_stop(),
        publishing(workers.update(index, worker)) + workers[index].shares_in_flight == publishing(
            workers,
        ) + worker.shares_in_flight,
    decreases workers.len(),
{
    let changed = workers.update(index, worker);
    if index == workers.len() - 1 {
        assert(changed.drop_last() =~= workers.drop_last());
    } else {
        lemma_one_changed(workers.drop_last(), index, worker);
        assert(changed.drop_last() =~= workers.drop_last().update(index, worker));
    }
}

/// A worker less takes out what it had in hand.
proof fn lemma_one_less(workers: Seq<TwinActorView>, index: int)
    requires
        0 <= index < workers.len(),
    ensures
        creating(workers.remove(index)) + workers[index].creation_signals_on_stop() == creating(
            workers,
        ),
        publishing(workers.remove(index)) + workers[index].shares_in_flight == publishing(workers),
    decreases workers.len(),
{
    let fewer = workers.remove(index);
    if index == workers.len() - 1 {
        assert(fewer =~= workers.drop_last());
    } else {
        lemma_one_less(workers.drop_last(), index);
        assert(fewer.drop_last() =~= workers.drop_last().remove(index));
        assert(fewer.last() == workers.last());
    }
}

/// A supervisor that has counted nothing and started nothing has its books
/// balanced.
pub proof fn lemma_balanced_at_start(supervisor: ModelActorView)
    requires
        supervisor.concurrent_new_twins == 0,
        supervisor.concurrent_shares == 0,
    ensures
        Fleet::at_start(supervisor).balanced(),
{
}

/// Whatever happens next, the books stay balanced: the supervisor counts up
/// as it starts a worker or forwards a record, the work then moves from
/// message to worker to signal without being lost or counted twice, also
/// when a worker stops with work in hand, and the supervisor counts down as
/// the signal arrives.
pub proof fn lemma_event_keeps_balance(fleet: Fleet, event: FleetEvent)
    requires
        fleet.balanced(),
        fleet.allows(event),
    ensures
        fleet.after(event).balanced(),
{
    match event {
        FleetEvent::Supervisor { event, model_did } => {
            match event {
                ModelEvent::TwinData { data, expire_time, now, connected } => {
                    lemma_one_more(fleet.workers, fleet.started_worker(model_did, data, now));
                },
                _ => {},
            }
        },
        FleetEvent::Worker { index, event } => {
            lemma_one_changed(fleet.workers, index, fleet.workers[index].after(event));
        },
        FleetEvent::Stop { index } => {
            lemma_one_less(fleet.workers, index);
        },
    }
}

/// From balanced books, every run of events that can happen leads to
/// balanced books, and a supervisor that is in order stays in order.
pub proof fn lemma_balance_holds(fleet: Fleet, events: Seq<FleetEvent>)
    requires
        fleet.balanced(),
        fleet.allows_all(events),
    ensures
        fleet.after_all(events).balanced(),
        fleet.supervisor.in_order() ==> fleet.after_all(events).supervisor.in_order(),
    decreases events.len(),
{
    if events.len() > 0 {
        let before = fleet.after_all(events.drop_last());
        lemma_balance_holds(fleet, events.drop_last());
        lemma_event_keeps_balance(before, events.last());
        if before.supervisor.in_order() {
            match events.last() {
                FleetEvent::Supervisor { event, .. } => {
                    lemma_event_keeps_order(before.supervisor, event);
                },
                _ => {},
            }
        }
    }
}

/// At no time do the workers of a supervisor have more in hand than the
/// caps allow: the twins being created are never more than the limit and
/// one, and the samples being published, with those sent to be published,
/// are never more than their limit.
pub proof fn lemma_work_in_hand_is_bounded(supervisor: ModelActorView, events: Seq<FleetEvent>)
    requires
        supervisor.in_order(),
        supervisor.concurrent_new_twins == 0,
        supervisor.concurrent_shares == 0,
        Fleet::at_start(supervisor).allows_all(events),
    ensures
        creating(Fleet::at_start(supervisor).after_all(events).workers)
            <= CONCURRENT_NEW_TWINS_LIMIT + 1,
        publishing(Fleet::at_start(supervisor).after_all(events).workers) + Fleet::at_start(
            supervisor,
        ).after_all(events).forwarded <= CONCURRENT_SHARES_LIMIT,
{
    lemma_balance_holds(Fleet::at_start(supervisor), events);
}

} // verus!
