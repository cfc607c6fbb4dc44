//! The messages that the supervisor and its workers exchange.

use vstd::prelude::*;
use vstd::string::*;

use crate::connector::{ConnectorData, ConnectorDataView};

verus! {

/// Asks the supervisor to poll its data source.
#[derive(Debug, PartialEq, Eq)]
pub struct GetData {
    pub model_did: String,
}

/// One polled record on its way to the worker of its twin. `expire_time` is
/// the tick deadline in milliseconds since the Unix epoch: the record is
/// admitted only while the clock has not passed it.
#[derive(Debug, PartialEq, Eq)]
pub struct TwinData {
    pub model_did: String,
    pub data: ConnectorData,
    pub expire_time: u128,
}

/// What a [`TwinData`] says.
pub struct TwinDataView {
    pub model_did: Seq<char>,
    pub data: ConnectorDataView,
    pub expire_time: u128,
}

impl View for TwinData {
    type V = TwinDataView;

    open spec fn view(&self) -> TwinDataView {
        TwinDataView {
            model_did: self.model_did@,
            data: self.data@,
            expire_time: self.expire_time,
        }
    }
}

impl Clone for TwinData {
    fn clone(&self) -> (copy: Self)
        ensures
            copy@ == self@,
    {
        TwinData {
            model_did: self.model_did.clone(),
            data: self.data.clone(),
            expire_time: self.expire_time,
        }
    }
}

/// Asks the supervisor to report on the model twin's heartbeat feed how many
/// records the tick brought.
#[derive(Debug, PartialEq, Eq)]
pub struct HeartbeatData {
    pub model_did: String,
    pub shares: u64,
}

impl Clone for HeartbeatData {
    fn clone(&self) -> (copy: Self)
        ensures
            copy == *self,
    {
        HeartbeatData { model_did: self.model_did.clone(), shares: self.shares }
    }
}

/// Tells a worker that its twin now exists under `twin_did`.
#[derive(Debug, PartialEq, Eq)]
pub struct TwinCreationSuccess {
    pub twin_did: String,
}

/// Tells a worker that its twin could not be created. `error` is the text of
/// what went wrong.
#[derive(Debug, PartialEq, Eq)]
pub struct TwinCreationFailure {
    pub twin_label: String,
    pub error: String,
}

/// Asks for idle workers to be retired. `cleanup_every_millis` is the time,
/// in milliseconds, that a worker may go without data.
#[derive(Debug, Clone, Copy, PartialEq, Eq, Structural)]
pub struct Cleanup {
    pub delete_twins: bool,
    pub cleanup_every_millis: u128,
}

/// Tells the supervisor that one twin creation is no longer in flight, and
/// for which twin.
#[derive(Debug, PartialEq, Eq)]
pub struct TwinConcurrencyReduction {
    pub twin_seed: Option<String>,
}

impl TwinConcurrencyReduction {
    /// The seed that the message names, if it names one.
    pub open spec fn seed(&self) -> Option<Seq<char>> {
        match self.twin_seed {
            Some(seed) => Some(seed@),
            None => None,
        }
    }
}

/// Tells that `shares_count` feed samples are no longer in flight.
#[derive(Debug, Clone, Copy, PartialEq, Eq, Structural)]
pub struct ShareConcurrencyReduction {
    pub shares_count: usize,
}

/// Tells a worker that the platform has deleted its twin.
#[derive(Debug, Clone, Copy, PartialEq, Eq, Structural)]
pub struct TwinDeleted;

} // verus!
