//! What is done when something outside the state machines fails.

use vstd::prelude::*;

verus! {

/// Exit code of a process that ended in good order.
pub const EXIT_OK: i32 = 0;

/// Exit code of a process whose supervisor could not be brought up or has
/// stopped.
pub const EXIT_FAILURE: i32 = 1;

/// The steps that reach outside and can fail.
#[derive(Debug, Clone, Copy, PartialEq, Eq, Structural)]
pub enum Step {
    /// Reading the settings of the process.
    LoadConfig,
    /// Opening the channels to the platform.
    CreateChannels,
    /// Deriving the identifier of the model twin.
    DeriveModelDid,
    /// Upserting the model twin.
    UpsertModel,
    /// Posting a message to the supervisor's or a worker's own mailbox.
    SendMessage,
    /// Asking the data source for the records of a tick.
    FetchData,
    /// Sharing the heartbeat of the model twin.
    ShareHeartbeat,
    /// Deriving the identifier of a twin.
    DeriveTwinDid,
    /// Upserting a twin.
    UpsertTwin,
    /// Sharing a sample on a feed of a twin.
    ShareSample,
    /// Updating the properties of a twin.
    UpdateProperties,
    /// Deleting a twin.
    DeleteTwin,
}

/// What a failure leads to.
#[derive(Debug, Clone, Copy, PartialEq, Eq, Structural)]
pub enum Reaction {
    /// The process ends with [`EXIT_FAILURE`]: nothing is tried again.
    Fatal,
    /// The worker hears that its twin could not be created, tells the
    /// supervisor, and stops.
    FailCreation,
    /// The failure goes to the log and the work goes on: the tick is
    /// skipped, the next sample is shared, the worker stays until the next
    /// cleanup.
    LogOnly,
}

/// The reaction to a failure of `step`. No failure is handed to the
/// supervisor as a value: whatever goes wrong in bringing the model up or in
/// posting a message ends the process, a twin that cannot be created ends
/// its worker, and everything else is logged.
pub open spec fn reaction_to(step: Step) -> Reaction {
    match step {
        Step::LoadConfig
        | Step::CreateChannels
        | Step::DeriveModelDid
        | Step::UpsertModel
        | Step::SendMessage => Reaction::Fatal,
        Step::DeriveTwinDid | Step::UpsertTwin => Reaction::FailCreation,
        Step::FetchData
        | Step::ShareHeartbeat
        | Step::ShareSample
        | Step::UpdateProperties
        | Step::DeleteTwin => Reaction::LogOnly,
    }
}

/// What to do when `step` has failed.
pub fn on_failure(step: Step) -> (reaction: Reaction)
    ensures
        reaction == reaction_to(step),
{
    match step {
        Step::LoadConfig => Reaction::Fatal,
        Step::CreateChannels => Reaction::Fatal,
        Step::DeriveModelDid => Reaction::Fatal,
        Step::UpsertModel => Reaction::Fatal,
        Step::SendMessage => Reaction::Fatal,
        Step::FetchData => Reaction::LogOnly,
        Step::ShareHeartbeat => Reaction::LogOnly,
        Step::DeriveTwinDid => Reaction::FailCreation,
        Step::UpsertTwin => Reaction::FailCreation,
        Step::ShareSample => Reaction::LogOnly,
        Step::UpdateProperties => Reaction::LogOnly,
        Step::DeleteTwin => Reaction::LogOnly,
    }
}

} // verus!
