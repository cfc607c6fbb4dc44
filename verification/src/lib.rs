//! Coordination core of a digital-twin publisher.
//!
//! A model supervisor polls a data source, admits the polled records under
//! two global concurrency caps and a tick deadline, and starts one worker
//! for each twin; a worker has its twin created, publishes what the
//! supervisor forwards, and retires when it has been idle for too long.
//!
//! Both are state machines here ([`model_actor`], [`twin_actor`]): a handler
//! takes the state, a message and what the outside world has to tell, and
//! gives back what is to be sent and done. The clock, the mailboxes, the
//! platform and the identity layer belong to whoever runs them. Every
//! handler is proved against the transition that its contract names, and
//! the invariants of the two machines are proved over all runs of events;
//! [`fleet`] puts the two together and proves that the supervisor's counters
//! account for the work in hand, whoever stops in the middle of it.
//!
//! Three things are taken on trust from outside: which characters are
//! whitespace ([`text`]), how an instant reads as an RFC 3339 timestamp
//! ([`timestamp`]), and how a text reads as a JSON string ([`payload`]).

pub mod client;
pub mod config;
pub mod connector;
pub mod constants;
pub mod failure;
pub mod fleet;
pub mod messages;
pub mod model;
pub mod model_actor;
pub mod payload;
pub mod registry;
pub mod text;
pub mod timestamp;
pub mod twin;
pub mod twin_actor;
