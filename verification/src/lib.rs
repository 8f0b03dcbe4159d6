//! Block-arrival latency recording: the decisions of a resilient stream
//! subscriber, a latency recorder and a durable log writer, as verified
//! state machines and pure functions.

pub mod args;
pub mod connection;
pub mod decimal;
pub mod failure;
pub mod ledger;
pub mod persister;
pub mod pipeline;
pub mod recorder;
pub mod session;
pub mod subscriber;
pub mod subscriber_run;
