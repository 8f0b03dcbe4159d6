//! The stream subscriber: keeps a subscription to block notifications alive.
//!
//! The subscriber connects, subscribes with a fixed request, and then handles
//! inbound messages one by one: it answers liveness probes, forwards block
//! notifications and ignores everything else. When the stream breaks, or a
//! probe cannot be answered, it waits a fixed time and subscribes again with
//! the request it has kept, for as long as it runs. Only a failure to set the
//! session up, a refused subscription, or the loss of the consumer ends it
//! with an error.
//!
//! The network is outside this module. The module holds the decisions, as a
//! state machine: [`Subscriber::step`] takes what just happened and returns
//! what to do next.

use crate::recorder::BlockEvent;
use vstd::prelude::*;

verus! {

/// Seconds to wait before subscribing again after the stream broke. The wait
/// is the same after every failure: it does not grow and has no jitter.
pub const BACKOFF_SECS: u64 = 2;

/// The id that every reply to a liveness probe carries.
pub const PONG_ID: i32 = 1;

/// How final a block must be before the source reports it.
#[derive(Clone, Copy, Debug, PartialEq, Eq)]
pub enum CommitmentLevel {
    Processed,
    Confirmed,
    Finalized,
}

/// The number that stands for a commitment level in a subscribe request.
pub open spec fn commitment_code(level: CommitmentLevel) -> i32 {
    match level {
        CommitmentLevel::Processed => 0,
        CommitmentLevel::Confirmed => 1,
        CommitmentLevel::Finalized => 2,
    }
}

/// The subscribe request: one named block filter and a commitment level.
#[derive(Debug, PartialEq, Eq)]
pub struct Subscription {
    /// The name under which the block filter is registered.
    pub filter_name: String,
    /// The accounts to which the filter is restricted; none if empty.
    pub account_include: Vec<String>,
    pub include_transactions: Option<bool>,
    pub include_accounts: Option<bool>,
    pub include_entries: Option<bool>,
    /// The commitment level, as its number.
    pub commitment: i32,
}

/// The mathematical content of a [`Subscription`].
pub struct SubscriptionView {
    pub filter_name: Seq<char>,
    pub account_include: Seq<Seq<char>>,
    pub include_transactions: Option<bool>,
    pub include_accounts: Option<bool>,
    pub include_entries: Option<bool>,
    pub commitment: i32,
}

impl View for Subscription {
    type V = SubscriptionView;

    open spec fn view(&self) -> SubscriptionView {
        SubscriptionView {
            filter_name: self.filter_name@,
            account_include: Seq::new(
                self.account_include@.len(),
                |i: int| self.account_include@[i]@,
            ),
            include_transactions: self.include_transactions,
            include_accounts: self.include_accounts,
            include_entries: self.include_entries,
            commitment: self.commitment,
        }
    }
}

/// The request for whole blocks at a commitment level: a filter named
/// `client`, no restriction to accounts, transactions included, accounts and
/// entries left unset.
pub open spec fn block_subscription_view(commitment: CommitmentLevel) -> SubscriptionView {
    SubscriptionView {
        filter_name: "client"@,
        account_include: Seq::empty(),
        include_transactions: Some(true),
        include_accounts: None,
        include_entries: None,
        commitment: commitment_code(commitment),
    }
}

/// An inbound message, by what the subscriber does with it.
#[derive(Clone, Copy, Debug, PartialEq, Eq)]
pub enum Inbound {
    /// A liveness probe.
    Ping,
    /// A block notification.
    Block(BlockEvent),
    /// Any other message.
    Other,
}

/// Why the subscriber ended with an error.
#[derive(Clone, Copy, Debug, PartialEq, Eq)]
pub enum SubscriberError {
    /// The session could not be set up: endpoint, credential, transport
    /// security or the connection itself.
    Setup,
    /// The source refused the subscribe request.
    Subscribe,
    /// The consumer of the block notifications is gone.
    Forward,
}

/// Where the subscriber stands.
#[derive(Clone, Copy, Debug, PartialEq, Eq)]
pub enum SubscriberPhase {
    /// The session is being set up.
    Connecting,
    /// The first subscribe request is under way.
    Subscribing,
    /// The next inbound message is awaited.
    Streaming,
    /// The reply to a liveness probe is under way.
    Replying,
    /// A block notification is being handed to the consumer.
    Forwarding,
    /// The stream broke; the subscriber waits before it subscribes again.
    BackingOff,
    /// A subscribe request after a break is under way.
    Resubscribing,
    /// The source closed the stream; the subscriber has ended in good order.
    Closed,
    /// The subscriber has ended with this error.
    Failed(SubscriberError),
}

/// The four states of the subscriber as seen from outside, and the end of the
/// stream.
#[derive(Clone, Copy, Debug, PartialEq, Eq)]
pub enum Stage {
    Connecting,
    Streaming,
    Reconnecting,
    Failed,
    Closed,
}

/// The stage that a phase belongs to.
pub open spec fn stage_of(phase: SubscriberPhase) -> Stage {
    match phase {
        SubscriberPhase::Connecting | SubscriberPhase::Subscribing => Stage::Connecting,
        SubscriberPhase::Streaming | SubscriberPhase::Replying | SubscriberPhase::Forwarding =>
            Stage::Streaming,
        SubscriberPhase::BackingOff | SubscriberPhase::Resubscribing => Stage::Reconnecting,
        SubscriberPhase::Closed => Stage::Closed,
        SubscriberPhase::Failed(_) => Stage::Failed,
    }
}

/// What just happened, as the driver reports it.
#[derive(Clone, Copy, Debug, PartialEq, Eq)]
pub enum SubscriberEvent {
    /// The session is set up and connected.
    Connected,
    /// The session could not be set up.
    ConnectFailed,
    /// The source accepted the subscribe request; a fresh stream is open.
    Subscribed,
    /// The source refused the subscribe request.
    SubscribeFailed,
    /// The stream yielded a message.
    Message(Inbound),
    /// Reading the stream failed.
    StreamError,
    /// The source closed the stream.
    StreamClosed,
    /// The reply to the probe was sent.
    PongSent,
    /// The reply to the probe could not be sent.
    PongFailed,
    /// The consumer took the block notification.
    Forwarded,
    /// The consumer is gone.
    ForwardFailed,
    /// The wait is over.
    BackoffElapsed,
}

/// What the driver is to do next.
#[derive(Clone, Copy, Debug, PartialEq, Eq)]
pub enum SubscriberAction {
    /// Set the session up and connect.
    Connect,
    /// Send the subscriber's request on the connected client.
    Subscribe,
    /// Wait for the next inbound message.
    Receive,
    /// Reply to the liveness probe with this id.
    Pong { id: i32 },
    /// Hand this block notification to the consumer.
    Forward(BlockEvent),
    /// Wait this many seconds.
    Backoff { secs: u64 },
    /// Stop without error.
    Finish,
    /// Stop with this error.
    Fail(SubscriberError),
}

/// The transition relation of the subscriber: the next phase and the action,
/// or `None` where the event does not answer what the subscriber waits for.
pub open spec fn transition(phase: SubscriberPhase, event: SubscriberEvent) -> Option<
    (SubscriberPhase, SubscriberAction),
> {
    match (phase, event) {
        (SubscriberPhase::Connecting, SubscriberEvent::Connected) => Some(
            (SubscriberPhase::Subscribing, SubscriberAction::Subscribe),
        ),
        (SubscriberPhase::Connecting, SubscriberEvent::ConnectFailed) => Some(
            (
                SubscriberPhase::Failed(SubscriberError::Setup),
                SubscriberAction::Fail(SubscriberError::Setup),
            ),
        ),
        (SubscriberPhase::Subscribing, SubscriberEvent::Subscribed) => Some(
            (SubscriberPhase::Streaming, SubscriberAction::Receive),
        ),
        (SubscriberPhase::Subscribing, SubscriberEvent::SubscribeFailed) => Some(
            (
                SubscriberPhase::Failed(SubscriberError::Subscribe),
                SubscriberAction::Fail(SubscriberError::Subscribe),
            ),
        ),
        (SubscriberPhase::Streaming, SubscriberEvent::Message(Inbound::Ping)) => Some(
            (SubscriberPhase::Replying, SubscriberAction::Pong { id: PONG_ID }),
        ),
        (SubscriberPhase::Streaming, SubscriberEvent::Message(Inbound::Block(block))) => Some(
            (SubscriberPhase::Forwarding, SubscriberAction::Forward(block)),
        ),
        (SubscriberPhase::Streaming, SubscriberEvent::Message(Inbound::Other)) => Some(
            (SubscriberPhase::Streaming, SubscriberAction::Receive),
        ),
        (SubscriberPhase::Streaming, SubscriberEvent::StreamError) => Some(
            (SubscriberPhase::BackingOff, SubscriberAction::Backoff { secs: BACKOFF_SECS }),
        ),
        (SubscriberPhase::Streaming, SubscriberEvent::StreamClosed) => Some(
            (SubscriberPhase::Closed, SubscriberAction::Finish),
        ),
        (SubscriberPhase::Replying, SubscriberEvent::PongSent) => Some(
            (SubscriberPhase::Streaming, SubscriberAction::Receive),
        ),
        (SubscriberPhase::Replying, SubscriberEvent::PongFailed) => Some(
            (SubscriberPhase::BackingOff, SubscriberAction::Backoff { secs: BACKOFF_SECS }),
        ),
        (SubscriberPhase::Forwarding, SubscriberEvent::Forwarded) => Some(
            (SubscriberPhase::Streaming, SubscriberAction::Receive),
        ),
        (SubscriberPhase::Forwarding, SubscriberEvent::ForwardFailed) => Some(
            (
                SubscriberPhase::Failed(SubscriberError::Forward),
                SubscriberAction::Fail(SubscriberError::Forward),
            ),
        ),
        (SubscriberPhase::BackingOff, SubscriberEvent::BackoffElapsed) => Some(
            (SubscriberPhase::Resubscribing, SubscriberAction::Subscribe),
        ),
        (SubscriberPhase::Resubscribing, SubscriberEvent::Subscribed) => Some(
            (SubscriberPhase::Streaming, SubscriberAction::Receive),
        ),
        (SubscriberPhase::Resubscribing, SubscriberEvent::SubscribeFailed) => Some(
            (
                SubscriberPhase::Failed(SubscriberError::Subscribe),
                SubscriberAction::Fail(SubscriberError::Subscribe),
            ),
        ),
        _ => None,
    }
}

/// The subscriber: its phase and the subscribe request that it keeps for the
/// whole run.
#[derive(Debug, PartialEq, Eq)]
pub struct Subscriber {
    pub phase: SubscriberPhase,
    pub request: Subscription,
}

/// The subscriber after an event: the phase moves as [`transition`] says, and
/// the request stays. An event that the subscriber does not accept leaves it
/// as it is.
pub open spec fn after(subscriber: Subscriber, event: SubscriberEvent) -> Subscriber {
    match transition(subscriber.phase, event) {
        Some((next, _)) => Subscriber { phase: next, request: subscriber.request },
        None => subscriber,
    }
}

impl CommitmentLevel {
    /// The number that stands for this level in a subscribe request.
    pub fn code(&self) -> (code: i32)
        ensures
            code == commitment_code(*self),
    {
        match self {
            CommitmentLevel::Processed => 0,
            CommitmentLevel::Confirmed => 1,
            CommitmentLevel::Finalized => 2,
        }
    }
}

/// Builds the request for whole blocks at a commitment level.
pub fn block_subscription(commitment: CommitmentLevel) -> (request: Subscription)
    ensures
        request@ == block_subscription_view(commitment),
{
    let request = Subscription {
        filter_name: String::from_str("client"),
        account_include: Vec::new(),
        include_transactions: Some(true),
        include_accounts: None,
        include_entries: None,
        commitment: commitment.code(),
    };
    assert(request@.account_include =~= Seq::<Seq<char>>::empty());
    request
}

impl Subscriber {
    /// A subscriber that is about to set its session up. The first thing to
    /// do for it is [`SubscriberAction::Connect`].
    pub fn new(commitment: CommitmentLevel) -> (subscriber: Subscriber)
        ensures
            subscriber.phase == SubscriberPhase::Connecting,
            subscriber.request@ == block_subscription_view(commitment),
    {
        Subscriber { phase: SubscriberPhase::Connecting, request: block_subscription(commitment) }
    }

    /// The stage that the subscriber is in.
    pub fn stage(&self) -> (stage: Stage)
        ensures
            stage == stage_of(self.phase),
    {
        match self.phase {
            SubscriberPhase::Connecting | SubscriberPhase::Subscribing => Stage::Connecting,
            SubscriberPhase::Streaming
            | SubscriberPhase::Replying
            | SubscriberPhase::Forwarding => Stage::Streaming,
            SubscriberPhase::BackingOff | SubscriberPhase::Resubscribing => Stage::Reconnecting,
            SubscriberPhase::Closed => Stage::Closed,
            SubscriberPhase::Failed(_) => Stage::Failed,
        }
    }

    /// One step of the subscriber.
    ///
    /// Takes the event that the driver reports and returns the action to
    /// perform, moving to the next phase as [`transition`] defines both. The
    /// request is never changed. Returns `None`, exactly where `transition`
    /// does, for an event that does not answer what the subscriber is waiting
    /// for; the subscriber then stays as it was.
    pub fn step(&mut self, event: SubscriberEvent) -> (res: Option<SubscriberAction>)
        ensures
            *final(self) == after(*old(self), event),
            match transition(old(self).phase, event) {
                Some((_, action)) => res == Some(action),
                None => res is None,
            },
    {
        let (next, action) = match (self.phase, event) {
            (SubscriberPhase::Connecting, SubscriberEvent::Connected) => (
                SubscriberPhase::Subscribing,
                SubscriberAction::Subscribe,
            ),
            (SubscriberPhase::Connecting, SubscriberEvent::ConnectFailed) => (
                SubscriberPhase::Failed(SubscriberError::Setup),
                SubscriberAction::Fail(SubscriberError::Setup),
            ),
            (SubscriberPhase::Subscribing, SubscriberEvent::Subscribed) => (
                SubscriberPhase::Streaming,
                SubscriberAction::Receive,
            ),
            (SubscriberPhase::Subscribing, SubscriberEvent::SubscribeFailed) => (
                SubscriberPhase::Failed(SubscriberError::Subscribe),
                SubscriberAction::Fail(SubscriberError::Subscribe),
            ),
            (SubscriberPhase::Streaming, SubscriberEvent::Message(Inbound::Ping)) => (
                SubscriberPhase::Replying,
                SubscriberAction::Pong { id: PONG_ID },
            ),
            (SubscriberPhase::Streaming, SubscriberEvent::Message(Inbound::Block(block))) => (
                SubscriberPhase::Forwarding,
                SubscriberAction::Forward(block),
            ),
            (SubscriberPhase::Streaming, SubscriberEvent::Message(Inbound::Other)) => (
                SubscriberPhase::Streaming,
                SubscriberAction::Receive,
            ),
            (SubscriberPhase::Streaming, SubscriberEvent::StreamError) => (
                SubscriberPhase::BackingOff,
                SubscriberAction::Backoff { secs: BACKOFF_SECS },
            ),
            (SubscriberPhase::Streaming, SubscriberEvent::StreamClosed) => (
                SubscriberPhase::Closed,
                SubscriberAction::Finish,
            ),
            (SubscriberPhase::Replying, SubscriberEvent::PongSent) => (
                SubscriberPhase::Streaming,
                SubscriberAction::Receive,
            ),
            (SubscriberPhase::Replying, SubscriberEvent::PongFailed) => (
                SubscriberPhase::BackingOff,
                SubscriberAction::Backoff { secs: BACKOFF_SECS },
            ),
            (SubscriberPhase::Forwarding, SubscriberEvent::Forwarded) => (
                SubscriberPhase::Streaming,
                SubscriberAction::Receive,
            ),
            (SubscriberPhase::Forwarding, SubscriberEvent::ForwardFailed) => (
                SubscriberPhase::Failed(SubscriberError::Forward),
                SubscriberAction::Fail(SubscriberError::Forward),
            ),
            (SubscriberPhase::BackingOff, SubscriberEvent::BackoffElapsed) => (
                SubscriberPhase::Resubscribing,
                SubscriberAction::Subscribe,
            ),
            (SubscriberPhase::Resubscribing, SubscriberEvent::Subscribed) => (
                SubscriberPhase::Streaming,
                SubscriberAction::Receive,
            ),
            (SubscriberPhase::Resubscribing, SubscriberEvent::SubscribeFailed) => (
                SubscriberPhase::Failed(SubscriberError::Subscribe),
                SubscriberAction::Fail(SubscriberError::Subscribe),
            ),
            _ => {
                return None;
            },
        };
        self.phase = next;
        Some(action)
    }
}

} // verus!
