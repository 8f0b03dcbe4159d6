//! What a subscriber does over a whole run, and the laws that hold of it.
//!
//! A run is a sequence of events handed to [`Subscriber::step`] one after
//! another. The functions here follow the subscriber through a run by
//! [`transition`] and [`after`] alone, so what is proved of them is proved of
//! `step`.

use crate::recorder::BlockEvent;
use crate::subscriber::{
    after, stage_of, transition, Inbound, Stage, Subscriber, SubscriberAction, SubscriberEvent,
    SubscriberPhase, BACKOFF_SECS,
};
use vstd::prelude::*;

verus! {

/// The subscriber after a sequence of events, taken in order.
pub open spec fn replay(subscriber: Subscriber, events: Seq<SubscriberEvent>) -> Subscriber
    decreases events.len(),
{
    if events.len() == 0 {
        subscriber
    } else {
        after(replay(subscriber, events.drop_last()), events.last())
    }
}

/// Every event of the sequence answers what the subscriber was waiting for
/// when the event came.
pub open spec fn accepted(subscriber: Subscriber, events: Seq<SubscriberEvent>) -> bool
    decreases events.len(),
{
    if events.len() == 0 {
        true
    } else {
        &&& accepted(subscriber, events.drop_last())
        &&& transition(replay(subscriber, events.drop_last()).phase, events.last()) is Some
    }
}

/// The actions that the subscriber asks for over a run, in order. An event
/// that is not accepted asks for nothing.
pub open spec fn actions(subscriber: Subscriber, events: Seq<SubscriberEvent>) -> Seq<
    SubscriberAction,
>
    decreases events.len(),
{
    if events.len() == 0 {
        Seq::empty()
    } else {
        let earlier = actions(subscriber, events.drop_last());
        match transition(replay(subscriber, events.drop_last()).phase, events.last()) {
            Some((_, action)) => earlier.push(action),
            None => earlier,
        }
    }
}

/// The block notifications among the actions, in order: what the subscriber
/// hands to its consumer.
pub open spec fn forwarded(actions: Seq<SubscriberAction>) -> Seq<BlockEvent>
    decreases actions.len(),
{
    if actions.len() == 0 {
        Seq::empty()
    } else {
        match actions.last() {
            SubscriberAction::Forward(block) => forwarded(actions.drop_last()).push(block),
            _ => forwarded(actions.drop_last()),
        }
    }
}

/// The block notifications among the events, in order: what the source
/// delivers.
pub open spec fn delivered(events: Seq<SubscriberEvent>) -> Seq<BlockEvent>
    decreases events.len(),
{
    if events.len() == 0 {
        Seq::empty()
    } else {
        match events.last() {
            SubscriberEvent::Message(Inbound::Block(block)) => delivered(
                events.drop_last(),
            ).push(block),
            _ => delivered(events.drop_last()),
        }
    }
}

/// A session is live in this phase: a stream is open on the client.
pub open spec fn session_live(phase: SubscriberPhase) -> bool {
    stage_of(phase) == Stage::Streaming
}

/// The subscriber keeps its request: after any sequence of events the request
/// is the one it started with.
pub proof fn lemma_request_is_kept(subscriber: Subscriber, events: Seq<SubscriberEvent>)
    ensures
        replay(subscriber, events).request == subscriber.request,
    decreases events.len(),
{
    if events.len() > 0 {
        lemma_request_is_kept(subscriber, events.drop_last());
    }
}

/// Nothing is lost, doubled or reordered. Over a run in which every event is
/// accepted, the subscriber hands to its consumer exactly the block
/// notifications that the source delivered, in the order of delivery,
/// however often the stream broke in between.
pub proof fn lemma_forwards_what_is_delivered(
    subscriber: Subscriber,
    events: Seq<SubscriberEvent>,
)
    requires
        accepted(subscriber, events),
    ensures
        forwarded(actions(subscriber, events)) == delivered(events),
    decreases events.len(),
{
    if events.len() > 0 {
        let earlier = events.drop_last();
        lemma_forwards_what_is_delivered(subscriber, earlier);
        let done = actions(subscriber, earlier);
        let step = transition(replay(subscriber, earlier).phase, events.last());
        let action = step.unwrap().1;
        assert(actions(subscriber, events) == done.push(action));
        assert(done.push(action).drop_last() =~= done);
        assert(done.push(action).last() == action);
    }
}

/// Reconnecting. When reading the stream fails, the subscriber asks for a
/// wait of [`BACKOFF_SECS`] seconds; when the wait is over it asks to
/// subscribe again, with the request unchanged; and once the source has
/// accepted that, the next block notification is forwarded as it came.
pub proof fn lemma_reconnects_after_stream_error(subscriber: Subscriber, block: BlockEvent)
    requires
        subscriber.phase == SubscriberPhase::Streaming,
    ensures
        ({
            let events = seq![
                SubscriberEvent::StreamError,
                SubscriberEvent::BackoffElapsed,
                SubscriberEvent::Subscribed,
                SubscriberEvent::Message(Inbound::Block(block)),
            ];
            &&& accepted(subscriber, events)
            &&& actions(subscriber, events) == seq![
                SubscriberAction::Backoff { secs: BACKOFF_SECS },
                SubscriberAction::Subscribe,
                SubscriberAction::Receive,
                SubscriberAction::Forward(block),
            ]
            &&& replay(subscriber, events).request == subscriber.request
        }),
{
    let e0 = SubscriberEvent::StreamError;
    let e1 = SubscriberEvent::BackoffElapsed;
    let e2 = SubscriberEvent::Subscribed;
    let e3 = SubscriberEvent::Message(Inbound::Block(block));
    let t0 = Seq::<SubscriberEvent>::empty();
    let t1 = seq![e0];
    let t2 = seq![e0, e1];
    let t3 = seq![e0, e1, e2];
    let t4 = seq![e0, e1, e2, e3];
    assert(t1.drop_last() =~= t0);
    assert(t2.drop_last() =~= t1);
    assert(t3.drop_last() =~= t2);
    assert(t4.drop_last() =~= t3);
    assert(replay(subscriber, t0).phase == SubscriberPhase::Streaming);
    assert(replay(subscriber, t1).phase == SubscriberPhase::BackingOff);
    assert(replay(subscriber, t2).phase == SubscriberPhase::Resubscribing);
    assert(replay(subscriber, t3).phase == SubscriberPhase::Streaming);
    assert(accepted(subscriber, t0));
    assert(accepted(subscriber, t1));
    assert(accepted(subscriber, t2));
    assert(accepted(subscriber, t3));
    assert(accepted(subscriber, t4));
    assert(actions(subscriber, t0) =~= Seq::<SubscriberAction>::empty());
    assert(actions(subscriber, t1) =~= seq![SubscriberAction::Backoff { secs: BACKOFF_SECS }]);
    assert(actions(subscriber, t2) =~= seq![
        SubscriberAction::Backoff { secs: BACKOFF_SECS },
        SubscriberAction::Subscribe,
    ]);
    assert(actions(subscriber, t3) =~= seq![
        SubscriberAction::Backoff { secs: BACKOFF_SECS },
        SubscriberAction::Subscribe,
        SubscriberAction::Receive,
    ]);
    assert(actions(subscriber, t4) =~= seq![
        SubscriberAction::Backoff { secs: BACKOFF_SECS },
        SubscriberAction::Subscribe,
        SubscriberAction::Receive,
        SubscriberAction::Forward(block),
    ]);
    lemma_request_is_kept(subscriber, t4);
}

/// A broken stream and an unanswered probe never end the subscriber: each
/// leads to a wait of the same fixed length, and from there to a new
/// subscription. There is no count of attempts and no growing delay.
pub proof fn lemma_transient_failures_are_retried(phase: SubscriberPhase, event: SubscriberEvent)
    requires
        event is StreamError || event is PongFailed,
        transition(phase, event) is Some,
    ensures
        transition(phase, event) == Some(
            (SubscriberPhase::BackingOff, SubscriberAction::Backoff { secs: BACKOFF_SECS }),
        ),
        transition(SubscriberPhase::BackingOff, SubscriberEvent::BackoffElapsed) == Some(
            (SubscriberPhase::Resubscribing, SubscriberAction::Subscribe),
        ),
{
}

/// The subscriber ends with an error only when the session cannot be set up,
/// when the source refuses a subscribe request, or when the consumer is gone;
/// and each of these does end it.
pub proof fn lemma_fails_only_on_fatal_events(phase: SubscriberPhase, event: SubscriberEvent)
    requires
        transition(phase, event) is Some,
    ensures
        transition(phase, event) matches Some((next, action)) && ((next is Failed) <==> (event
            is ConnectFailed || event is SubscribeFailed || event is ForwardFailed)) && ((next
            is Failed) <==> (action is Fail)),
{
}

/// At most one session at a time: a subscribe request goes out only while no
/// session is live, and no event is accepted while it is under way but the
/// source's answer to it.
pub proof fn lemma_one_session_at_a_time(phase: SubscriberPhase, event: SubscriberEvent)
    requires
        transition(phase, event) matches Some((_, action)) && action is Subscribe,
    ensures
        !session_live(phase),
        transition(phase, event) matches Some((next, _)) && !session_live(next) && (forall|
            answer: SubscriberEvent,
        | #[trigger]
            transition(next, answer) is Some ==> answer is Subscribed || answer
                is SubscribeFailed),
{
}

/// The stages follow one another as `Connecting → Streaming ⇄ Reconnecting`,
/// with `Failed` and `Closed` as the ends: no accepted event leads anywhere
/// else, and the two ends accept no event.
pub proof fn lemma_stage_order(phase: SubscriberPhase, event: SubscriberEvent)
    ensures
        match transition(phase, event) {
            Some((next, _)) => match (stage_of(phase), stage_of(next)) {
                (Stage::Connecting, Stage::Connecting) => true,
                (Stage::Connecting, Stage::Streaming) => true,
                (Stage::Connecting, Stage::Failed) => true,
                (Stage::Streaming, Stage::Streaming) => true,
                (Stage::Streaming, Stage::Reconnecting) => true,
                (Stage::Streaming, Stage::Failed) => true,
                (Stage::Streaming, Stage::Closed) => true,
                (Stage::Reconnecting, Stage::Reconnecting) => true,
                (Stage::Reconnecting, Stage::Streaming) => true,
                (Stage::Reconnecting, Stage::Failed) => true,
                _ => false,
            },
            None => true,
        },
        stage_of(phase) == Stage::Failed || stage_of(phase) == Stage::Closed ==> transition(
            phase,
            event,
        ) is None,
{
}

} // verus!
