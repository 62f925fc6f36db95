//! The loop that runs the syncing: what it does next after each event.
use crate::network::sync_model::SyncView;
use crate::network::sync_responses::announces_among;
use vstd::prelude::*;

verus! {

/// What the loop wakes up for.
#[derive(Clone, Copy, PartialEq, Eq, Structural, Debug)]
pub enum LoopEvent {
    /// A command of another part of the node.
    Command,
    /// Nobody is left to give a command.
    CommandsClosed,
    /// An event of the network.
    Network,
    /// The stream of the events of the network has ended.
    NetworkClosed,
    /// The end of a request.
    Response,
    /// Some time has passed.
    Tick,
    /// The end of a validation.
    Validation,
}

/// What the loop does once an event was handled.
#[derive(Clone, Copy, PartialEq, Eq, Structural, Debug)]
pub enum LoopStep {
    /// It asks the chain sync for requests, sends them, and waits for the next event.
    AskChainSync,
    /// It waits for the next event.
    Wait,
    /// It ends.
    Stop,
}

/// What the loop does once an event was handled: the requests that a command, a
/// response, a validation or the time gave rise to are sent at once, and the loop ends
/// with the network.
pub open spec fn step_after(event: LoopEvent) -> LoopStep {
    match event {
        LoopEvent::Command
        | LoopEvent::Response
        | LoopEvent::Tick
        | LoopEvent::Validation => LoopStep::AskChainSync,
        LoopEvent::CommandsClosed | LoopEvent::Network => LoopStep::Wait,
        LoopEvent::NetworkClosed => LoopStep::Stop,
    }
}

/// What the loop does once an event was handled.
pub fn next_step(event: LoopEvent) -> (step: LoopStep)
    ensures
        step == step_after(event),
{
    match event {
        LoopEvent::Command
        | LoopEvent::Response
        | LoopEvent::Tick
        | LoopEvent::Validation => LoopStep::AskChainSync,
        LoopEvent::CommandsClosed | LoopEvent::Network => LoopStep::Wait,
        LoopEvent::NetworkClosed => LoopStep::Stop,
    }
}

/// How many of the events the loop handles before it ends.
pub open spec fn handled(events: Seq<LoopEvent>) -> nat
    decreases events.len(),
{
    if events.len() == 0 {
        0
    } else if step_after(events[0]) == LoopStep::Stop {
        1
    } else {
        1 + handled(events.drop_first())
    }
}

/// The loop ends with the stream of the events of the network and not before: it handles
/// all events up to the first one that tells of the end of that stream, that one
/// included, or all where there is none.
pub proof fn lemma_loop_ends_with_the_network(events: Seq<LoopEvent>)
    ensures
        handled(events) <= events.len(),
        forall|i: int|
            0 <= i < handled(events) - 1 ==> #[trigger] events[i] != LoopEvent::NetworkClosed,
        handled(events) < events.len() ==> handled(events) > 0 && events[handled(events) - 1]
            == LoopEvent::NetworkClosed,
    decreases events.len(),
{
    if events.len() > 0 && step_after(events[0]) != LoopStep::Stop {
        let rest = events.drop_first();
        lemma_loop_ends_with_the_network(rest);
        assert forall|i: int| 0 <= i < handled(events) - 1 implies #[trigger] events[i]
            != LoopEvent::NetworkClosed by {
            if i > 0 {
                assert(events[i] == rest[i - 1]);
            }
        }
        if handled(events) < events.len() {
            assert(events[handled(events) - 1] == rest[handled(rest) - 1]);
        }
    }
}

/// Of notifications of other protocols than the block announces protocol none is handled.
pub proof fn lemma_other_protocols_are_ignored(state: SyncView, messages: Seq<(String, Vec<u8>)>)
    requires
        forall|i: int|
            0 <= i < messages.len() ==> (#[trigger] messages[i]).0@
                != state.names.block_announces@,
    ensures
        announces_among(state, messages) == Seq::<Seq<u8>>::empty(),
    decreases messages.len(),
{
    if messages.len() > 0 {
        let before = messages.drop_last();
        assert forall|i: int| 0 <= i < before.len() implies (#[trigger] before[i]).0@
            != state.names.block_announces@ by {
            assert(before[i] == messages[i]);
        }
        assert(messages[messages.len() - 1] == messages.last());
        lemma_other_protocols_are_ignored(state, before);
    }
}

} // verus!
