//! The connection poll loop as a state machine.
//!
//! The loop has two states. In `Polling` it takes the next connection event:
//! an inbound message yields a dispatch action and the loop keeps polling, a
//! connection-level notice yields nothing, and a connection failure is fatal
//! — the loop exits. `Terminated` is absorbing: nothing is processed after
//! it. The surrounding binary drives the machine: it polls the broker for
//! the next event, feeds it to [`poll_step`], and carries the returned
//! action out (spawning one dispatch unit per inbound message). The loop
//! itself never waits on a dispatch unit: no unit's outcome is an input
//! here.

use vstd::prelude::*;

verus! {

/// One decoded happening on the broker connection, as the loop sees it.
pub enum ConnectionEvent {
    /// An inbound message on a topic. The payload rides along for the
    /// handler's use; the router itself routes on the topic alone.
    IncomingMessage { topic: String, payload: Vec<u8> },
    /// Any other successfully decoded connection-level event, such as an
    /// acknowledgment or a connection notice.
    Other,
    /// The transport failed while polling. Fatal: there is no reconnect.
    ConnectionFailure,
}

/// The poll loop's state.
#[derive(Clone, Copy, PartialEq, Eq, Structural, Debug)]
pub enum LoopState {
    Polling,
    Terminated,
}

/// What the loop asks its surroundings to do after one step.
pub enum PollAction {
    /// Schedule one independent dispatch unit for this topic. The loop does
    /// not wait for it.
    Dispatch { topic: String },
    /// Nothing to do; keep polling.
    Ignore,
    /// Fatal connection failure: stop the process cleanly.
    Exit,
}

/// The action one event provokes while the loop is polling.
pub open spec fn step_action(e: ConnectionEvent) -> PollAction {
    match e {
        ConnectionEvent::IncomingMessage { topic, payload } => PollAction::Dispatch { topic },
        ConnectionEvent::Other => PollAction::Ignore,
        ConnectionEvent::ConnectionFailure => PollAction::Exit,
    }
}

/// One transition of the loop: the state it moves to and the action it
/// hands out. `Terminated` is absorbing and acts on nothing.
pub open spec fn step_spec(s: LoopState, e: ConnectionEvent) -> (LoopState, PollAction) {
    match s {
        LoopState::Terminated => (LoopState::Terminated, PollAction::Ignore),
        LoopState::Polling => (
            if e is ConnectionFailure {
                LoopState::Terminated
            } else {
                LoopState::Polling
            },
            step_action(e),
        ),
    }
}

/// One step of the poll loop, exactly the transition of [`step_spec`].
pub fn poll_step(state: LoopState, event: ConnectionEvent) -> (r: (LoopState, PollAction))
    ensures
        r == step_spec(state, event),
{
    match state {
        LoopState::Terminated => (LoopState::Terminated, PollAction::Ignore),
        LoopState::Polling => {
            match event {
                ConnectionEvent::IncomingMessage { topic, payload } => (
                    LoopState::Polling,
                    PollAction::Dispatch { topic },
                ),
                ConnectionEvent::Other => (LoopState::Polling, PollAction::Ignore),
                ConnectionEvent::ConnectionFailure => (LoopState::Terminated, PollAction::Exit),
            }
        },
    }
}

/// Whether a connection failure stands anywhere in `events`.
pub open spec fn contains_failure(events: Seq<ConnectionEvent>) -> bool
    decreases events.len(),
{
    if events.len() == 0 {
        false
    } else {
        events.first() is ConnectionFailure || contains_failure(events.drop_first())
    }
}

/// The actions a freshly started loop hands out over a queue of events: one
/// per event until the first connection failure, whose exit action is the
/// last — whatever was queued behind the failure is never processed.
pub open spec fn run_loop(events: Seq<ConnectionEvent>) -> Seq<PollAction>
    decreases events.len(),
{
    if events.len() == 0 {
        Seq::empty()
    } else if events.first() is ConnectionFailure {
        seq![PollAction::Exit]
    } else {
        seq![step_action(events.first())] + run_loop(events.drop_first())
    }
}

/// The loop never blocks on a dispatch unit. An inbound message hands a
/// dispatch action out and leaves the loop polling; the step after it is
/// exactly what a polling loop does on the next event, whether or not the
/// unit just scheduled has completed — no unit's outcome is an input to
/// any step. In particular a second inbound message is accepted and
/// scheduled while the first unit is still outstanding.
pub proof fn lemma_poll_never_blocks(e: ConnectionEvent, next_event: ConnectionEvent)
    requires
        e is IncomingMessage,
    ensures
        step_spec(LoopState::Polling, e).0 is Polling,
        step_spec(LoopState::Polling, e).1 == (PollAction::Dispatch { topic: e->topic }),
        step_spec(step_spec(LoopState::Polling, e).0, next_event) == step_spec(
            LoopState::Polling,
            next_event,
        ),
{
}

/// Terminated is absorbing: once the loop has terminated, no event is
/// processed and nothing further is dispatched.
pub proof fn lemma_terminated_absorbing(e: ConnectionEvent)
    ensures
        step_spec(LoopState::Terminated, e).0 is Terminated,
        step_spec(LoopState::Terminated, e).1 is Ignore,
{
}

/// Fatal on connection error: with the first connection failure standing
/// at position `i` of the queued events, the loop hands out one action per
/// event before it, exits on the failure itself, and processes nothing of
/// what was queued behind it.
pub proof fn lemma_fatal_on_connection_error(events: Seq<ConnectionEvent>, i: int)
    requires
        0 <= i < events.len(),
        events[i] is ConnectionFailure,
        forall|j: int| 0 <= j < i ==> !(events[j] is ConnectionFailure),
    ensures
        run_loop(events) == run_loop(events.take(i + 1)),
        run_loop(events).len() == i + 1,
        run_loop(events)[i] is Exit,
        forall|j: int| 0 <= j < i ==> run_loop(events)[j] == step_action(events[j]),
    decreases i,
{
    let front = events.take(i + 1);
    if i == 0 {
        assert(run_loop(events) =~= seq![PollAction::Exit]);
        assert(front.first() is ConnectionFailure);
        assert(run_loop(front) =~= seq![PollAction::Exit]);
    } else {
        let rest = events.drop_first();
        assert(forall|j: int| 0 <= j < i - 1 ==> !(#[trigger] rest[j] is ConnectionFailure));
        lemma_fatal_on_connection_error(rest, i - 1);
        assert(!(events.first() is ConnectionFailure));
        assert(run_loop(events) == seq![step_action(events.first())] + run_loop(rest));
        assert(front.drop_first() =~= rest.take(i));
        assert(front.first() == events.first());
        assert(run_loop(front) == seq![step_action(front.first())] + run_loop(front.drop_first()));
        assert(run_loop(events) =~= run_loop(front));
        assert forall|j: int| 0 <= j < i implies run_loop(events)[j] == step_action(
            events[j],
        ) by {
            if j > 0 {
                assert(run_loop(rest)[j - 1] == step_action(rest[j - 1]));
                assert(rest[j - 1] == events[j]);
            }
        }
    }
}

/// Drive a freshly started loop over a whole queue of events, as the
/// process would: step by step, stopping at the first connection failure.
/// Returns the state the loop ends in and the actions it handed out.
pub fn process_events(events: Vec<ConnectionEvent>) -> (r: (LoopState, Vec<PollAction>))
    ensures
        r.1@ == run_loop(events@),
        r.0 is Terminated <==> contains_failure(events@),
{
    let ghost all: Seq<ConnectionEvent> = events@;
    let mut queue = events;
    let mut actions: Vec<PollAction> = Vec::new();
    let mut state = LoopState::Polling;
    let mut failed = false;
    while !failed && queue.len() > 0
        invariant
            !failed ==> state is Polling && actions@ + run_loop(queue@) =~= run_loop(all)
                && (contains_failure(all) <==> contains_failure(queue@)),
            failed ==> state is Terminated && actions@ =~= run_loop(all) && contains_failure(all),
        decreases queue@.len(),
    {
        let ghost q0: Seq<ConnectionEvent> = queue@;
        let ev = queue.remove(0);
        proof {
            assert(queue@ =~= q0.drop_first());
        }
        let (next, act) = poll_step(state, ev);
        state = next;
        if let LoopState::Terminated = state {
            failed = true;
        }
        actions.push(act);
        proof {
            if ev is ConnectionFailure {
                assert(run_loop(q0) =~= seq![PollAction::Exit]);
                assert(actions@ =~= run_loop(all));
            } else {
                assert(run_loop(q0) =~= seq![step_action(q0.first())] + run_loop(q0.drop_first()));
                assert(actions@ + run_loop(queue@) =~= run_loop(all));
            }
        }
    }
    proof {
        if !failed {
            assert(actions@ =~= run_loop(all));
        }
    }
    (state, actions)
}

} // verus!
