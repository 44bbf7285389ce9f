use crate::task::{transition, Action, Event, Phase};
use vstd::prelude::*;

verus! {

/// Drives a task in `phase` with the reports `events`, one resumption per
/// report, until the reports run out or the task has returned or panicked.
/// The result is the phase it ends in and the actions it asked for, in order.
pub open spec fn run(phase: Phase, events: Seq<Event>) -> (Phase, Seq<Action>)
    decreases events.len(),
{
    if events.len() == 0 || phase.has_ended() {
        (phase, seq![])
    } else {
        let (next, action) = transition(phase, events[0]);
        let (end, rest) = run(next, events.drop_first());
        (end, seq![action] + rest)
    }
}

/// The actions that do something, in order: all but `Wait`.
pub open spec fn effects(actions: Seq<Action>) -> Seq<Action>
    decreases actions.len(),
{
    if actions.len() == 0 {
        seq![]
    } else if actions[0] is Wait {
        effects(actions.drop_first())
    } else {
        seq![actions[0]] + effects(actions.drop_first())
    }
}

proof fn lemma_effects_prepend(action: Action, rest: Seq<Action>)
    ensures
        effects(seq![action] + rest) == (if action is Wait {
            seq![]
        } else {
            seq![action]
        }) + effects(rest),
{
    let s = seq![action] + rest;
    assert(s[0] == action);
    assert(s.drop_first() =~= rest);
    if action is Wait {
        assert(seq![] + effects(rest) =~= effects(rest));
    }
}

proof fn lemma_history_extends(phase: Phase, events: Seq<Event>)
    ensures
        phase.history() + effects(run(phase, events).1) == run(phase, events).0.history(),
    decreases events.len(),
{
    if events.len() == 0 || phase.has_ended() {
        assert(phase.history() + seq![] =~= phase.history());
    } else {
        let (next, action) = transition(phase, events[0]);
        let rest = run(next, events.drop_first()).1;
        lemma_history_extends(next, events.drop_first());
        lemma_effects_prepend(action, rest);
        let step = if action is Wait {
            seq![]
        } else {
            seq![action]
        };
        assert(phase.history() + step =~= next.history());
        assert(phase.history() + (step + effects(rest)) =~= (phase.history() + step) + effects(
            rest,
        ));
    }
}

/// What a task has done is fixed by the phase it is in: from creation, the
/// effects of every run (all actions but waits) are exactly the history of
/// the phase the run ends in. So the greeting comes first, the connection is
/// attempted once, the completion line is printed only once the connection
/// is open, and the task returns only after that line.
pub proof fn law_effects_follow_phase(events: Seq<Event>)
    ensures
        effects(run(Phase::Created, events).1) == run(Phase::Created, events).0.history(),
{
    lemma_history_extends(Phase::Created, events);
    assert(seq![] + effects(run(Phase::Created, events).1) =~= effects(
        run(Phase::Created, events).1,
    ));
}

proof fn lemma_length(phase: Phase, events: Seq<Event>)
    ensures
        run(phase, events).1.len() <= events.len(),
        run(phase, events).1.len() < events.len() ==> run(phase, events).0.has_ended(),
    decreases events.len(),
{
    if events.len() > 0 && !phase.has_ended() {
        lemma_length(transition(phase, events[0]).0, events.drop_first());
    }
}

/// Each report resumes the task once and gets one action back, until the
/// task has returned or panicked; reports after that are not consumed.
pub proof fn law_one_action_per_resumption(phase: Phase, events: Seq<Event>)
    ensures
        run(phase, events).1.len() <= events.len(),
        run(phase, events).1.len() < events.len() ==> run(phase, events).0.has_ended(),
{
    lemma_length(phase, events);
}

proof fn lemma_responses(phase: Phase, events: Seq<Event>, i: int)
    requires
        0 <= i < run(phase, events).1.len(),
    ensures
        i < events.len(),
        run(phase, events).1[i] is PrintCompletion ==> events[i] is Connected,
        run(phase, events).1[i] is Panic ==> events[i] is ConnectFailed && i == run(
            phase,
            events,
        ).1.len() - 1 && run(phase, events).0 is Failed,
    decreases events.len(),
{
    let (next, action) = transition(phase, events[0]);
    let rest = events.drop_first();
    if i == 0 {
        if action is Panic {
            assert(next is Failed);
            assert(run(next, rest).1.len() == 0);
        }
    } else {
        lemma_responses(next, rest, i - 1);
    }
}

/// The task prints its completion line only in answer to the report that
/// the connection was opened, and panics only in answer to the report that
/// it failed; the panic is the last thing the task does, and it leaves the
/// task failed.
pub proof fn law_answers_follow_reports(phase: Phase, events: Seq<Event>, i: int)
    requires
        0 <= i < run(phase, events).1.len(),
    ensures
        run(phase, events).1[i] is PrintCompletion ==> events[i] is Connected,
        run(phase, events).1[i] is Panic ==> events[i] is ConnectFailed,
        run(phase, events).1[i] is Panic ==> i == run(phase, events).1.len() - 1 && run(
            phase,
            events,
        ).0 is Failed,
{
    lemma_responses(phase, events, i);
}


/// Outside the wait for the connection the task reads nothing from what its
/// driver reports: in every other phase, any two reports give the same next
/// phase and the same action.
pub proof fn law_reports_read_only_while_connecting(phase: Phase, e1: Event, e2: Event)
    requires
        !(phase is Connecting),
    ensures
        transition(phase, e1) == transition(phase, e2),
{
}

/// Each step of the task, whatever is reported: a new task prints the
/// greeting, a greeted task asks to connect to the server, and a task whose
/// connection is open returns.
pub proof fn law_steps_outside_the_wait(event: Event)
    ensures
        transition(Phase::Created, event) == (Phase::Greeted, Action::PrintGreeting),
        transition(Phase::Greeted, event) == (Phase::Connecting, Action::Connect),
        transition(Phase::Connected, event) == (Phase::Finished, Action::Return),
{
}

/// While the connection is awaited, the report decides: still pending means
/// wait, opened means print the completion line, failed means panic.
pub proof fn law_wait_for_the_connection()
    ensures
        transition(Phase::Connecting, Event::Resume) == (Phase::Connecting, Action::Wait),
        transition(Phase::Connecting, Event::Connected) == (
            Phase::Connected,
            Action::PrintCompletion,
        ),
        transition(Phase::Connecting, Event::ConnectFailed) == (Phase::Failed, Action::Panic),
{
}

/// Whatever a driver reports, the first two resumptions of a new task print
/// the greeting and then ask to connect; after them the task awaits the
/// connection.
pub proof fn law_greets_then_connects(events: Seq<Event>)
    requires
        events.len() == 2,
    ensures
        run(Phase::Created, events) == (
            Phase::Connecting,
            seq![Action::PrintGreeting, Action::Connect],
        ),
{
    let e1 = events.drop_first();
    let e2 = e1.drop_first();
    assert(e2.len() == 0);
    assert(run(Phase::Connecting, e2) == (Phase::Connecting, Seq::<Action>::empty()));
    assert(run(Phase::Greeted, e1).1 =~= seq![Action::Connect]);
    assert(run(Phase::Created, events).1 =~= seq![Action::PrintGreeting, Action::Connect]);
}

/// A new task whose connection opens at the third resumption prints the
/// greeting, connects, prints the completion line and returns at the fourth,
/// whatever else is reported; later reports are not consumed.
pub proof fn law_successful_run(events: Seq<Event>)
    requires
        events.len() >= 4,
        events[2] is Connected,
    ensures
        run(Phase::Created, events) == (
            Phase::Finished,
            seq![Action::PrintGreeting, Action::Connect, Action::PrintCompletion, Action::Return],
        ),
{
    let e1 = events.drop_first();
    let e2 = e1.drop_first();
    let e3 = e2.drop_first();
    let e4 = e3.drop_first();
    assert(e2[0] == events[2]);
    assert(run(Phase::Finished, e4) == (Phase::Finished, Seq::<Action>::empty()));
    assert(run(Phase::Connected, e3).1 =~= seq![Action::Return]);
    assert(run(Phase::Connecting, e2).1 =~= seq![Action::PrintCompletion, Action::Return]);
    assert(run(Phase::Greeted, e1).1 =~= seq![
        Action::Connect,
        Action::PrintCompletion,
        Action::Return,
    ]);
    assert(run(Phase::Created, events).1 =~= seq![
        Action::PrintGreeting,
        Action::Connect,
        Action::PrintCompletion,
        Action::Return,
    ]);
}

/// A new task whose connection fails at the third resumption prints the
/// greeting, connects, and panics there, whatever else is reported; later
/// reports are not consumed.
pub proof fn law_failed_run(events: Seq<Event>)
    requires
        events.len() >= 3,
        events[2] is ConnectFailed,
    ensures
        run(Phase::Created, events) == (
            Phase::Failed,
            seq![Action::PrintGreeting, Action::Connect, Action::Panic],
        ),
{
    let e1 = events.drop_first();
    let e2 = e1.drop_first();
    let e3 = e2.drop_first();
    assert(e2[0] == events[2]);
    assert(run(Phase::Failed, e3) == (Phase::Failed, Seq::<Action>::empty()));
    assert(run(Phase::Connecting, e2).1 =~= seq![Action::Panic]);
    assert(run(Phase::Greeted, e1).1 =~= seq![Action::Connect, Action::Panic]);
    assert(run(Phase::Created, events).1 =~= seq![
        Action::PrintGreeting,
        Action::Connect,
        Action::Panic,
    ]);
}

} // verus!
