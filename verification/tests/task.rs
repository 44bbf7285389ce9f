use async_hello::task::{Action, Event, GreetingTask, Phase, COMPLETION, GREETING, SERVER_ADDRESS};

fn drive(events: &[Event]) -> (Phase, Vec<Action>) {
    let mut task = GreetingTask::new();
    let mut actions = Vec::new();
    for event in events {
        if task.phase().is_terminal() {
            break;
        }
        actions.push(task.resume(*event));
    }
    (task.phase(), actions)
}

#[test]
fn new_task_has_done_nothing() {
    let task = GreetingTask::new();
    assert_eq!(task.phase(), Phase::Created);
    assert!(!task.phase().is_terminal());
}

#[test]
fn successful_connection_runs_to_completion() {
    let (end, actions) = drive(&[Event::Resume, Event::Resume, Event::Connected, Event::Resume]);
    assert_eq!(end, Phase::Finished);
    assert_eq!(
        actions,
        vec![Action::PrintGreeting, Action::Connect, Action::PrintCompletion, Action::Return]
    );
}

#[test]
fn failed_connection_panics_without_completion_line() {
    let (end, actions) = drive(&[
        Event::Resume,
        Event::Resume,
        Event::ConnectFailed,
        Event::Resume,
        Event::Connected,
    ]);
    assert_eq!(end, Phase::Failed);
    assert_eq!(actions, vec![Action::PrintGreeting, Action::Connect, Action::Panic]);
}

#[test]
fn pending_connection_waits() {
    let mut task = GreetingTask::new();
    assert_eq!(task.resume(Event::Resume), Action::PrintGreeting);
    assert_eq!(task.phase(), Phase::Greeted);
    assert_eq!(task.resume(Event::Resume), Action::Connect);
    assert_eq!(task.phase(), Phase::Connecting);
    assert_eq!(task.resume(Event::Resume), Action::Wait);
    assert_eq!(task.resume(Event::Resume), Action::Wait);
    assert_eq!(task.phase(), Phase::Connecting);
    assert_eq!(task.resume(Event::Connected), Action::PrintCompletion);
    assert_eq!(task.phase(), Phase::Connected);
    assert_eq!(task.resume(Event::Resume), Action::Return);
    assert!(task.phase().is_terminal());
}

#[test]
fn reports_outside_the_wait_are_not_read() {
    let (end, actions) = drive(&[Event::ConnectFailed, Event::Connected, Event::Connected]);
    assert_eq!(end, Phase::Connected);
    assert_eq!(
        actions,
        vec![Action::PrintGreeting, Action::Connect, Action::PrintCompletion]
    );
}

#[test]
fn greeting_always_comes_first() {
    for first in [Event::Resume, Event::Connected, Event::ConnectFailed] {
        let (_, actions) = drive(&[first]);
        assert_eq!(actions, vec![Action::PrintGreeting]);
    }
}

#[test]
fn reports_after_the_end_are_not_consumed() {
    let events = [
        Event::Resume,
        Event::Resume,
        Event::Connected,
        Event::Resume,
        Event::Resume,
        Event::Resume,
    ];
    let (end, actions) = drive(&events);
    assert_eq!(end, Phase::Finished);
    assert_eq!(actions.len(), 4);
}

#[test]
fn terminal_phases() {
    assert!(Phase::Finished.is_terminal());
    assert!(Phase::Failed.is_terminal());
    for p in [Phase::Created, Phase::Greeted, Phase::Connecting, Phase::Connected] {
        assert!(!p.is_terminal());
    }
}

#[test]
fn printed_lines_and_address() {
    assert_eq!(GREETING, "Hello from async");
    assert_eq!(COMPLETION, "async TCP operation complet");
    assert_eq!(SERVER_ADDRESS, "127.0.0.1:8080");
}
