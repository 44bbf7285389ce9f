use vstd::prelude::*;

verus! {

/// The line printed when the task starts running.
pub const GREETING: &'static str = "Hello from async";

/// The line printed once the connection is open.
pub const COMPLETION: &'static str = "async TCP operation complet";

/// The address the task connects to.
pub const SERVER_ADDRESS: &'static str = "127.0.0.1:8080";

/// Where the greeting task stands between two resumptions.
#[derive(Clone, Copy, Debug, PartialEq, Eq, Structural)]
pub enum Phase {
    /// Created but never resumed: nothing has happened yet.
    Created,
    /// The greeting has been printed.
    Greeted,
    /// The connection has been requested and is awaited.
    Connecting,
    /// The connection is open and the completion line has been printed.
    Connected,
    /// The task has returned.
    Finished,
    /// The connection could not be opened and the task panicked.
    Failed,
}

/// What the driver of the task reports when it resumes the task.
#[derive(Clone, Copy, Debug, PartialEq, Eq, Structural)]
pub enum Event {
    /// The previous action is done and nothing more is known; while the
    /// connection is awaited, it means that it has not resolved yet.
    Resume,
    /// The awaited connection was opened.
    Connected,
    /// The awaited connection could not be opened.
    ConnectFailed,
}

/// What the task asks its driver to do next.
#[derive(Clone, Copy, Debug, PartialEq, Eq, Structural)]
pub enum Action {
    /// Print `GREETING`.
    PrintGreeting,
    /// Start connecting to `SERVER_ADDRESS` and report how it ends.
    Connect,
    /// Nothing to do until the connection resolves.
    Wait,
    /// Print `COMPLETION`.
    PrintCompletion,
    /// The task returns: it is complete.
    Return,
    /// The connection failed and its result is unwrapped: panic with the error.
    Panic,
}

impl Phase {
    /// The task cannot be resumed again.
    pub open spec fn has_ended(self) -> bool {
        self is Finished || self is Failed
    }

    /// Whether the task has returned or panicked.
    pub fn is_terminal(&self) -> (r: bool)
        ensures
            r == self.has_ended(),
    {
        match self {
            Phase::Finished | Phase::Failed => true,
            _ => false,
        }
    }

    /// The effects a task in this phase has performed since it was created,
    /// in order.
    pub open spec fn history(self) -> Seq<Action> {
        match self {
            Phase::Created => seq![],
            Phase::Greeted => seq![Action::PrintGreeting],
            Phase::Connecting => seq![Action::PrintGreeting, Action::Connect],
            Phase::Connected => seq![
                Action::PrintGreeting,
                Action::Connect,
                Action::PrintCompletion,
            ],
            Phase::Finished => seq![
                Action::PrintGreeting,
                Action::Connect,
                Action::PrintCompletion,
                Action::Return,
            ],
            Phase::Failed => seq![Action::PrintGreeting, Action::Connect, Action::Panic],
        }
    }
}

/// One resumption of the task: from the phase it is in and what the driver
/// reports, the phase it moves to and the action it asks for.
///
/// Outside the wait for the connection the task reads nothing from the
/// event; while it waits, a `Resume` means the connection is still pending.
pub open spec fn transition(phase: Phase, event: Event) -> (Phase, Action) {
    match phase {
        Phase::Created => (Phase::Greeted, Action::PrintGreeting),
        Phase::Greeted => (Phase::Connecting, Action::Connect),
        Phase::Connecting => match event {
            Event::Resume => (Phase::Connecting, Action::Wait),
            Event::Connected => (Phase::Connected, Action::PrintCompletion),
            Event::ConnectFailed => (Phase::Failed, Action::Panic),
        },
        Phase::Connected => (Phase::Finished, Action::Return),
        Phase::Finished => (Phase::Finished, Action::Wait),
        Phase::Failed => (Phase::Failed, Action::Wait),
    }
}

/// The task that greets, connects to `SERVER_ADDRESS`, and reports the
/// connection. Like any asynchronous function it is lazy: creating it does
/// nothing, and each step happens only when its driver resumes it.
pub struct GreetingTask {
    phase: Phase,
}

impl View for GreetingTask {
    type V = Phase;

    closed spec fn view(&self) -> Phase {
        self.phase
    }
}

impl GreetingTask {
    /// A task that has not started: nothing is printed or connected yet.
    pub fn new() -> (task: Self)
        ensures
            task@ == Phase::Created,
    {
        GreetingTask { phase: Phase::Created }
    }

    /// The phase the task is in.
    pub fn phase(&self) -> (p: Phase)
        ensures
            p == self@,
    {
        self.phase
    }

    /// Resumes the task with what the driver reports, and returns what the
    /// task asks for next. A task that has returned or panicked cannot be
    /// resumed.
    pub fn resume(&mut self, event: Event) -> (action: Action)
        requires
            !old(self)@.has_ended(),
        ensures
            (final(self)@, action) == transition(old(self)@, event),
            old(self)@ is Created ==> final(self)@ is Greeted && action is PrintGreeting,
            old(self)@ is Greeted ==> final(self)@ is Connecting && action is Connect,
            old(self)@ is Connecting && event is Resume ==> final(self)@ is Connecting
                && action is Wait,
            old(self)@ is Connecting && event is Connected ==> final(self)@ is Connected
                && action is PrintCompletion,
            old(self)@ is Connecting && event is ConnectFailed ==> final(self)@ is Failed
                && action is Panic,
            old(self)@ is Connected ==> final(self)@ is Finished && action is Return,
    {
        let (next, action) = match self.phase {
            Phase::Created => (Phase::Greeted, Action::PrintGreeting),
            Phase::Greeted => (Phase::Connecting, Action::Connect),
            Phase::Connecting => match event {
                Event::Resume => (Phase::Connecting, Action::Wait),
                Event::Connected => (Phase::Connected, Action::PrintCompletion),
                Event::ConnectFailed => (Phase::Failed, Action::Panic),
            },
            Phase::Connected => (Phase::Finished, Action::Return),
            Phase::Finished => (Phase::Finished, Action::Wait),
            Phase::Failed => (Phase::Failed, Action::Wait),
        };
        self.phase = next;
        action
    }
}

} // verus!
