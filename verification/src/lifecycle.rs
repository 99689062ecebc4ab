//! The life of the main window, from boot to termination.
//!
//! The controller holds an explicit state and moves it only along guarded
//! transitions. The shell performs what the controller asks for (acquiring
//! and closing the window is the runtime's work) and reports what happened as
//! the next event. An event that the current state does not expect changes
//! nothing and asks for nothing, so a close request that arrives twice cannot
//! close the window twice.

use vstd::prelude::*;
use crate::info::app_name;

verus! {

/// Where the application stands in its life.
#[derive(Clone, Copy, Debug, PartialEq, Eq, Structural)]
pub enum LifecycleState {
    /// The process has booted; the main window is not yet set up.
    Starting,
    /// The main window is set up and the application is in use.
    Running,
    /// A close request was taken up; the window is being closed.
    ClosingRequested,
    /// The window is gone, or the process gave up.
    Terminated,
}

/// What the shell reports to the controller.
#[derive(Clone, Copy, Debug, PartialEq, Eq, Structural)]
pub enum LifecycleEvent {
    /// The main window was acquired and its title set.
    WindowReady,
    /// The main window could not be acquired, or its title not set.
    WindowUnavailable,
    /// The user or the operating system asked to close the main window.
    CloseRequested,
    /// The forced closure of the window went through.
    WindowClosed,
    /// The forced closure of the window failed.
    CloseFailed,
}

/// What the controller asks the shell to do.
#[derive(Clone, Copy, Debug, PartialEq, Eq, Structural)]
pub enum LifecycleAction {
    /// Open the developer tools on the main window.
    OpenDevtools,
    /// Keep the runtime from closing the window on its own.
    PreventClose,
    /// Close the window.
    CloseWindow,
    /// Give up: the window could not be set up at boot.
    AbortStartup,
    /// Give up: the window could not be closed after a close request.
    AbortShutdown,
}

/// The state that follows an event.
pub open spec fn next_state(state: LifecycleState, event: LifecycleEvent) -> LifecycleState {
    match (state, event) {
        (LifecycleState::Starting, LifecycleEvent::WindowReady) => LifecycleState::Running,
        (LifecycleState::Starting, LifecycleEvent::WindowUnavailable) => LifecycleState::Terminated,
        (LifecycleState::Running, LifecycleEvent::CloseRequested) => LifecycleState::ClosingRequested,
        (LifecycleState::ClosingRequested, LifecycleEvent::WindowClosed) => LifecycleState::Terminated,
        (LifecycleState::ClosingRequested, LifecycleEvent::CloseFailed) => LifecycleState::Terminated,
        _ => state,
    }
}

/// What the shell is asked to do on an event, in order. The developer tools
/// are opened in development builds only.
pub open spec fn actions_for(
    state: LifecycleState,
    development: bool,
    event: LifecycleEvent,
) -> Seq<LifecycleAction> {
    match (state, event) {
        (LifecycleState::Starting, LifecycleEvent::WindowReady) => if development {
            seq![LifecycleAction::OpenDevtools]
        } else {
            Seq::empty()
        },
        (LifecycleState::Starting, LifecycleEvent::WindowUnavailable) => seq![
            LifecycleAction::AbortStartup,
        ],
        (LifecycleState::Running, LifecycleEvent::CloseRequested) => seq![
            LifecycleAction::PreventClose,
            LifecycleAction::CloseWindow,
        ],
        (LifecycleState::ClosingRequested, LifecycleEvent::CloseFailed) => seq![
            LifecycleAction::AbortShutdown,
        ],
        _ => Seq::empty(),
    }
}

/// The state after a run of events, and everything the shell was asked to do
/// along the way.
pub open spec fn run(
    state: LifecycleState,
    development: bool,
    events: Seq<LifecycleEvent>,
) -> (LifecycleState, Seq<LifecycleAction>)
    decreases events.len(),
{
    if events.len() == 0 {
        (state, Seq::empty())
    } else {
        let rest = run(next_state(state, events[0]), development, events.drop_first());
        (rest.0, actions_for(state, development, events[0]) + rest.1)
    }
}

/// How often a list of actions asks to close the window.
pub open spec fn close_attempts(actions: Seq<LifecycleAction>) -> nat
    decreases actions.len(),
{
    if actions.len() == 0 {
        0
    } else {
        close_attempts(actions.drop_last()) + if actions.last() == LifecycleAction::CloseWindow {
            1nat
        } else {
            0nat
        }
    }
}

/// The label under which the runtime knows the main window.
pub open spec fn main_window() -> Seq<char> {
    "main"@
}

/// The label of the window that the shell acquires at boot.
pub fn main_window_label() -> (label: &'static str)
    ensures
        label@ == main_window(),
{
    "main"
}

/// The title that the shell gives the main window at boot: the name of the
/// application.
pub fn window_title() -> (title: &'static str)
    ensures
        title@ == app_name(),
{
    "FatturaAnalyzer v2"
}

/// The lifecycle controller.
#[derive(Debug, PartialEq, Eq)]
pub struct Lifecycle {
    state: LifecycleState,
    development: bool,
}

/// The model of a [`Lifecycle`].
pub struct LifecycleView {
    pub state: LifecycleState,
    pub development: bool,
}

impl View for Lifecycle {
    type V = LifecycleView;

    closed spec fn view(&self) -> LifecycleView {
        LifecycleView { state: self.state, development: self.development }
    }
}

impl Lifecycle {
    /// A controller at boot, for a development build or a release build.
    pub fn new(development: bool) -> (controller: Lifecycle)
        ensures
            controller@ == (LifecycleView { state: LifecycleState::Starting, development }),
    {
        Lifecycle { state: LifecycleState::Starting, development }
    }

    /// The current state.
    pub fn state(&self) -> (state: LifecycleState)
        ensures
            state == self@.state,
    {
        self.state
    }

    /// Whether the controller serves a development build.
    pub fn is_development(&self) -> (development: bool)
        ensures
            development == self@.development,
    {
        self.development
    }

    /// Takes an event: moves the state along the transition that the event
    /// fires, if any, and returns what the shell has to do, in order.
    pub fn handle(&mut self, event: LifecycleEvent) -> (actions: Vec<LifecycleAction>)
        ensures
            final(self)@.state == next_state(old(self)@.state, event),
            final(self)@.development == old(self)@.development,
            actions@ == actions_for(old(self)@.state, old(self)@.development, event),
    {
        let mut actions: Vec<LifecycleAction> = Vec::new();
        match (self.state, event) {
            (LifecycleState::Starting, LifecycleEvent::WindowReady) => {
                if self.development {
                    actions.push(LifecycleAction::OpenDevtools);
                }
                self.state = LifecycleState::Running;
            },
            (LifecycleState::Starting, LifecycleEvent::WindowUnavailable) => {
                actions.push(LifecycleAction::AbortStartup);
                self.state = LifecycleState::Terminated;
            },
            (LifecycleState::Running, LifecycleEvent::CloseRequested) => {
                actions.push(LifecycleAction::PreventClose);
                actions.push(LifecycleAction::CloseWindow);
                self.state = LifecycleState::ClosingRequested;
            },
            (LifecycleState::ClosingRequested, LifecycleEvent::WindowClosed) => {
                self.state = LifecycleState::Terminated;
            },
            (LifecycleState::ClosingRequested, LifecycleEvent::CloseFailed) => {
                actions.push(LifecycleAction::AbortShutdown);
                self.state = LifecycleState::Terminated;
            },
            _ => {},
        }
        actions
    }
}

/// The close attempts of two lists of actions, one after the other, are
/// those of the first and those of the second.
pub proof fn lemma_close_attempts_add(first: Seq<LifecycleAction>, second: Seq<LifecycleAction>)
    ensures
        close_attempts(first + second) == close_attempts(first) + close_attempts(second),
    decreases second.len(),
{
    if second.len() == 0 {
        assert(first + second =~= first);
    } else {
        lemma_close_attempts_add(first, second.drop_last());
        assert((first + second).drop_last() =~= first + second.drop_last());
        assert((first + second).last() == second.last());
    }
}

/// No single event asks to close the window more than once, and only a
/// close request taken up while running asks for it at all.
pub proof fn lemma_close_attempts_of_step(
    state: LifecycleState,
    development: bool,
    event: LifecycleEvent,
)
    ensures
        close_attempts(actions_for(state, development, event)) == if state == LifecycleState::Running
            && event == LifecycleEvent::CloseRequested {
            1nat
        } else {
            0nat
        },
{
    let actions = actions_for(state, development, event);
    reveal_with_fuel(close_attempts, 3);
    if actions.len() == 2 {
        assert(actions.drop_last().drop_last().len() == 0);
    } else if actions.len() == 1 {
        assert(actions.drop_last().len() == 0);
    }
}

/// Whatever events arrive, in whatever state and order, the window is asked
/// to close at most once; and once a close request has been taken up, or the
/// application has terminated, it is never asked again.
pub proof fn lemma_at_most_one_close_attempt(
    state: LifecycleState,
    development: bool,
    events: Seq<LifecycleEvent>,
)
    ensures
        close_attempts(run(state, development, events).1) <= 1,
        state == LifecycleState::ClosingRequested || state == LifecycleState::Terminated
            ==> close_attempts(run(state, development, events).1) == 0,
    decreases events.len(),
{
    if events.len() > 0 {
        let next = next_state(state, events[0]);
        let rest = run(next, development, events.drop_first());
        lemma_at_most_one_close_attempt(next, development, events.drop_first());
        lemma_close_attempts_of_step(state, development, events[0]);
        lemma_close_attempts_add(actions_for(state, development, events[0]), rest.1);
    }
}

/// A close request while running is taken up at once, and the window is
/// asked to close exactly once, however many further close requests and
/// other events follow it.
pub proof fn lemma_close_request_closes_once(development: bool, later: Seq<LifecycleEvent>)
    ensures
        next_state(LifecycleState::Running, LifecycleEvent::CloseRequested)
            == LifecycleState::ClosingRequested,
        close_attempts(
            run(
                LifecycleState::Running,
                development,
                seq![LifecycleEvent::CloseRequested] + later,
            ).1,
        ) == 1,
{
    let events = seq![LifecycleEvent::CloseRequested] + later;
    assert(events[0] == LifecycleEvent::CloseRequested);
    assert(events.drop_first() =~= later);
    let rest = run(LifecycleState::ClosingRequested, development, later);
    lemma_at_most_one_close_attempt(LifecycleState::ClosingRequested, development, later);
    lemma_close_attempts_of_step(LifecycleState::Running, development, LifecycleEvent::CloseRequested);
    lemma_close_attempts_add(
        actions_for(LifecycleState::Running, development, LifecycleEvent::CloseRequested),
        rest.1,
    );
}

/// Running through two lists of events, one after the other, is running
/// through the first and then, from the state that it ends in, through the
/// second.
pub proof fn lemma_run_add(
    state: LifecycleState,
    development: bool,
    first: Seq<LifecycleEvent>,
    second: Seq<LifecycleEvent>,
)
    ensures
        run(state, development, first + second) == ({
            let head = run(state, development, first);
            let tail = run(head.0, development, second);
            (tail.0, head.1 + tail.1)
        }),
    decreases first.len(),
{
    if first.len() == 0 {
        let tail = run(state, development, second);
        assert(first + second =~= second);
        assert(Seq::<LifecycleAction>::empty() + tail.1 =~= tail.1);
    } else {
        let now = actions_for(state, development, first[0]);
        let next = next_state(state, first[0]);
        let head = run(next, development, first.drop_first());
        let tail = run(head.0, development, second);
        assert((first + second)[0] == first[0]);
        assert((first + second).drop_first() =~= first.drop_first() + second);
        lemma_run_add(next, development, first.drop_first(), second);
        assert(now + (head.1 + tail.1) =~= (now + head.1) + tail.1);
    }
}

/// While the window is being closed, further close requests change nothing
/// and ask for nothing.
pub proof fn lemma_closing_ignores_close_requests(
    development: bool,
    requests: Seq<LifecycleEvent>,
)
    requires
        forall|i: int| 0 <= i < requests.len() ==> requests[i] == LifecycleEvent::CloseRequested,
    ensures
        run(LifecycleState::ClosingRequested, development, requests) == (
            LifecycleState::ClosingRequested,
            Seq::<LifecycleAction>::empty(),
        ),
    decreases requests.len(),
{
    if requests.len() > 0 {
        lemma_closing_ignores_close_requests(development, requests.drop_first());
        assert(run(LifecycleState::ClosingRequested, development, requests).1 =~= Seq::<
            LifecycleAction,
        >::empty());
    }
}

/// A close request while running, and the closure that answers it, take the
/// application from running to terminated, once and for all: however many
/// close requests are repeated before the window is gone, and whatever
/// arrives after, the state ends as terminated, and all that the shell was
/// ever asked to do is to keep the runtime from closing the window and then
/// to close it, once each.
pub proof fn lemma_close_terminates_once(
    development: bool,
    repeated: Seq<LifecycleEvent>,
    later: Seq<LifecycleEvent>,
)
    requires
        forall|i: int| 0 <= i < repeated.len() ==> repeated[i] == LifecycleEvent::CloseRequested,
    ensures
        run(
            LifecycleState::Running,
            development,
            seq![LifecycleEvent::CloseRequested] + repeated + seq![LifecycleEvent::WindowClosed]
                + later,
        ) == (
            LifecycleState::Terminated,
            seq![LifecycleAction::PreventClose, LifecycleAction::CloseWindow],
        ),
{
    let request = seq![LifecycleEvent::CloseRequested];
    let closed = seq![LifecycleEvent::WindowClosed];
    let asked = seq![LifecycleAction::PreventClose, LifecycleAction::CloseWindow];
    let nothing = Seq::<LifecycleAction>::empty();
    // Each of the four stretches on its own.
    assert(run(LifecycleState::Running, development, request) == (
        LifecycleState::ClosingRequested,
        asked,
    )) by {
        reveal_with_fuel(run, 2);
        assert(request.drop_first() =~= Seq::<LifecycleEvent>::empty());
        assert(run(LifecycleState::Running, development, request).1 =~= asked);
    }
    lemma_closing_ignores_close_requests(development, repeated);
    assert(run(LifecycleState::ClosingRequested, development, closed) == (
        LifecycleState::Terminated,
        nothing,
    )) by {
        reveal_with_fuel(run, 2);
        assert(closed.drop_first() =~= Seq::<LifecycleEvent>::empty());
        assert(run(LifecycleState::ClosingRequested, development, closed).1 =~= nothing);
    }
    lemma_terminated_is_final(development, later);
    // The stretches put together.
    lemma_run_add(LifecycleState::Running, development, request, repeated);
    lemma_run_add(LifecycleState::Running, development, request + repeated, closed);
    lemma_run_add(LifecycleState::Running, development, request + repeated + closed, later);
    assert(asked + nothing + nothing + nothing =~= asked);
}

/// Termination is final: in the terminated state no event changes the state
/// or asks the shell for anything.
pub proof fn lemma_terminated_is_final(development: bool, events: Seq<LifecycleEvent>)
    ensures
        run(LifecycleState::Terminated, development, events) == (
            LifecycleState::Terminated,
            Seq::<LifecycleAction>::empty(),
        ),
    decreases events.len(),
{
    if events.len() > 0 {
        lemma_terminated_is_final(development, events.drop_first());
        assert(run(LifecycleState::Terminated, development, events).1 =~= Seq::<
            LifecycleAction,
        >::empty());
    }
}

} // verus!
