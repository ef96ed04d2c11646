//! The program's session as a state machine: the caller performs each
//! action against the X server or the operating system and hands back what
//! happened; the machine decides what comes next and the exit status.
use vstd::prelude::*;
use crate::text::{ascii_bytes, ascii_bytes_of};
use crate::xconst::{ESCAPE_KEYCODE, KEY_PRESS, STDOUT_FD};

verus! {

/// Which program runs: the full one that opens a fullscreen GL window and
/// waits for Escape, or the minimal one that only opens and closes the
/// display.
#[derive(Clone, Copy, Debug, PartialEq, Eq, Structural)]
pub enum Program {
    Full,
    Minimal,
}

/// Where the session stands.
#[derive(Clone, Copy, Debug, PartialEq, Eq, Structural)]
pub enum State {
    /// The display is being opened.
    Opening(Program),
    /// The window, its properties and the GL context are being set up.
    SettingUp,
    /// Waiting for X events.
    Running,
    /// The Escape report is being written.
    Reporting,
    /// The connection is being shut down.
    Closing,
    /// The process exits with this status.
    Exited(i32),
}

/// What happened when the caller carried out the last action.
#[derive(Clone, Copy, Debug, PartialEq, Eq, Structural)]
pub enum Event {
    /// `XOpenDisplay` returned; `is_null` tells whether it failed.
    DisplayOpened { is_null: bool },
    /// The window is mapped, fullscreen is requested, the GL context is
    /// current and the first frame is swapped.
    SetUpDone,
    /// `XNextEvent` delivered an event of type `kind`; `keycode` is the
    /// key event's keycode (meaningful for key events only).
    XEvent { kind: i32, keycode: u32 },
    /// The report was written.
    Written,
    /// The connection is shut down.
    Closed,
}

/// What the caller is to do next.
#[derive(Clone, Debug, PartialEq, Eq)]
pub enum Action {
    /// Open the default display.
    OpenDisplay,
    /// Create and map the window, request fullscreen, create the GL context
    /// and make it current, enable depth testing and swap buffers.
    SetUpWindow,
    /// Wait for the next X event.
    NextEvent,
    /// Write `bytes` to file descriptor `fd`.
    Write { fd: i32, bytes: Vec<u8> },
    /// Release and destroy the GL context, destroy the window and close the
    /// display, in that order.
    TearDown,
    /// Close the display.
    CloseDisplay,
    /// Exit the process with `status`.
    Exit { status: i32 },
    /// Nothing: the event was not one the session waits for here.
    Nothing,
}

/// An action as a mathematical value.
pub enum ActionView {
    OpenDisplay,
    SetUpWindow,
    NextEvent,
    Write { fd: i32, bytes: Seq<u8> },
    TearDown,
    CloseDisplay,
    Exit { status: i32 },
    Nothing,
}

impl View for Action {
    type V = ActionView;

    open spec fn view(&self) -> ActionView {
        match self {
            Action::OpenDisplay => ActionView::OpenDisplay,
            Action::SetUpWindow => ActionView::SetUpWindow,
            Action::NextEvent => ActionView::NextEvent,
            Action::Write { fd, bytes } => ActionView::Write { fd: *fd, bytes: bytes@ },
            Action::TearDown => ActionView::TearDown,
            Action::CloseDisplay => ActionView::CloseDisplay,
            Action::Exit { status } => ActionView::Exit { status: *status },
            Action::Nothing => ActionView::Nothing,
        }
    }
}

/// Exit status after a failure to open the display.
pub const FAILURE_STATUS: i32 = 1;

/// Exit status after an orderly shutdown.
pub const SUCCESS_STATUS: i32 = 0;

/// The text written when Escape is pressed.
pub open spec fn escape_report() -> Seq<u8> {
    ascii_bytes_of("esc\n"@)
}

/// Whether an X event is a press of the Escape key.
pub open spec fn is_escape_press(kind: i32, keycode: u32) -> bool {
    kind == KEY_PRESS && keycode == ESCAPE_KEYCODE
}

/// The state after `event` arrives in `state`.
pub open spec fn next_state(state: State, event: Event) -> State {
    match (state, event) {
        (State::Opening(_), Event::DisplayOpened { is_null: true }) => State::Exited(FAILURE_STATUS),
        (State::Opening(Program::Full), Event::DisplayOpened { is_null: false }) => State::SettingUp,
        (State::Opening(Program::Minimal), Event::DisplayOpened { is_null: false }) => State::Closing,
        (State::SettingUp, Event::SetUpDone) => State::Running,
        (State::Running, Event::XEvent { kind, keycode }) => if is_escape_press(kind, keycode) {
            State::Reporting
        } else {
            State::Running
        },
        (State::Reporting, Event::Written) => State::Closing,
        (State::Closing, Event::Closed) => State::Exited(SUCCESS_STATUS),
        _ => state,
    }
}

/// The action the session asks for when `event` arrives in `state`.
pub open spec fn next_action(state: State, event: Event) -> ActionView {
    match (state, event) {
        (State::Opening(_), Event::DisplayOpened { is_null: true }) => ActionView::Exit {
            status: FAILURE_STATUS,
        },
        (State::Opening(Program::Full), Event::DisplayOpened { is_null: false }) => ActionView::SetUpWindow,
        (State::Opening(Program::Minimal), Event::DisplayOpened { is_null: false }) => ActionView::CloseDisplay,
        (State::SettingUp, Event::SetUpDone) => ActionView::NextEvent,
        (State::Running, Event::XEvent { kind, keycode }) => if is_escape_press(kind, keycode) {
            ActionView::Write { fd: STDOUT_FD, bytes: escape_report() }
        } else {
            ActionView::NextEvent
        },
        (State::Reporting, Event::Written) => ActionView::TearDown,
        (State::Closing, Event::Closed) => ActionView::Exit { status: SUCCESS_STATUS },
        _ => ActionView::Nothing,
    }
}

/// The state a program starts in and its first action: open the display.
pub fn start(program: Program) -> (r: (State, Action))
    ensures
        r.0 == State::Opening(program),
        r.1@ == ActionView::OpenDisplay,
{
    (State::Opening(program), Action::OpenDisplay)
}

/// Whether an X event is a press of the Escape key.
pub fn escape_pressed(kind: i32, keycode: u32) -> (b: bool)
    ensures
        b == is_escape_press(kind, keycode),
{
    kind == KEY_PRESS && keycode == ESCAPE_KEYCODE
}

/// One step of the session: the next state and the action to perform.
pub fn step(state: State, event: Event) -> (r: (State, Action))
    ensures
        r.0 == next_state(state, event),
        r.1@ == next_action(state, event),
{
    match (state, event) {
        (State::Opening(_), Event::DisplayOpened { is_null: true }) => (
            State::Exited(FAILURE_STATUS),
            Action::Exit { status: FAILURE_STATUS },
        ),
        (State::Opening(Program::Full), Event::DisplayOpened { is_null: false }) => (
            State::SettingUp,
            Action::SetUpWindow,
        ),
        (State::Opening(Program::Minimal), Event::DisplayOpened { is_null: false }) => (
            State::Closing,
            Action::CloseDisplay,
        ),
        (State::SettingUp, Event::SetUpDone) => (State::Running, Action::NextEvent),
        (State::Running, Event::XEvent { kind, keycode }) => {
            if escape_pressed(kind, keycode) {
                let text = "esc\n";
                proof {
                    reveal_strlit("esc\n");
                }
                let bytes = ascii_bytes(text);
                (State::Reporting, Action::Write { fd: STDOUT_FD, bytes })
            } else {
                (State::Running, Action::NextEvent)
            }
        },
        (State::Reporting, Event::Written) => (State::Closing, Action::TearDown),
        (State::Closing, Event::Closed) => (
            State::Exited(SUCCESS_STATUS),
            Action::Exit { status: SUCCESS_STATUS },
        ),
        _ => (state, Action::Nothing),
    }
}

/// How far the session has got; it never goes back.
pub open spec fn stage(state: State) -> nat {
    match state {
        State::Opening(_) => 0,
        State::SettingUp => 1,
        State::Running => 2,
        State::Reporting => 3,
        State::Closing => 4,
        State::Exited(_) => 5,
    }
}

/// The state after the events `events` arrive, one after the other.
pub open spec fn run(state: State, events: Seq<Event>) -> State
    decreases events.len(),
{
    if events.len() == 0 {
        state
    } else {
        run(next_state(state, events[0]), events.drop_first())
    }
}

/// The actions the session asks for while the events `events` arrive.
pub open spec fn run_actions(state: State, events: Seq<Event>) -> Seq<ActionView>
    decreases events.len(),
{
    if events.len() == 0 {
        Seq::empty()
    } else {
        seq![next_action(state, events[0])] + run_actions(
            next_state(state, events[0]),
            events.drop_first(),
        )
    }
}

/// The number of writes the session asks for while the events `events`
/// arrive.
pub open spec fn run_writes(state: State, events: Seq<Event>) -> nat
    decreases events.len(),
{
    if events.len() == 0 {
        0
    } else {
        (if next_action(state, events[0]) is Write {
            1nat
        } else {
            0nat
        }) + run_writes(next_state(state, events[0]), events.drop_first())
    }
}

/// A run asks for one action per event.
pub proof fn lemma_run_actions_len(state: State, events: Seq<Event>)
    ensures
        run_actions(state, events).len() == events.len(),
    decreases events.len(),
{
    if events.len() > 0 {
        lemma_run_actions_len(next_state(state, events[0]), events.drop_first());
    }
}

/// The exit status is 1 exactly when the display could not be opened, and
/// 0 exactly when the connection was closed in order: every step that ends
/// the session is one of these two, and it asks for the matching exit.
pub proof fn lemma_exit_status(state: State, event: Event)
    requires
        !(state is Exited),
        (next_state(state, event) is Exited),
    ensures
        next_state(state, event) == State::Exited(1) <==> ((state is Opening) && event
            == (Event::DisplayOpened { is_null: true })),
        next_state(state, event) == State::Exited(0) <==> (state == State::Closing && event
            == Event::Closed),
        next_action(state, event) == (ActionView::Exit { status: next_state(state, event)->Exited_0 }),
{
}

/// While running, the session waits for the next event unless Escape is
/// pressed; then it writes "esc\n" to standard output and stops running.
pub proof fn lemma_escape_ends_running(kind: i32, keycode: u32)
    ensures
        is_escape_press(kind, keycode) <==> kind == KEY_PRESS && keycode == 9,
        !is_escape_press(kind, keycode) ==> next_state(State::Running, (Event::XEvent { kind, keycode }))
            == State::Running && next_action(State::Running, (Event::XEvent { kind, keycode }))
            == ActionView::NextEvent,
        is_escape_press(kind, keycode) ==> next_state(State::Running, (Event::XEvent { kind, keycode }))
            == State::Reporting && next_action(State::Running, (Event::XEvent { kind, keycode }))
            == (ActionView::Write { fd: 1, bytes: seq![0x65u8, 0x73u8, 0x63u8, 0x0au8] }),
{
    reveal_strlit("esc\n");
    assert(escape_report() =~= seq![0x65u8, 0x73u8, 0x63u8, 0x0au8]);
}

/// Once exited, the session stays exited and asks for nothing more.
pub proof fn lemma_exited_is_final(status: i32, events: Seq<Event>)
    ensures
        run(State::Exited(status), events) == State::Exited(status),
        forall|i: int|
            0 <= i < events.len() ==> #[trigger] run_actions(State::Exited(status), events)[i]
                == ActionView::Nothing,
    decreases events.len(),
{
    if events.len() > 0 {
        lemma_exited_is_final(status, events.drop_first());
        lemma_run_actions_len(State::Exited(status), events.drop_first());
        let rest = run_actions(State::Exited(status), events.drop_first());
        let acts = run_actions(State::Exited(status), events);
        assert(acts == seq![ActionView::Nothing] + rest);
        assert forall|i: int| 0 <= i < events.len() implies #[trigger] acts[i]
            == ActionView::Nothing by {
            if i > 0 {
                assert(acts[i] == rest[i - 1]);
            }
        }
    }
}

/// No event takes the session back to an earlier stage.
pub proof fn lemma_never_goes_back(state: State, event: Event)
    ensures
        stage(state) <= stage(next_state(state, event)),
{
}

/// A write is asked for only on leaving the running stage.
proof fn lemma_write_only_from_running(state: State, event: Event)
    ensures
        (next_action(state, event) is Write) ==> state == State::Running && next_state(
            state,
            event,
        ) == State::Reporting,
{
}

/// Over any sequence of events the session writes at most once, and not at
/// all once it has stopped running.
pub proof fn lemma_at_most_one_write(state: State, events: Seq<Event>)
    ensures
        run_writes(state, events) <= (if stage(state) <= 2 {
            1nat
        } else {
            0nat
        }),
    decreases events.len(),
{
    if events.len() > 0 {
        let next = next_state(state, events[0]);
        lemma_at_most_one_write(next, events.drop_first());
        lemma_never_goes_back(state, events[0]);
        lemma_write_only_from_running(state, events[0]);
    }
}

/// A run of the full program that ends in a successful exit has written the
/// Escape report exactly once.
pub proof fn lemma_success_follows_report(state: State, events: Seq<Event>)
    requires
        state == State::Opening(Program::Full) || state == State::SettingUp || state
            == State::Running,
        run(state, events) == State::Exited(SUCCESS_STATUS),
    ensures
        run_writes(state, events) == 1,
    decreases events.len(),
{
    let next = next_state(state, events[0]);
    let rest = events.drop_first();
    if next == State::Opening(Program::Full) || next == State::SettingUp || next == State::Running {
        lemma_success_follows_report(next, rest);
    } else if next == State::Reporting {
        lemma_at_most_one_write(next, rest);
    } else {
        assert(next == State::Exited(FAILURE_STATUS));
        lemma_exited_is_final(FAILURE_STATUS, rest);
    }
}

/// The states the minimal program passes through.
pub open spec fn minimal_state(state: State) -> bool {
    state == State::Opening(Program::Minimal) || state == State::Closing || state is Exited
}

/// The minimal program only opens the display, closes it and exits: over any
/// sequence of events it never sets up a window, waits for X events, writes
/// or tears down a GL context.
pub proof fn lemma_minimal_only_opens_and_closes(state: State, events: Seq<Event>)
    requires
        minimal_state(state),
    ensures
        minimal_state(run(state, events)),
        forall|i: int|
            0 <= i < events.len() ==> {
                let a = #[trigger] run_actions(state, events)[i];
                a is OpenDisplay || a is CloseDisplay || a is Exit || a is Nothing
            },
    decreases events.len(),
{
    if events.len() > 0 {
        let next = next_state(state, events[0]);
        let rest = events.drop_first();
        lemma_minimal_only_opens_and_closes(next, rest);
        lemma_run_actions_len(next, rest);
        let acts = run_actions(state, events);
        assert(acts == seq![next_action(state, events[0])] + run_actions(next, rest));
        assert forall|i: int| 0 <= i < events.len() implies {
            let a = #[trigger] acts[i];
            a is OpenDisplay || a is CloseDisplay || a is Exit || a is Nothing
        } by {
            if i > 0 {
                assert(acts[i] == run_actions(next, rest)[i - 1]);
            }
        }
    }
}

} // verus!
