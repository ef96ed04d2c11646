use fourkay::session::{escape_pressed, start, step, Action, Event, Program, State};
use fourkay::xconst::{CLIENT_MESSAGE, KEY_PRESS, KEY_RELEASE};

fn drive(program: Program, events: &[Event]) -> (State, Vec<Action>) {
    let (mut state, first) = start(program);
    let mut actions = vec![first];
    for e in events {
        let (s, a) = step(state, *e);
        state = s;
        actions.push(a);
    }
    (state, actions)
}

#[test]
fn start_opens_the_display() {
    assert_eq!(start(Program::Full), (State::Opening(Program::Full), Action::OpenDisplay));
    assert_eq!(start(Program::Minimal), (State::Opening(Program::Minimal), Action::OpenDisplay));
}

#[test]
fn failed_display_exits_with_one() {
    for p in [Program::Full, Program::Minimal] {
        let (s, a) = step(State::Opening(p), Event::DisplayOpened { is_null: true });
        assert_eq!(s, State::Exited(1));
        assert_eq!(a, Action::Exit { status: 1 });
    }
}

#[test]
fn full_program_runs_until_escape() {
    let (state, actions) = drive(
        Program::Full,
        &[
            Event::DisplayOpened { is_null: false },
            Event::SetUpDone,
            Event::XEvent { kind: 12, keycode: 0 },
            Event::XEvent { kind: KEY_PRESS, keycode: 38 },
            Event::XEvent { kind: KEY_RELEASE, keycode: 9 },
            Event::XEvent { kind: KEY_PRESS, keycode: 9 },
            Event::Written,
            Event::Closed,
        ],
    );
    assert_eq!(state, State::Exited(0));
    assert_eq!(
        actions,
        vec![
            Action::OpenDisplay,
            Action::SetUpWindow,
            Action::NextEvent,
            Action::NextEvent,
            Action::NextEvent,
            Action::NextEvent,
            Action::Write { fd: 1, bytes: b"esc\n".to_vec() },
            Action::TearDown,
            Action::Exit { status: 0 },
        ]
    );
}

#[test]
fn minimal_program_opens_and_closes() {
    let (state, actions) =
        drive(Program::Minimal, &[Event::DisplayOpened { is_null: false }, Event::Closed]);
    assert_eq!(state, State::Exited(0));
    assert_eq!(actions, vec![Action::OpenDisplay, Action::CloseDisplay, Action::Exit { status: 0 }]);
}

#[test]
fn minimal_program_never_sets_up_or_writes() {
    let events = [
        Event::SetUpDone,
        Event::DisplayOpened { is_null: false },
        Event::XEvent { kind: KEY_PRESS, keycode: 9 },
        Event::Written,
        Event::Closed,
        Event::SetUpDone,
    ];
    let (_, actions) = drive(Program::Minimal, &events);
    assert!(actions.iter().all(|a| matches!(
        a,
        Action::OpenDisplay | Action::CloseDisplay | Action::Exit { .. } | Action::Nothing
    )));
}

#[test]
fn escape_press_detection() {
    assert!(escape_pressed(KEY_PRESS, 9));
    assert!(!escape_pressed(KEY_RELEASE, 9));
    assert!(!escape_pressed(KEY_PRESS, 10));
    assert!(!escape_pressed(CLIENT_MESSAGE, 9));
}

#[test]
fn running_ignores_other_keys() {
    let (s, a) = step(State::Running, Event::XEvent { kind: KEY_PRESS, keycode: 24 });
    assert_eq!(s, State::Running);
    assert_eq!(a, Action::NextEvent);
}

#[test]
fn writes_at_most_once() {
    let (_, actions) = drive(
        Program::Full,
        &[
            Event::DisplayOpened { is_null: false },
            Event::SetUpDone,
            Event::XEvent { kind: KEY_PRESS, keycode: 9 },
            Event::XEvent { kind: KEY_PRESS, keycode: 9 },
            Event::Written,
            Event::XEvent { kind: KEY_PRESS, keycode: 9 },
            Event::Closed,
            Event::XEvent { kind: KEY_PRESS, keycode: 9 },
        ],
    );
    let writes = actions.iter().filter(|a| matches!(a, Action::Write { .. })).count();
    assert_eq!(writes, 1);
}

#[test]
fn exited_is_final() {
    for e in [
        Event::DisplayOpened { is_null: true },
        Event::SetUpDone,
        Event::XEvent { kind: KEY_PRESS, keycode: 9 },
        Event::Written,
        Event::Closed,
    ] {
        assert_eq!(step(State::Exited(0), e), (State::Exited(0), Action::Nothing));
        assert_eq!(step(State::Exited(1), e), (State::Exited(1), Action::Nothing));
    }
}

#[test]
fn unexpected_events_change_nothing() {
    assert_eq!(step(State::SettingUp, Event::Closed), (State::SettingUp, Action::Nothing));
    assert_eq!(step(State::Running, Event::Written), (State::Running, Action::Nothing));
    assert_eq!(step(State::Reporting, Event::SetUpDone), (State::Reporting, Action::Nothing));
    assert_eq!(
        step(State::Closing, Event::DisplayOpened { is_null: true }),
        (State::Closing, Action::Nothing)
    );
}
