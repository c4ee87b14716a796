use loop_de_loop::config::{ConfigError, Flag};
use loop_de_loop::keys::{control_c, is_quit, InputEvent, KeyCode, KeyKind, KeyPress, CONTROL, SHIFT};
use loop_de_loop::micros::ParseFault;
use loop_de_loop::session::{launch, Action, Notice, Outcome, Phase, Session, Step};

fn key(c: char, modifiers: u8) -> InputEvent {
    InputEvent::Key(KeyPress { code: KeyCode::Char(c), modifiers, kind: KeyKind::Press, state: 0 })
}

fn started(wait: &str, poll: &str) -> Session {
    let (mut session, step) = match launch(true, Some(wait), Some(poll)) {
        Ok(pair) => pair,
        Err(_) => panic!("launch refused {} {}", wait, poll),
    };
    assert_eq!(step.action, Action::EnterRawMode);
    assert!(step.notices.is_empty());
    let step = session.advance(Outcome::Done);
    assert_eq!(step.notices, vec![Notice::Waiting]);
    session
}

fn expect(step: &Step, notices: Vec<Notice>, action: Action) {
    assert_eq!(step.notices, notices);
    assert_eq!(step.action, action);
}

#[test]
fn not_a_terminal_exits_before_raw_mode() {
    for (w, p) in [(None, None), (Some("abc"), None), (Some("5"), Some("6"))] {
        match launch(false, w, p) {
            Ok(_) => panic!("a session started without a terminal"),
            Err(step) => expect(&step, vec![Notice::NotTerminal], Action::Exit(1)),
        }
    }
}

#[test]
fn non_numeric_wait_exits_with_parse_failure() {
    match launch(true, Some("abc"), None) {
        Ok(_) => panic!("a session started on a bad value"),
        Err(step) => expect(
            &step,
            vec![Notice::BadValue(ConfigError { flag: Flag::Wait, fault: ParseFault::InvalidDigit })],
            Action::Exit(1),
        ),
    }
}

#[test]
fn negative_poll_exits_before_raw_mode() {
    match launch(true, Some("10"), Some("-1")) {
        Ok(_) => panic!("a session started on a negative value"),
        Err(step) => expect(
            &step,
            vec![Notice::BadValue(ConfigError { flag: Flag::Poll, fault: ParseFault::InvalidDigit })],
            Action::Exit(1),
        ),
    }
}

#[test]
fn valid_values_start_with_raw_mode() {
    let (session, step) = match launch(true, Some("250"), Some("+75")) {
        Ok(pair) => pair,
        Err(_) => panic!("launch refused valid values"),
    };
    assert_eq!(session.config.wait_micros, 250);
    assert_eq!(session.config.poll_micros, 75);
    assert_eq!(session.config.quit, control_c());
    assert_eq!(session.phase, Phase::EnteringRawMode);
    expect(&step, vec![], Action::EnterRawMode);
}

#[test]
fn zero_durations_without_input_loop_on() {
    let mut session = started("0", "0");
    for _ in 0..1000 {
        expect(&session.advance(Outcome::Done), vec![Notice::Polling], Action::Poll(0));
        expect(
            &session.advance(Outcome::Ready(false)),
            vec![Notice::NoEvent, Notice::Waiting],
            Action::Sleep(0),
        );
    }
    assert_eq!(session.phase, Phase::Waiting);
}

#[test]
fn control_c_at_first_poll_exits_after_one_iteration() {
    let (mut session, step) = match launch(true, Some("100"), Some("100")) {
        Ok(pair) => pair,
        Err(_) => panic!("launch refused valid values"),
    };
    expect(&step, vec![], Action::EnterRawMode);
    expect(&session.advance(Outcome::Done), vec![Notice::Waiting], Action::Sleep(100));
    expect(&session.advance(Outcome::Done), vec![Notice::Polling], Action::Poll(100));
    expect(&session.advance(Outcome::Ready(true)), vec![], Action::Read);
    expect(
        &session.advance(Outcome::Event(key('c', CONTROL))),
        vec![Notice::GotEvent, Notice::Farewell],
        Action::RestoreMode,
    );
    expect(&session.advance(Outcome::Done), vec![], Action::Exit(0));
    assert_eq!(session.phase, Phase::Finished { status: 0 });
}

#[test]
fn other_events_continue() {
    let mut session = started("5", "6");
    let others = [key('c', 0), key('x', CONTROL), key('C', CONTROL), key('c', CONTROL | SHIFT), InputEvent::Other];
    for e in others {
        expect(&session.advance(Outcome::Done), vec![Notice::Polling], Action::Poll(6));
        expect(&session.advance(Outcome::Ready(true)), vec![], Action::Read);
        expect(&session.advance(Outcome::Event(e)), vec![Notice::GotEvent, Notice::Waiting], Action::Sleep(5));
    }
}

#[test]
fn released_control_c_does_not_end_the_session() {
    let mut session = started("1", "1");
    session.advance(Outcome::Done);
    session.advance(Outcome::Ready(true));
    let released = InputEvent::Key(KeyPress {
        code: KeyCode::Char('c'),
        modifiers: CONTROL,
        kind: KeyKind::Release,
        state: 0,
    });
    expect(&session.advance(Outcome::Event(released)), vec![Notice::GotEvent, Notice::Waiting], Action::Sleep(1));
}

#[test]
fn failed_raw_mode_restores_and_exits_with_one() {
    let (mut session, _) = match launch(true, None, None) {
        Ok(pair) => pair,
        Err(_) => panic!("launch refused defaults"),
    };
    expect(&session.advance(Outcome::Failed), vec![], Action::RestoreMode);
    expect(&session.advance(Outcome::Done), vec![], Action::Exit(1));
}

#[test]
fn failed_poll_or_read_restores_and_exits_with_one() {
    let mut session = started("3", "4");
    session.advance(Outcome::Done);
    expect(&session.advance(Outcome::Failed), vec![], Action::RestoreMode);
    expect(&session.advance(Outcome::Done), vec![], Action::Exit(1));

    let mut session = started("3", "4");
    session.advance(Outcome::Done);
    session.advance(Outcome::Ready(true));
    expect(&session.advance(Outcome::Failed), vec![], Action::RestoreMode);
    expect(&session.advance(Outcome::Done), vec![], Action::Exit(1));
}

#[test]
fn failed_restore_exits_with_one() {
    let mut session = started("1", "1");
    session.advance(Outcome::Done);
    session.advance(Outcome::Ready(true));
    session.advance(Outcome::Event(key('c', CONTROL)));
    expect(&session.advance(Outcome::Failed), vec![], Action::Exit(1));
    expect(&session.advance(Outcome::Done), vec![], Action::Exit(1));
}

#[test]
fn unexpected_outcome_counts_as_failure() {
    let mut session = started("1", "1");
    expect(&session.advance(Outcome::Ready(true)), vec![], Action::RestoreMode);
    assert_eq!(session.phase, Phase::Restoring { status: 1 });
}

#[test]
fn quit_key_matches_as_crossterm_compares() {
    let quit = control_c();
    assert!(is_quit(&key('c', CONTROL), &quit));
    assert!(!is_quit(&key('c', 0), &quit));
    assert!(!is_quit(&key('C', CONTROL), &quit));
    assert!(!is_quit(&InputEvent::Other, &quit));
    let upper = KeyPress { code: KeyCode::Char('C'), modifiers: CONTROL, kind: KeyKind::Press, state: 0 };
    assert!(is_quit(&key('c', CONTROL | SHIFT), &upper));
    assert!(is_quit(&key('C', CONTROL | SHIFT), &upper));
    assert!(is_quit(&key('c', CONTROL | 0x80), &quit));
}
