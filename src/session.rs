//! The decisions of a session: from what the terminal did last to what it is
//! asked to do next.
//!
//! A session enters raw mode, then alternates a wait phase (a plain sleep)
//! and a poll phase (a bounded wait for one event) until the key press that
//! ends it is read or a terminal operation fails. Raw mode is left once on
//! every way out, before the process exits. The caller performs each
//! [`Action`], shows the [`Notice`]s that come with it, and hands the result
//! back as an [`Outcome`].
use crate::config::{given_bytes, resolve_config, resolve_spec, Config, ConfigError};
use crate::keys::{control_c_spec, ends_session, is_quit, InputEvent};
use crate::micros::{is_plain_number, lemma_not_number_is_rejected};
use vstd::prelude::*;

verus! {

/// A status line to show, or a diagnostic.
#[derive(Debug, Clone, Copy, PartialEq, Eq, Structural)]
pub enum Notice {
    /// The wait phase begins.
    Waiting,
    /// The poll phase begins.
    Polling,
    /// The poll phase ended with no event.
    NoEvent,
    /// An event was read; it is shown as read.
    GotEvent,
    /// The key press that ends the session was read.
    Farewell,
    /// Diagnostic: standard output is not a terminal.
    NotTerminal,
    /// Diagnostic: an option's value is no duration.
    BadValue(ConfigError),
}

/// What the terminal is asked to do next.
#[derive(Debug, Clone, Copy, PartialEq, Eq, Structural)]
pub enum Action {
    /// Put the terminal into raw mode.
    EnterRawMode,
    /// Sleep for this many microseconds, whatever arrives meanwhile.
    Sleep(u64),
    /// Wait for an input event for at most this many microseconds.
    Poll(u64),
    /// Read the event that the poll found ready.
    Read,
    /// Leave raw mode.
    RestoreMode,
    /// End the process with this status.
    Exit(i32),
}

/// How the last action went.
#[derive(Debug, Clone, Copy, PartialEq, Eq, Structural)]
pub enum Outcome {
    /// Raw mode was entered or left, or the sleep is over.
    Done,
    /// The poll ended: `true` where an event is ready.
    Ready(bool),
    /// The event that was read.
    Event(InputEvent),
    /// The action failed.
    Failed,
}

/// Where a session stands: which action it waits on.
#[derive(Debug, Clone, Copy, PartialEq, Eq, Structural)]
pub enum Phase {
    EnteringRawMode,
    Waiting,
    Polling,
    Reading,
    /// Leaving raw mode; the process then exits with `status`, unless
    /// leaving fails.
    Restoring { status: i32 },
    Finished { status: i32 },
}

/// A running session.
#[derive(Debug, Clone, Copy, PartialEq, Eq, Structural)]
pub struct Session {
    pub config: Config,
    pub phase: Phase,
}

/// What the session asks for after an action: the notices to show, then the
/// next action.
pub struct Step {
    pub notices: Vec<Notice>,
    pub action: Action,
}

/// Starts the wait phase.
pub open spec fn wait_step(c: Config) -> (Phase, Seq<Notice>, Action) {
    (Phase::Waiting, seq![Notice::Waiting], Action::Sleep(c.wait_micros))
}

/// Leaves raw mode after a failure; the process then exits with status 1.
pub open spec fn fail_step() -> (Phase, Seq<Notice>, Action) {
    (Phase::Restoring { status: 1 }, seq![], Action::RestoreMode)
}

/// The transition of a session in `phase`, run with `c`, on `o`. An outcome
/// that does not answer the pending action counts as a failure.
pub open spec fn transition(c: Config, phase: Phase, o: Outcome) -> (Phase, Seq<Notice>, Action) {
    match phase {
        Phase::EnteringRawMode => match o {
            Outcome::Done => wait_step(c),
            _ => fail_step(),
        },
        Phase::Waiting => match o {
            Outcome::Done => (Phase::Polling, seq![Notice::Polling], Action::Poll(c.poll_micros)),
            _ => fail_step(),
        },
        Phase::Polling => match o {
            Outcome::Ready(true) => (Phase::Reading, seq![], Action::Read),
            Outcome::Ready(false) => {
                let w = wait_step(c);
                (w.0, seq![Notice::NoEvent].add(w.1), w.2)
            },
            _ => fail_step(),
        },
        Phase::Reading => match o {
            Outcome::Event(e) => if ends_session(e, c.quit) {
                (
                    Phase::Restoring { status: 0 },
                    seq![Notice::GotEvent, Notice::Farewell],
                    Action::RestoreMode,
                )
            } else {
                let w = wait_step(c);
                (w.0, seq![Notice::GotEvent].add(w.1), w.2)
            },
            _ => fail_step(),
        },
        Phase::Restoring { status } => match o {
            Outcome::Done => (Phase::Finished { status }, seq![], Action::Exit(status)),
            _ => (Phase::Finished { status: 1 }, seq![], Action::Exit(1)),
        },
        Phase::Finished { status } => (Phase::Finished { status }, seq![], Action::Exit(status)),
    }
}

/// How a process that was asked to run a session with these option texts
/// begins: it refuses, with a diagnostic and status 1, where standard output
/// is no terminal (whatever the options say) or an option's value is no
/// duration; else its session asks first for raw mode.
pub open spec fn launch_spec(
    stdout_is_terminal: bool,
    wait: Option<Seq<u8>>,
    poll: Option<Seq<u8>>,
) -> Result<(Session, Seq<Notice>, Action), (Seq<Notice>, Action)> {
    if !stdout_is_terminal {
        Err((seq![Notice::NotTerminal], Action::Exit(1)))
    } else {
        match resolve_spec(wait, poll) {
            Err(e) => Err((seq![Notice::BadValue(e)], Action::Exit(1))),
            Ok(c) => Ok(
                (
                    Session { config: c, phase: Phase::EnteringRawMode },
                    seq![],
                    Action::EnterRawMode,
                ),
            ),
        }
    }
}

/// Checks what a session needs before the terminal is touched: that standard
/// output is a terminal, then the texts of `--wait` and `--poll` (`None` where
/// not given). Gives the session and its first step, or the step that ends
/// the process at once.
pub fn launch(stdout_is_terminal: bool, wait: Option<&str>, poll: Option<&str>) -> (r: Result<
    (Session, Step),
    Step,
>)
    ensures
        match (r, launch_spec(stdout_is_terminal, given_bytes(wait), given_bytes(poll))) {
            (Ok((s, st)), Ok((s2, n, a))) => s == s2 && st.notices@ == n && st.action == a,
            (Err(st), Err((n, a))) => st.notices@ == n && st.action == a,
            _ => false,
        },
{
    if !stdout_is_terminal {
        return Err(Step { notices: vec![Notice::NotTerminal], action: Action::Exit(1) });
    }
    match resolve_config(wait, poll) {
        Err(e) => Err(Step { notices: vec![Notice::BadValue(e)], action: Action::Exit(1) }),
        Ok(c) => Ok(
            (
                Session { config: c, phase: Phase::EnteringRawMode },
                Step { notices: Vec::new(), action: Action::EnterRawMode },
            ),
        ),
    }
}

impl Session {
    fn wait(&mut self, mut notices: Vec<Notice>) -> (st: Step)
        ensures
            final(self).config == old(self).config,
            final(self).phase == wait_step(old(self).config).0,
            st.notices@ == notices@.add(wait_step(old(self).config).1),
            st.action == wait_step(old(self).config).2,
    {
        self.phase = Phase::Waiting;
        notices.push(Notice::Waiting);
        Step { notices, action: Action::Sleep(self.config.wait_micros) }
    }

    fn fail(&mut self) -> (st: Step)
        ensures
            final(self).config == old(self).config,
            final(self).phase == fail_step().0,
            st.notices@ == fail_step().1,
            st.action == fail_step().2,
    {
        self.phase = Phase::Restoring { status: 1 };
        Step { notices: Vec::new(), action: Action::RestoreMode }
    }

    /// Takes the outcome of the pending action and gives the next step.
    pub fn advance(&mut self, outcome: Outcome) -> (st: Step)
        ensures
            final(self).config == old(self).config,
            (final(self).phase, st.notices@, st.action) == transition(
                old(self).config,
                old(self).phase,
                outcome,
            ),
    {
        match self.phase {
            Phase::EnteringRawMode => match outcome {
                Outcome::Done => self.wait(Vec::new()),
                _ => self.fail(),
            },
            Phase::Waiting => match outcome {
                Outcome::Done => {
                    self.phase = Phase::Polling;
                    Step { notices: vec![Notice::Polling], action: Action::Poll(self.config.poll_micros) }
                },
                _ => self.fail(),
            },
            Phase::Polling => match outcome {
                Outcome::Ready(true) => {
                    self.phase = Phase::Reading;
                    Step { notices: Vec::new(), action: Action::Read }
                },
                Outcome::Ready(false) => self.wait(vec![Notice::NoEvent]),
                _ => self.fail(),
            },
            Phase::Reading => match outcome {
                Outcome::Event(e) => {
                    if is_quit(&e, &self.config.quit) {
                        self.phase = Phase::Restoring { status: 0 };
                        Step { notices: vec![Notice::GotEvent, Notice::Farewell], action: Action::RestoreMode }
                    } else {
                        self.wait(vec![Notice::GotEvent])
                    }
                },
                _ => self.fail(),
            },
            Phase::Restoring { status } => match outcome {
                Outcome::Done => {
                    self.phase = Phase::Finished { status };
                    Step { notices: Vec::new(), action: Action::Exit(status) }
                },
                _ => {
                    self.phase = Phase::Finished { status: 1 };
                    Step { notices: Vec::new(), action: Action::Exit(1) }
                },
            },
            Phase::Finished { status } => Step { notices: Vec::new(), action: Action::Exit(status) },
        }
    }
}

/// A value of `--wait` or `--poll` that is not a non-negative integer (text
/// that is no number, or a negative one) ends the process with status 1
/// before raw mode is ever asked for.
pub proof fn lemma_bad_value_never_enters_raw_mode(
    stdout_is_terminal: bool,
    wait: Option<Seq<u8>>,
    poll: Option<Seq<u8>>,
)
    requires
        (wait matches Some(t) && !is_plain_number(t)) || (poll matches Some(t)
            && !is_plain_number(t)),
    ensures
        launch_spec(stdout_is_terminal, wait, poll) matches Err((_, a)) && a == Action::Exit(1),
{
    if let Some(t) = wait {
        if !is_plain_number(t) {
            lemma_not_number_is_rejected(t);
        }
    }
    if let Some(t) = poll {
        if !is_plain_number(t) {
            lemma_not_number_is_rejected(t);
        }
    }
}

/// Where standard output is no terminal, the process ends with status 1 and
/// the diagnostic alone, whatever the options say, before raw mode is asked
/// for.
pub proof fn lemma_no_terminal_never_enters_raw_mode(wait: Option<Seq<u8>>, poll: Option<Seq<u8>>)
    ensures
        launch_spec(false, wait, poll) == Err::<(Session, Seq<Notice>, Action), (Seq<Notice>, Action)>(
            (seq![Notice::NotTerminal], Action::Exit(1)),
        ),
{
}

/// A poll phase begins only when a wait phase has run to its end, and every
/// wait phase sleeps for the whole configured wait: so within one iteration
/// the poll is asked for only after a full `wait_micros` of sleep.
pub proof fn lemma_poll_only_after_full_wait(c: Config, phase: Phase, o: Outcome)
    ensures
        transition(c, phase, o).2 is Poll ==> phase == Phase::Waiting && o == Outcome::Done,
        transition(c, phase, o).0 == Phase::Waiting ==> transition(c, phase, o).2 == Action::Sleep(
            c.wait_micros,
        ),
{
}

/// A poll phase waits for at most `poll_micros`; where it ends with no event,
/// "no event" is shown and the next iteration's wait begins.
pub proof fn lemma_poll_bounded_then_continue(c: Config, phase: Phase, o: Outcome)
    ensures
        transition(c, phase, o).2 matches Action::Poll(bound) ==> bound == c.poll_micros,
        phase == Phase::Polling && o == Outcome::Ready(false) ==> transition(c, phase, o) == (
            Phase::Waiting,
            seq![Notice::NoEvent, Notice::Waiting],
            Action::Sleep(c.wait_micros),
        ),
{
    assert(seq![Notice::NoEvent].add(seq![Notice::Waiting]) =~= seq![Notice::NoEvent, Notice::Waiting]);
}

/// Reading the key press that ends the session leaves raw mode, and once
/// that succeeds the process exits with status 0.
pub proof fn lemma_quit_key_exits_cleanly(c: Config, e: InputEvent)
    requires
        ends_session(e, c.quit),
    ensures
        transition(c, Phase::Reading, Outcome::Event(e)).2 == Action::RestoreMode,
        transition(
            c,
            transition(c, Phase::Reading, Outcome::Event(e)).0,
            Outcome::Done,
        ).2 == Action::Exit(0),
{
}

/// With the key press that ends a session by default, reading Control and
/// `c` pressed leaves raw mode, and then the process exits with status 0.
pub proof fn lemma_control_c_exits_cleanly(c: Config)
    requires
        c.quit == control_c_spec(),
    ensures
        transition(c, Phase::Reading, Outcome::Event(InputEvent::Key(control_c_spec()))) == (
            Phase::Restoring { status: 0 },
            seq![Notice::GotEvent, Notice::Farewell],
            Action::RestoreMode,
        ),
        transition(c, Phase::Restoring { status: 0 }, Outcome::Done).2 == Action::Exit(0),
{
}

/// Any other event is shown and the next iteration's wait begins.
pub proof fn lemma_other_event_continues(c: Config, e: InputEvent)
    requires
        !ends_session(e, c.quit),
    ensures
        transition(c, Phase::Reading, Outcome::Event(e)) == (
            Phase::Waiting,
            seq![Notice::GotEvent, Notice::Waiting],
            Action::Sleep(c.wait_micros),
        ),
{
    assert(seq![Notice::GotEvent].add(seq![Notice::Waiting]) =~= seq![Notice::GotEvent, Notice::Waiting]);
}

/// Once raw mode is asked for, the process is told to exit only after it
/// was asked to leave raw mode.
pub proof fn lemma_exit_only_after_restore(c: Config, phase: Phase, o: Outcome)
    ensures
        transition(c, phase, o).2 is Exit ==> (phase is Restoring || phase is Finished),
{
}

} // verus!
