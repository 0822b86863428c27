//! Supervision of the client process, as a machine that is fed what happened
//! and answers what to do next.
//!
//! The caller spawns the client with the invocation of the hand-off, its
//! standard input piped, and reports the outcome as the first event. From
//! then on it does what each answer asks and reports how that went.

use crate::handoff::Mode;
use crate::text::{decimal, decimal_text};
use vstd::prelude::*;

verus! {

/// Exit status of an invocation that went well.
pub const EXIT_SUCCESS: i32 = 0;

/// Exit status of an invocation that failed, or whose client was ended by a
/// signal.
pub const EXIT_FAILURE: i32 = 1;

/// Why a connection attempt was given up.
#[derive(Debug, PartialEq, Eq)]
pub enum Failure {
    /// The client could not be started.
    Spawn { cause: String },
    /// The client runs, but its standard input cannot be written to.
    StdinUnavailable,
    /// Writing the credentials failed. They are not sent again.
    Write { cause: String },
    /// Waiting for the client failed.
    Wait { cause: String },
    /// An event was reported that cannot happen in the present phase.
    OutOfTurn,
}

/// The text shown for a failure: the underlying cause where there is one.
pub open spec fn failure_text(failure: Failure) -> Seq<char> {
    match failure {
        Failure::Spawn { cause } => cause@,
        Failure::StdinUnavailable => "Failed to open stdin"@,
        Failure::Write { cause } => cause@,
        Failure::Wait { cause } => cause@,
        Failure::OutOfTurn => "Unexpected event"@,
    }
}

impl Failure {
    /// The text shown for this failure.
    pub fn message(&self) -> (text: String)
        ensures
            text@ == failure_text(*self),
    {
        match self {
            Failure::Spawn { cause } => cause.clone(),
            Failure::StdinUnavailable => "Failed to open stdin".to_owned(),
            Failure::Write { cause } => cause.clone(),
            Failure::Wait { cause } => cause.clone(),
            Failure::OutOfTurn => "Unexpected event".to_owned(),
        }
    }
}

/// Where a connection attempt stands.
#[derive(Debug, Clone, Copy, PartialEq, Eq)]
pub enum Phase {
    /// Nothing was started yet.
    Idle,
    /// The client runs and waits for the credentials.
    Spawned { pid: u32 },
    /// The client has the credentials and was left to itself.
    Detached { pid: u32 },
    /// The client has the credentials and is waited for.
    Awaiting { pid: u32 },
    /// The client has exited; `code` is `None` where a signal ended it.
    Exited { code: Option<i32> },
    /// The attempt was given up.
    Failed,
}

/// What the caller reports.
#[derive(Debug, PartialEq, Eq)]
pub enum Event {
    /// The client was started; `stdin_open` tells whether its standard input
    /// can be written to.
    Spawned { pid: u32, stdin_open: bool },
    /// The client could not be started.
    SpawnFailed { cause: String },
    /// The credentials were written and the stream was closed.
    Written,
    /// Writing the credentials failed.
    WriteFailed { cause: String },
    /// The client has exited; `code` is `None` where a signal ended it.
    Exited { code: Option<i32> },
    /// Waiting for the client failed.
    WaitFailed { cause: String },
}

/// What the caller is asked to do.
#[derive(Debug, PartialEq, Eq)]
pub enum Action {
    /// Write the payload of the hand-off to the client's standard input,
    /// once, and close the stream.
    Write,
    /// Announce the client's process identifier and return without waiting.
    Detach { pid: u32 },
    /// Announce the client's process identifier, then wait until it exits.
    Wait { pid: u32 },
    /// End with the client's exit.
    Finish { code: Option<i32> },
    /// End with a failure.
    Abort { failure: Failure },
}

/// A phase that no event leaves.
pub open spec fn is_terminal(phase: Phase) -> bool {
    phase is Detached || phase is Exited || phase is Failed
}

/// How far a phase is from the start: no step ever lowers it.
pub open spec fn rank(phase: Phase) -> nat {
    match phase {
        Phase::Idle => 0,
        Phase::Spawned { .. } => 1,
        Phase::Awaiting { .. } => 2,
        Phase::Detached { .. } => 3,
        Phase::Exited { .. } => 3,
        Phase::Failed => 3,
    }
}

/// A phase that a session of this mode can be in: only mode `Watch` waits.
pub open spec fn fits(mode: Mode, phase: Phase) -> bool {
    phase is Awaiting ==> mode == Mode::Watch
}

/// The phase that follows and the action that is asked for, when `event` is
/// reported in `phase`.
pub open spec fn step(mode: Mode, phase: Phase, event: Event) -> (Phase, Action) {
    match (phase, event) {
        (Phase::Idle, Event::Spawned { pid, stdin_open }) => if stdin_open {
            (Phase::Spawned { pid }, Action::Write)
        } else {
            (Phase::Failed, Action::Abort { failure: Failure::StdinUnavailable })
        },
        (Phase::Idle, Event::SpawnFailed { cause }) => (
            Phase::Failed,
            Action::Abort { failure: Failure::Spawn { cause } },
        ),
        (Phase::Spawned { pid }, Event::Written) => if mode == Mode::Watch {
            (Phase::Awaiting { pid }, Action::Wait { pid })
        } else {
            (Phase::Detached { pid }, Action::Detach { pid })
        },
        (Phase::Spawned { pid }, Event::WriteFailed { cause }) => (
            Phase::Failed,
            Action::Abort { failure: Failure::Write { cause } },
        ),
        (Phase::Awaiting { pid }, Event::Exited { code }) => (
            Phase::Exited { code },
            Action::Finish { code },
        ),
        (Phase::Awaiting { pid }, Event::WaitFailed { cause }) => (
            Phase::Failed,
            Action::Abort { failure: Failure::Wait { cause } },
        ),
        _ => (
            if is_terminal(phase) {
                phase
            } else {
                Phase::Failed
            },
            Action::Abort { failure: Failure::OutOfTurn },
        ),
    }
}

/// The exit status that the invocation ends with in a terminal phase: zero
/// once the client was left to itself, the client's own exit code where it
/// was waited for, and a failure otherwise.
pub open spec fn exit_status(phase: Phase) -> Option<i32> {
    match phase {
        Phase::Detached { .. } => Some(EXIT_SUCCESS),
        Phase::Exited { code: Some(code) } => Some(code),
        Phase::Exited { code: None } => Some(EXIT_FAILURE),
        Phase::Failed => Some(EXIT_FAILURE),
        _ => None,
    }
}

/// The line that announces the running client.
pub open spec fn announcement_text(pid: u32) -> Seq<char> {
    "OpenConnect is running on "@ + decimal(pid as nat) + "."@
}

/// The line that announces the running client.
pub fn announcement(pid: u32) -> (line: String)
    ensures
        line@ == announcement_text(pid),
{
    let number = decimal_text(pid as u64);
    "OpenConnect is running on ".to_owned().concat(number.as_str()).concat(".")
}

/// One connection attempt.
#[derive(Debug)]
pub struct Session {
    mode: Mode,
    phase: Phase,
}

impl Session {
    /// The mode of this attempt.
    pub closed spec fn mode_of(&self) -> Mode {
        self.mode
    }

    /// The phase of this attempt.
    pub closed spec fn phase_of(&self) -> Phase {
        self.phase
    }

    /// Every session is in a phase that fits its mode.
    #[verifier::type_invariant]
    spec fn fitting(self) -> bool {
        fits(self.mode, self.phase)
    }

    /// A new attempt: nothing was started yet.
    pub fn new(mode: Mode) -> (session: Session)
        ensures
            session.mode_of() == mode,
            session.phase_of() == Phase::Idle,
    {
        Session { mode, phase: Phase::Idle }
    }

    /// The mode of this attempt.
    pub fn mode(&self) -> (mode: Mode)
        ensures
            mode == self.mode_of(),
    {
        self.mode
    }

    /// The phase of this attempt. It fits the mode: only a session in mode
    /// `Watch` is ever found waiting.
    pub fn phase(&self) -> (phase: Phase)
        ensures
            phase == self.phase_of(),
            fits(self.mode_of(), phase),
    {
        proof {
            use_type_invariant(self);
        }
        self.phase
    }

    /// Whether the attempt is over.
    pub fn is_over(&self) -> (over: bool)
        ensures
            over == is_terminal(self.phase_of()),
    {
        match self.phase {
            Phase::Detached { .. } | Phase::Exited { .. } | Phase::Failed => true,
            _ => false,
        }
    }

    /// The exit status of the invocation, once the attempt is over.
    pub fn exit_code(&self) -> (code: Option<i32>)
        ensures
            code == exit_status(self.phase_of()),
            code is Some <==> is_terminal(self.phase_of()),
    {
        match self.phase {
            Phase::Detached { .. } => Some(EXIT_SUCCESS),
            Phase::Exited { code: Some(code) } => Some(code),
            Phase::Exited { code: None } => Some(EXIT_FAILURE),
            Phase::Failed => Some(EXIT_FAILURE),
            _ => None,
        }
    }

    /// Takes note of what happened and answers what to do next.
    pub fn advance(&mut self, event: Event) -> (action: Action)
        ensures
            fits(old(self).mode_of(), old(self).phase_of()),
            fits(final(self).mode_of(), final(self).phase_of()),
            final(self).mode_of() == old(self).mode_of(),
            (final(self).phase_of(), action) == step(
                old(self).mode_of(),
                old(self).phase_of(),
                event,
            ),
    {
        proof {
            use_type_invariant(&*self);
        }
        match (self.phase, event) {
            (Phase::Idle, Event::Spawned { pid, stdin_open }) => {
                if stdin_open {
                    self.phase = Phase::Spawned { pid };
                    Action::Write
                } else {
                    self.phase = Phase::Failed;
                    Action::Abort { failure: Failure::StdinUnavailable }
                }
            },
            (Phase::Idle, Event::SpawnFailed { cause }) => {
                self.phase = Phase::Failed;
                Action::Abort { failure: Failure::Spawn { cause } }
            },
            (Phase::Spawned { pid }, Event::Written) => {
                match self.mode {
                    Mode::Watch => {
                        self.phase = Phase::Awaiting { pid };
                        Action::Wait { pid }
                    },
                    _ => {
                        self.phase = Phase::Detached { pid };
                        Action::Detach { pid }
                    },
                }
            },
            (Phase::Spawned { pid }, Event::WriteFailed { cause }) => {
                self.phase = Phase::Failed;
                Action::Abort { failure: Failure::Write { cause } }
            },
            (Phase::Awaiting { pid }, Event::Exited { code }) => {
                self.phase = Phase::Exited { code };
                Action::Finish { code }
            },
            (Phase::Awaiting { pid }, Event::WaitFailed { cause }) => {
                self.phase = Phase::Failed;
                Action::Abort { failure: Failure::Wait { cause } }
            },
            _ => {
                if !self.is_over() {
                    self.phase = Phase::Failed;
                }
                Action::Abort { failure: Failure::OutOfTurn }
            },
        }
    }
}

/// No step leads back: a terminal phase is never left, and every other
/// phase is left for one of higher rank.
pub proof fn lemma_no_way_back(mode: Mode, phase: Phase, event: Event)
    ensures
        is_terminal(phase) ==> step(mode, phase, event).0 == phase,
        !is_terminal(phase) ==> rank(step(mode, phase, event).0) > rank(phase),
{
}

/// A step keeps the phase fitting the mode: a session that is not in mode
/// `Watch` never waits for the client.
pub proof fn lemma_only_watch_waits(mode: Mode, phase: Phase, event: Event)
    requires
        fits(mode, phase),
    ensures
        fits(mode, step(mode, phase, event).0),
        mode != Mode::Watch ==> !(step(mode, phase, event).1 is Wait),
{
}

/// In mode `Once` the client is left to itself as soon as it has the
/// credentials: the attempt is over, with success, and nothing is waited
/// for.
pub proof fn lemma_once_returns(pid: u32)
    ensures
        step(Mode::Once, Phase::Spawned { pid }, Event::Written) == (
            Phase::Detached { pid },
            Action::Detach { pid },
        ),
        is_terminal(Phase::Detached { pid }),
        exit_status(Phase::Detached { pid }) == Some(EXIT_SUCCESS),
{
}

/// In mode `Watch` the invocation ends with the exit code of the client.
pub proof fn lemma_watch_reports_exit(pid: u32, code: i32)
    ensures
        step(Mode::Watch, Phase::Spawned { pid }, Event::Written) == (
            Phase::Awaiting { pid },
            Action::Wait { pid },
        ),
        step(Mode::Watch, Phase::Awaiting { pid }, Event::Exited { code: Some(code) }) == (
            Phase::Exited { code: Some(code) },
            Action::Finish { code: Some(code) },
        ),
        exit_status(Phase::Exited { code: Some(code) }) == Some(code),
{
}

/// The credentials are asked for at the start only. As no step leads back
/// to the start, they are written at most once.
pub proof fn lemma_credentials_asked_at_start_only(mode: Mode, phase: Phase, event: Event)
    ensures
        step(mode, phase, event).1 is Write ==> phase is Idle,
        !(step(mode, phase, event).0 is Idle),
{
}

/// An attempt has an exit status exactly when it is over, and the status
/// is zero only where the client was left to itself or exited with zero:
/// every failure ends the invocation with a status other than zero.
pub proof fn lemma_exit_status_tells_success(phase: Phase)
    ensures
        exit_status(phase) is Some <==> is_terminal(phase),
        exit_status(phase) == Some(EXIT_SUCCESS) <==> phase is Detached || phase == (Phase::Exited {
            code: Some(EXIT_SUCCESS),
        }),
        phase is Failed ==> exit_status(phase) != Some(EXIT_SUCCESS),
{
}

} // verus!
