//! The host side of one invocation, as a state machine: the caller's loop
//! performs each action (accept, receive, call back, send, wait, kill) and
//! hands back what happened as an event.

use vstd::prelude::*;

verus! {

/// Where an invocation stands.
#[derive(Debug, Clone, Copy, PartialEq, Eq, Structural)]
pub enum Phase {
    /// The compiler runs; the stand-in has not connected yet.
    AwaitingConnection,
    /// The channel pair is held; the forwarded request has not arrived yet.
    AwaitingRequest,
    /// The callback works on the request.
    AwaitingCallback,
    /// Nothing is left to exchange; the compiler has not exited yet.
    AwaitingExit,
    /// The compiler is reaped and the outcome is fixed.
    Finished,
}

/// Why an invocation failed.
#[derive(Debug, Clone, Copy, PartialEq, Eq, Structural)]
pub enum Failure {
    /// The deadline elapsed first.
    Timeout,
    /// The rendezvous or a channel failed, or the stand-in never reached the host.
    Connection,
    /// The callback reported a failure.
    Callback,
    /// The compiler exited unsuccessfully.
    ProcessExit,
}

/// What happened since the last action.
#[derive(Debug, Clone, Copy, PartialEq, Eq, Structural)]
pub enum Event {
    /// The stand-in connected and handed over the channel pair.
    Connected,
    /// Accepting the rendezvous connection failed.
    ConnectFailed,
    /// The forwarded request bytes arrived.
    RequestReceived,
    /// The request channel broke before any bytes arrived.
    RequestLost,
    /// The callback returned response bytes.
    CallbackSucceeded,
    /// The callback returned a failure.
    CallbackFailed,
    /// The compiler exited, successfully or not.
    ChildExited(bool),
    /// The deadline elapsed.
    DeadlineElapsed,
}

/// What the caller's loop does next.
#[derive(Debug, Clone, Copy, PartialEq, Eq, Structural)]
pub enum Action {
    /// Receive the forwarded request on the request channel.
    AwaitRequest,
    /// Call the callback with the request bytes.
    InvokeCallback,
    /// Send the callback's bytes on the response channel, then wait for exit.
    SendResponse,
    /// Drop the channels and wait for the compiler to exit.
    AwaitExit,
    /// Terminate and reap the compiler, then return the outcome.
    KillChild,
    /// Return the outcome; the compiler is already reaped.
    Finish,
}

/// The host's state for one invocation: its phase, and the first failure
/// recorded so far.
#[derive(Debug, Clone, Copy, PartialEq, Eq, Structural)]
pub struct Session {
    pub phase: Phase,
    pub failure: Option<Failure>,
}

/// The failure already recorded, else `f`.
pub open spec fn first_failure(recorded: Option<Failure>, f: Failure) -> Failure {
    match recorded {
        Some(r) => r,
        None => f,
    }
}

/// The session after a failure `f` that leaves only the compiler's exit to
/// wait for.
pub open spec fn failed_awaiting_exit(s: Session, f: Failure) -> Session {
    Session { phase: Phase::AwaitingExit, failure: Some(first_failure(s.failure, f)) }
}

/// The session after the compiler exited (`ok` when successfully). A failed
/// exit is the failure where none was recorded; an exit before the request
/// was forwarded means the stand-in never reached the host.
pub open spec fn after_exit(s: Session, ok: bool) -> Session {
    let early = s.phase == Phase::AwaitingConnection || s.phase == Phase::AwaitingRequest
        || s.phase == Phase::AwaitingCallback;
    Session {
        phase: Phase::Finished,
        failure: if s.failure is Some {
            s.failure
        } else if !ok {
            Some(Failure::ProcessExit)
        } else if early {
            Some(Failure::Connection)
        } else {
            None
        },
    }
}

/// The transition table: the session and the action that follow `e` in `s`.
pub open spec fn next(s: Session, e: Event) -> (Session, Action) {
    match (s.phase, e) {
        (Phase::Finished, _) => (s, Action::Finish),
        (_, Event::DeadlineElapsed) => (
            Session {
                phase: Phase::Finished,
                failure: Some(first_failure(s.failure, Failure::Timeout)),
            },
            Action::KillChild,
        ),
        (_, Event::ChildExited(ok)) => (after_exit(s, ok), Action::Finish),
        (Phase::AwaitingConnection, Event::Connected) => (
            Session { phase: Phase::AwaitingRequest, failure: s.failure },
            Action::AwaitRequest,
        ),
        (Phase::AwaitingConnection, Event::ConnectFailed) => (
            failed_awaiting_exit(s, Failure::Connection),
            Action::AwaitExit,
        ),
        (Phase::AwaitingRequest, Event::RequestReceived) => (
            Session { phase: Phase::AwaitingCallback, failure: s.failure },
            Action::InvokeCallback,
        ),
        (Phase::AwaitingRequest, Event::RequestLost) => (
            failed_awaiting_exit(s, Failure::Connection),
            Action::AwaitExit,
        ),
        (Phase::AwaitingCallback, Event::CallbackSucceeded) => (
            Session { phase: Phase::AwaitingExit, failure: s.failure },
            Action::SendResponse,
        ),
        (Phase::AwaitingCallback, Event::CallbackFailed) => (
            failed_awaiting_exit(s, Failure::Callback),
            Action::AwaitExit,
        ),
        _ => (
            Session {
                phase: Phase::Finished,
                failure: Some(first_failure(s.failure, Failure::Connection)),
            },
            Action::KillChild,
        ),
    }
}

/// What a session's run returns: `None` until it is finished.
pub open spec fn outcome_of(s: Session) -> Option<Result<(), Failure>> {
    if s.phase != Phase::Finished {
        None
    } else {
        match s.failure {
            Some(f) => Some(Err(f)),
            None => Some(Ok(())),
        }
    }
}

/// Before the exchange is over, no failure is recorded: a failure moves the
/// session on to waiting for exit, or to finished.
pub open spec fn well_formed(s: Session) -> bool {
    (s.phase == Phase::AwaitingConnection || s.phase == Phase::AwaitingRequest
        || s.phase == Phase::AwaitingCallback) ==> s.failure is None
}

/// The session and the actions that the events `events` give, in order, from `s`.
pub open spec fn run_from(s: Session, events: Seq<Event>) -> (Session, Seq<Action>)
    decreases events.len(),
{
    if events.len() == 0 {
        (s, Seq::empty())
    } else {
        let (s1, a) = next(s, events[0]);
        let (s2, rest) = run_from(s1, events.drop_first());
        (s2, seq![a] + rest)
    }
}

/// A fresh session is well formed, and every step keeps it so.
pub proof fn lemma_step_keeps_well_formed(s: Session, e: Event)
    ensures
        well_formed(Session { phase: Phase::AwaitingConnection, failure: None }),
        well_formed(s) ==> well_formed(next(s, e).0),
{
}

/// Once the deadline elapses, an unfinished session finishes and the
/// compiler, with its stand-in, is terminated and reaped; where nothing
/// failed before (a callback that never returns), the run fails with a
/// timeout.
pub proof fn lemma_deadline_times_out(s: Session)
    requires
        well_formed(s),
        s.phase != Phase::Finished,
    ensures
        next(s, Event::DeadlineElapsed).0.phase == Phase::Finished,
        next(s, Event::DeadlineElapsed).1 == Action::KillChild,
        s.phase == Phase::AwaitingCallback ==> outcome_of(next(s, Event::DeadlineElapsed).0)
            == Some(Err::<(), Failure>(Failure::Timeout)),
        s.failure is None ==> outcome_of(next(s, Event::DeadlineElapsed).0) == Some(
            Err::<(), Failure>(Failure::Timeout),
        ),
{
}

/// No session finishes with the compiler left running: a step that finishes
/// it either kills the compiler or follows the compiler's own exit.
pub proof fn lemma_finish_reaps_compiler(s: Session, e: Event)
    requires
        s.phase != Phase::Finished,
        next(s, e).0.phase == Phase::Finished,
    ensures
        next(s, e).1 == Action::KillChild || e is ChildExited,
{
}

/// A finished session stays finished, with the same outcome.
pub proof fn lemma_finished_is_final(s: Session, events: Seq<Event>)
    requires
        s.phase == Phase::Finished,
    ensures
        run_from(s, events).0 == s,
    decreases events.len(),
{
    if events.len() > 0 {
        lemma_finished_is_final(s, events.drop_first());
    }
}

/// After the response is sent, or once finished, no run sends another.
pub proof fn lemma_no_send_after_exchange(s: Session, events: Seq<Event>)
    requires
        s.phase == Phase::AwaitingExit || s.phase == Phase::Finished,
    ensures
        forall|i: int|
            0 <= i < run_from(s, events).1.len() ==> #[trigger] run_from(s, events).1[i]
                != Action::SendResponse,
    decreases events.len(),
{
    if events.len() > 0 {
        let (s1, a) = next(s, events[0]);
        lemma_no_send_after_exchange(s1, events.drop_first());
        let rest = run_from(s1, events.drop_first()).1;
        assert(run_from(s, events).1 == seq![a] + rest);
        assert forall|i: int| 0 <= i < run_from(s, events).1.len() implies #[trigger] run_from(
            s,
            events,
        ).1[i] != Action::SendResponse by {
            if i > 0 {
                assert(run_from(s, events).1[i] == rest[i - 1]);
            }
        }
    }
}

/// The response channel carries at most one message: in any run, at most
/// one action sends a response.
pub proof fn lemma_single_response(s: Session, events: Seq<Event>)
    ensures
        forall|i: int, j: int|
            0 <= i < j < run_from(s, events).1.len() && #[trigger] run_from(s, events).1[i]
                == Action::SendResponse ==> #[trigger] run_from(s, events).1[j]
                != Action::SendResponse,
    decreases events.len(),
{
    if events.len() > 0 {
        let (s1, a) = next(s, events[0]);
        let rest = run_from(s1, events.drop_first()).1;
        let acts = run_from(s, events).1;
        assert(acts == seq![a] + rest);
        lemma_single_response(s1, events.drop_first());
        if a == Action::SendResponse {
            lemma_no_send_after_exchange(s1, events.drop_first());
        }
        assert forall|i: int, j: int|
            0 <= i < j < acts.len() && #[trigger] acts[i] == Action::SendResponse implies #[trigger] acts[j]
                != Action::SendResponse by {
            assert(acts[j] == rest[j - 1]);
            if i > 0 {
                assert(acts[i] == rest[i - 1]);
            }
        }
    }
}

/// A recorded failure is never forgotten.
pub proof fn lemma_failure_persists(s: Session, events: Seq<Event>)
    requires
        s.failure is Some,
    ensures
        run_from(s, events).0.failure is Some,
    decreases events.len(),
{
    if events.len() > 0 {
        lemma_failure_persists(next(s, events[0]).0, events.drop_first());
    }
}

/// A run that succeeds has delivered the callback's response: from a fresh
/// or mid-exchange session, an outcome of success means some action of the
/// run sent the response.
pub proof fn lemma_success_sent_response(s: Session, events: Seq<Event>)
    requires
        well_formed(s),
        s.phase == Phase::AwaitingConnection || s.phase == Phase::AwaitingRequest
            || s.phase == Phase::AwaitingCallback,
        outcome_of(run_from(s, events).0) == Some(Ok::<(), Failure>(())),
    ensures
        exists|i: int|
            0 <= i < run_from(s, events).1.len() && #[trigger] run_from(s, events).1[i]
                == Action::SendResponse,
    decreases events.len(),
{
    let (s1, a) = next(s, events[0]);
    let rest = run_from(s1, events.drop_first()).1;
    assert(run_from(s, events).1 == seq![a] + rest);
    if a == Action::SendResponse {
        assert(run_from(s, events).1[0] == Action::SendResponse);
    } else if s1.failure is Some {
        lemma_failure_persists(s1, events.drop_first());
    } else if s1.phase == Phase::Finished {
        lemma_finished_is_final(s1, events.drop_first());
    } else {
        lemma_success_sent_response(s1, events.drop_first());
        let i = choose|i: int| 0 <= i < rest.len() && #[trigger] rest[i] == Action::SendResponse;
        assert(run_from(s, events).1[i + 1] == Action::SendResponse);
    }
}

impl Session {
    /// A session whose compiler was just spawned.
    pub fn new() -> (r: Session)
        ensures
            r == (Session { phase: Phase::AwaitingConnection, failure: None }),
    {
        Session { phase: Phase::AwaitingConnection, failure: None }
    }

    /// Advances the session by `event` and says what to do next.
    pub fn step(&mut self, event: Event) -> (action: Action)
        ensures
            (*final(self), action) == next(*old(self), event),
    {
        let recorded = self.failure;
        match (self.phase, event) {
            (Phase::Finished, _) => Action::Finish,
            (_, Event::DeadlineElapsed) => {
                self.failure = Some(recorded.unwrap_or(Failure::Timeout));
                self.phase = Phase::Finished;
                Action::KillChild
            },
            (phase, Event::ChildExited(ok)) => {
                let early = match phase {
                    Phase::AwaitingConnection | Phase::AwaitingRequest
                    | Phase::AwaitingCallback => true,
                    _ => false,
                };
                if recorded.is_none() {
                    if !ok {
                        self.failure = Some(Failure::ProcessExit);
                    } else if early {
                        self.failure = Some(Failure::Connection);
                    }
                }
                self.phase = Phase::Finished;
                Action::Finish
            },
            (Phase::AwaitingConnection, Event::Connected) => {
                self.phase = Phase::AwaitingRequest;
                Action::AwaitRequest
            },
            (Phase::AwaitingRequest, Event::RequestReceived) => {
                self.phase = Phase::AwaitingCallback;
                Action::InvokeCallback
            },
            (Phase::AwaitingCallback, Event::CallbackSucceeded) => {
                self.phase = Phase::AwaitingExit;
                Action::SendResponse
            },
            (Phase::AwaitingConnection, Event::ConnectFailed)
            | (Phase::AwaitingRequest, Event::RequestLost) => {
                self.failure = Some(recorded.unwrap_or(Failure::Connection));
                self.phase = Phase::AwaitingExit;
                Action::AwaitExit
            },
            (Phase::AwaitingCallback, Event::CallbackFailed) => {
                self.failure = Some(recorded.unwrap_or(Failure::Callback));
                self.phase = Phase::AwaitingExit;
                Action::AwaitExit
            },
            _ => {
                self.failure = Some(recorded.unwrap_or(Failure::Connection));
                self.phase = Phase::Finished;
                Action::KillChild
            },
        }
    }

    /// What the run returns: `None` while the session is not finished.
    pub fn outcome(&self) -> (r: Option<Result<(), Failure>>)
        ensures
            r == outcome_of(*self),
    {
        match self.phase {
            Phase::Finished => match self.failure {
                Some(f) => Some(Err(f)),
                None => Some(Ok(())),
            },
            _ => None,
        }
    }
}

} // verus!
