use vstd::prelude::*;

use crate::classify::Connectivity;

verus! {

/// Seconds to wait between two checks while online.
pub const IDLE_WAIT_SECS: u64 = 60;

/// Seconds to let the network settle after a login attempt.
pub const SETTLE_WAIT_SECS: u64 = 1;

/// Seconds to back off before the next login attempt, so that the portal
/// does not ban the device for rapid repeated logins.
pub const BACKOFF_WAIT_SECS: u64 = 5;

/// Where the reconnection loop stands. `IdleWaiting` and `IdleChecking` make
/// up the idle mode (last classified online); `LoggingIn`, `Settling`,
/// `Verifying` and `BackingOff` make up the reconnecting mode.
#[derive(Clone, Copy, Debug, PartialEq, Eq, Structural)]
pub enum LoopState {
    /// Waiting for the classification made at startup.
    Starting,
    /// Online: waiting before the next check.
    IdleWaiting,
    /// Online: waiting for the periodic classification.
    IdleChecking,
    /// Offline: waiting for the login action to finish.
    LoggingIn,
    /// Offline: waiting for the network to settle after a login attempt.
    Settling,
    /// Offline: waiting for the classification after a login attempt.
    Verifying,
    /// Offline: waiting before the next login attempt.
    BackingOff,
    /// Cancelled: the loop has returned.
    Stopped,
}

/// What the loop asks its driver to do next.
#[derive(Clone, Copy, Debug, PartialEq, Eq, Structural)]
pub enum LoopAction {
    /// Probe the network and report the classification.
    Classify,
    /// Resolve the login URL and invoke the login action.
    Login,
    /// Wait this many seconds for a control signal, and report whether a
    /// quit signal came.
    Wait(u64),
    /// Return: the loop is over.
    Finish,
}

/// What the driver reports back after performing an action.
#[derive(Clone, Copy, Debug, PartialEq, Eq, Structural)]
pub enum LoopEvent {
    /// The probe was classified.
    Classified(Connectivity),
    /// The login action finished; success or failure alike, it was logged.
    LoginFinished,
    /// A wait ended; `true` when it ended on a quit signal.
    WaitEnded(bool),
}

/// The action that a state waits on.
pub open spec fn pending(s: LoopState) -> LoopAction {
    match s {
        LoopState::Starting => LoopAction::Classify,
        LoopState::IdleWaiting => LoopAction::Wait(IDLE_WAIT_SECS),
        LoopState::IdleChecking => LoopAction::Classify,
        LoopState::LoggingIn => LoopAction::Login,
        LoopState::Settling => LoopAction::Wait(SETTLE_WAIT_SECS),
        LoopState::Verifying => LoopAction::Classify,
        LoopState::BackingOff => LoopAction::Wait(BACKOFF_WAIT_SECS),
        LoopState::Stopped => LoopAction::Finish,
    }
}

/// The state after an event. An event that does not answer the pending
/// action leaves the state as it is, so the action is asked for again.
pub open spec fn next_state(s: LoopState, e: LoopEvent) -> LoopState {
    match (s, e) {
        (LoopState::Starting, LoopEvent::Classified(c))
        | (LoopState::IdleChecking, LoopEvent::Classified(c)) => if c == Connectivity::Online {
            LoopState::IdleWaiting
        } else {
            LoopState::LoggingIn
        },
        (LoopState::Verifying, LoopEvent::Classified(c)) => if c == Connectivity::Online {
            LoopState::IdleWaiting
        } else {
            LoopState::BackingOff
        },
        (LoopState::IdleWaiting, LoopEvent::WaitEnded(quit)) => if quit {
            LoopState::Stopped
        } else {
            LoopState::IdleChecking
        },
        (LoopState::Settling, LoopEvent::WaitEnded(quit)) => if quit {
            LoopState::Stopped
        } else {
            LoopState::Verifying
        },
        (LoopState::BackingOff, LoopEvent::WaitEnded(quit)) => if quit {
            LoopState::Stopped
        } else {
            LoopState::LoggingIn
        },
        (LoopState::LoggingIn, LoopEvent::LoginFinished) => LoopState::Settling,
        _ => s,
    }
}

/// The loop is in idle mode: last classified online.
pub open spec fn is_idle(s: LoopState) -> bool {
    s == LoopState::IdleWaiting || s == LoopState::IdleChecking
}

/// The actions that the loop asks for, one per event, from state `s`.
pub open spec fn run_actions(s: LoopState, es: Seq<LoopEvent>) -> Seq<LoopAction>
    decreases es.len(),
{
    if es.len() == 0 {
        Seq::empty()
    } else {
        let s2 = next_state(s, es[0]);
        seq![pending(s2)] + run_actions(s2, es.drop_first())
    }
}

/// The state that the loop reaches from `s` after the events `es`.
pub open spec fn run_state(s: LoopState, es: Seq<LoopEvent>) -> LoopState
    decreases es.len(),
{
    if es.len() == 0 {
        s
    } else {
        run_state(next_state(s, es[0]), es.drop_first())
    }
}

impl LoopState {
    /// The initial state and action: classify once at startup.
    pub fn start() -> (r: (LoopState, LoopAction))
        ensures
            r == (LoopState::Starting, LoopAction::Classify),
    {
        (LoopState::Starting, LoopAction::Classify)
    }

    /// Advances the loop by one event, and returns the new state together
    /// with the action that it waits on.
    pub fn step(self, e: LoopEvent) -> (r: (LoopState, LoopAction))
        ensures
            r.0 == next_state(self, e),
            r.1 == pending(r.0),
    {
        let s = match (self, e) {
            (LoopState::Starting, LoopEvent::Classified(c))
            | (LoopState::IdleChecking, LoopEvent::Classified(c)) => match c {
                Connectivity::Online => LoopState::IdleWaiting,
                Connectivity::Offline => LoopState::LoggingIn,
            },
            (LoopState::Verifying, LoopEvent::Classified(c)) => match c {
                Connectivity::Online => LoopState::IdleWaiting,
                Connectivity::Offline => LoopState::BackingOff,
            },
            (LoopState::IdleWaiting, LoopEvent::WaitEnded(quit)) => if quit {
                LoopState::Stopped
            } else {
                LoopState::IdleChecking
            },
            (LoopState::Settling, LoopEvent::WaitEnded(quit)) => if quit {
                LoopState::Stopped
            } else {
                LoopState::Verifying
            },
            (LoopState::BackingOff, LoopEvent::WaitEnded(quit)) => if quit {
                LoopState::Stopped
            } else {
                LoopState::LoggingIn
            },
            (LoopState::LoggingIn, LoopEvent::LoginFinished) => LoopState::Settling,
            _ => self,
        };
        (s, s.action())
    }

    /// The action that this state waits on.
    pub fn action(self) -> (a: LoopAction)
        ensures
            a == pending(self),
    {
        match self {
            LoopState::Starting => LoopAction::Classify,
            LoopState::IdleWaiting => LoopAction::Wait(IDLE_WAIT_SECS),
            LoopState::IdleChecking => LoopAction::Classify,
            LoopState::LoggingIn => LoopAction::Login,
            LoopState::Settling => LoopAction::Wait(SETTLE_WAIT_SECS),
            LoopState::Verifying => LoopAction::Classify,
            LoopState::BackingOff => LoopAction::Wait(BACKOFF_WAIT_SECS),
            LoopState::Stopped => LoopAction::Finish,
        }
    }

    /// Whether the loop has returned.
    pub fn is_stopped(self) -> (b: bool)
        ensures
            b == (self == LoopState::Stopped),
    {
        match self {
            LoopState::Stopped => true,
            _ => false,
        }
    }
}

/// A quit signal that ends any wait, in any state, stops the loop at once;
/// once stopped, the loop stays stopped whatever comes.
pub proof fn lemma_quit_during_wait_stops(s: LoopState, e: LoopEvent)
    ensures
        pending(s) is Wait ==> next_state(s, LoopEvent::WaitEnded(true)) == LoopState::Stopped,
        pending(LoopState::Stopped) == LoopAction::Finish,
        next_state(LoopState::Stopped, e) == LoopState::Stopped,
{
}

/// Every wait the loop asks for lasts at most `IDLE_WAIT_SECS` seconds.
pub proof fn lemma_waits_are_bounded(s: LoopState)
    ensures
        pending(s) matches LoopAction::Wait(secs) ==> secs <= IDLE_WAIT_SECS,
{
}

/// The loop stops only on a quit signal: no other event ends it.
pub proof fn lemma_stops_only_on_quit(s: LoopState, e: LoopEvent)
    ensures
        next_state(s, e) == LoopState::Stopped ==> s == LoopState::Stopped || e
            == LoopEvent::WaitEnded(true),
{
}

/// A login is asked for only while offline: the loop enters `LoggingIn` on
/// an offline verdict, or after backing off, which it enters only on an
/// offline verdict.
pub proof fn lemma_login_only_when_offline(s: LoopState, e: LoopEvent)
    ensures
        next_state(s, e) == LoopState::LoggingIn ==> s == LoopState::LoggingIn || e
            == LoopEvent::Classified(Connectivity::Offline) || (s == LoopState::BackingOff && e
            == LoopEvent::WaitEnded(false)),
        next_state(s, e) == LoopState::BackingOff ==> s == LoopState::BackingOff || e
            == LoopEvent::Classified(Connectivity::Offline),
{
}

/// While idle, any run of events without an offline classification never
/// asks for a login: the loop stays idle, or stops on a quit signal.
pub proof fn lemma_idle_online_never_logs_in(s: LoopState, es: Seq<LoopEvent>)
    requires
        is_idle(s),
        forall|k: int|
            0 <= k < es.len() ==> #[trigger] es[k] != LoopEvent::Classified(Connectivity::Offline),
    ensures
        forall|k: int| 0 <= k < es.len() ==> #[trigger] run_actions(s, es)[k] != LoopAction::Login,
        is_idle(run_state(s, es)) || run_state(s, es) == LoopState::Stopped,
{
    lemma_idle_or_stopped_never_logs_in(s, es);
}

proof fn lemma_idle_or_stopped_never_logs_in(s: LoopState, es: Seq<LoopEvent>)
    requires
        is_idle(s) || s == LoopState::Stopped,
        forall|k: int|
            0 <= k < es.len() ==> #[trigger] es[k] != LoopEvent::Classified(Connectivity::Offline),
    ensures
        run_actions(s, es).len() == es.len(),
        forall|k: int| 0 <= k < es.len() ==> #[trigger] run_actions(s, es)[k] != LoopAction::Login,
        is_idle(run_state(s, es)) || run_state(s, es) == LoopState::Stopped,
    decreases es.len(),
{
    if es.len() > 0 {
        let s2 = next_state(s, es[0]);
        let rest = es.drop_first();
        assert(es[0] != LoopEvent::Classified(Connectivity::Offline));
        assert(is_idle(s2) || s2 == LoopState::Stopped);
        assert forall|k: int| 0 <= k < rest.len() implies #[trigger] rest[k]
            != LoopEvent::Classified(Connectivity::Offline) by {
            assert(rest[k] == es[k + 1]);
        }
        lemma_idle_or_stopped_never_logs_in(s2, rest);
        let acts = run_actions(s, es);
        assert(acts == seq![pending(s2)] + run_actions(s2, rest));
        assert forall|k: int| 0 <= k < es.len() implies #[trigger] acts[k] != LoopAction::Login by {
            if k > 0 {
                assert(acts[k] == run_actions(s2, rest)[k - 1]);
            }
        }
    }
}

} // verus!
