//! The exit-dispatch state machine that drives the run loop.
//!
//! Each decoded [`ExitEvent`] moves the loop's control state: a halt or
//! shutdown ends the run normally, an entry failure or internal error ends it
//! fatally, an I/O exit is observed and discarded (no device backs any port),
//! and unrecognized exits are counted. A bounded counter of consecutive
//! unrecognized exits forces `GuardTripped` instead of looping forever
//! against a guest the dispatcher cannot make progress on; any recognized
//! exit resets the counter.

use vstd::prelude::*;
use crate::exit::ExitEvent;

verus! {

/// Default number of consecutive unrecognized exits tolerated before the
/// loop guard trips.
pub const DEFAULT_GUARD_BOUND: u32 = 10;

/// Why a run ended unrecoverably.
#[derive(Clone, Copy, PartialEq, Eq, Structural, Debug)]
pub enum FatalKind {
    /// The hardware refused to enter the guest; carries the reported reason.
    EntryFailure { reason: u64 },
    /// The facility reported an internal error; carries the suberror code.
    InternalError { suberror: u32 },
}

/// Control state of the run loop after an exit has been dispatched.
#[derive(Clone, Copy, PartialEq, Eq, Structural, Debug)]
pub enum ControlState {
    /// Re-enter the guest.
    Continue,
    /// The guest halted: normal completion (terminal).
    Halted,
    /// The guest requested shutdown (terminal).
    ShutdownRequested,
    /// A kernel-reported unrecoverable condition (terminal).
    Fatal { kind: FatalKind },
    /// The loop guard stopped a run of unrecognized exits (terminal).
    GuardTripped,
}

impl ControlState {
    /// Every state but `Continue` ends the run loop.
    pub open spec fn is_terminal(self) -> bool {
        !(self is Continue)
    }

    /// Executable test for `is_terminal`.
    pub fn terminal(&self) -> (r: bool)
        ensures
            r == self.is_terminal(),
    {
        !(matches!(self, ControlState::Continue))
    }
}

/// An event the dispatcher attributes to a known cause. Only unrecognized
/// events feed the loop guard's counter.
pub open spec fn event_recognized(e: ExitEvent) -> bool {
    !(e is HardwareExit) && !(e is Unknown)
}

/// An event whose dispatch ends the run loop.
pub open spec fn event_terminal(e: ExitEvent) -> bool {
    e is Hlt || e is Shutdown || e is FailEntry || e is InternalError
}

/// The state the dispatcher reports for one event, given its guard bound and
/// the count of consecutive unrecognized events seen so far.
pub open spec fn step_state(bound: u32, streak: u32, e: ExitEvent) -> ControlState {
    match e {
        ExitEvent::Hlt => ControlState::Halted,
        ExitEvent::Shutdown => ControlState::ShutdownRequested,
        ExitEvent::FailEntry { reason } => ControlState::Fatal {
            kind: FatalKind::EntryFailure { reason },
        },
        ExitEvent::InternalError { suberror, .. } => ControlState::Fatal {
            kind: FatalKind::InternalError { suberror },
        },
        ExitEvent::Io { .. } => ControlState::Continue,
        ExitEvent::HardwareExit { .. } => if streak >= bound {
            ControlState::GuardTripped
        } else {
            ControlState::Continue
        },
        ExitEvent::Unknown { .. } => if streak >= bound {
            ControlState::GuardTripped
        } else {
            ControlState::Continue
        },
    }
}

/// The unrecognized-exit counter after one event: a recognized event resets
/// it, an unrecognized one advances it (saturating at the bound, where the
/// guard trips anyway).
pub open spec fn step_streak(bound: u32, streak: u32, e: ExitEvent) -> u32 {
    if event_recognized(e) {
        0
    } else if streak >= bound {
        streak
    } else {
        (streak + 1) as u32
    }
}

/// The control state reached by feeding `events` in order, starting with
/// `streak` consecutive unrecognized exits already seen, and stopping at the
/// first terminal state. An exhausted sequence leaves the loop continuing.
pub open spec fn dispatch_trace(bound: u32, streak: u32, events: Seq<ExitEvent>) -> ControlState
    decreases events.len(),
{
    if events.len() == 0 {
        ControlState::Continue
    } else {
        let s = step_state(bound, streak, events[0]);
        if s is Continue {
            dispatch_trace(bound, step_streak(bound, streak, events[0]), events.drop_first())
        } else {
            s
        }
    }
}

/// Interprets successive exit events and tracks the loop guard.
pub struct ExitDispatcher {
    guard_bound: u32,
    streak: u32,
}

impl ExitDispatcher {
    /// The configured guard bound.
    pub closed spec fn guard_bound_spec(&self) -> u32 {
        self.guard_bound
    }

    /// The count of consecutive unrecognized exits seen so far.
    pub closed spec fn streak_spec(&self) -> u32 {
        self.streak
    }

    /// The counter never runs past the bound.
    pub open spec fn wf(&self) -> bool {
        self.streak_spec() <= self.guard_bound_spec()
    }

    pub fn new(guard_bound: u32) -> (d: ExitDispatcher)
        ensures
            d.wf(),
            d.guard_bound_spec() == guard_bound,
            d.streak_spec() == 0,
    {
        ExitDispatcher { guard_bound, streak: 0 }
    }

    /// Dispatches one decoded exit event: returns the next control state and
    /// advances or resets the loop-guard counter, exactly as `step_state` and
    /// `step_streak` state.
    pub fn observe(&mut self, e: &ExitEvent) -> (s: ControlState)
        requires
            old(self).wf(),
        ensures
            final(self).wf(),
            final(self).guard_bound_spec() == old(self).guard_bound_spec(),
            s == step_state(old(self).guard_bound_spec(), old(self).streak_spec(), *e),
            final(self).streak_spec() == step_streak(
                old(self).guard_bound_spec(), old(self).streak_spec(), *e),
    {
        match e {
            ExitEvent::Hlt => {
                self.streak = 0;
                ControlState::Halted
            },
            ExitEvent::Shutdown => {
                self.streak = 0;
                ControlState::ShutdownRequested
            },
            ExitEvent::FailEntry { reason } => {
                self.streak = 0;
                ControlState::Fatal { kind: FatalKind::EntryFailure { reason: *reason } }
            },
            ExitEvent::InternalError { suberror, .. } => {
                self.streak = 0;
                ControlState::Fatal { kind: FatalKind::InternalError { suberror: *suberror } }
            },
            ExitEvent::Io { .. } => {
                self.streak = 0;
                ControlState::Continue
            },
            ExitEvent::HardwareExit { .. } => {
                if self.streak >= self.guard_bound {
                    ControlState::GuardTripped
                } else {
                    self.streak = self.streak + 1;
                    ControlState::Continue
                }
            },
            ExitEvent::Unknown { .. } => {
                if self.streak >= self.guard_bound {
                    ControlState::GuardTripped
                } else {
                    self.streak = self.streak + 1;
                    ControlState::Continue
                }
            },
        }
    }
}

/// Feeds a whole sequence of events to a fresh dispatcher, stopping at the
/// first terminal state: the executable form of `dispatch_trace`.
pub fn dispatch_events(guard_bound: u32, events: &Vec<ExitEvent>) -> (s: ControlState)
    ensures
        s == dispatch_trace(guard_bound, 0, events@),
{
    let mut d = ExitDispatcher::new(guard_bound);
    let n: usize = events.len();
    let mut i: usize = 0;
    proof {
        assert(events@.skip(0) =~= events@);
    }
    while i < n
        invariant
            n == events@.len(),
            i <= n,
            d.wf(),
            d.guard_bound_spec() == guard_bound,
            dispatch_trace(guard_bound, 0, events@)
                == dispatch_trace(guard_bound, d.streak_spec(), events@.skip(i as int)),
        decreases n - i,
    {
        let s = d.observe(&events[i]);
        proof {
            assert(events@.skip(i as int)[0] == events@[i as int]);
            assert(events@.skip(i as int).drop_first() =~= events@.skip(i as int + 1));
        }
        if s.terminal() {
            return s;
        }
        i = i + 1;
    }
    proof {
        assert(events@.skip(n as int) =~= Seq::<ExitEvent>::empty());
    }
    ControlState::Continue
}

/// The dispatcher reaches `Halted` exactly when a halt event is observed: the
/// trace ends in `Halted` if and only if some event is `Hlt` and the events
/// before it leave the loop running — any number of preceding I/O or
/// unrecognized exits that do not trip the guard alters nothing.
pub proof fn lemma_halted_iff_hlt(bound: u32, streak: u32, events: Seq<ExitEvent>)
    ensures
        dispatch_trace(bound, streak, events) == ControlState::Halted
            <==> exists|i: int|
                0 <= i < events.len() && events[i] is Hlt
                && dispatch_trace(bound, streak, events.take(i)) is Continue,
    decreases events.len(),
{
    if events.len() == 0 {
    } else {
        let e0 = events[0];
        let s0 = step_state(bound, streak, e0);
        let k1 = step_streak(bound, streak, e0);
        let rest = events.drop_first();
        assert(events.take(0) =~= Seq::<ExitEvent>::empty());
        if s0 is Continue {
            lemma_halted_iff_hlt(bound, k1, rest);
            if dispatch_trace(bound, streak, events) == ControlState::Halted {
                let i2 = choose|i2: int|
                    0 <= i2 < rest.len() && rest[i2] is Hlt
                    && dispatch_trace(bound, k1, rest.take(i2)) is Continue;
                assert(rest.take(i2) =~= events.take(i2 + 1).drop_first());
                assert(events.take(i2 + 1)[0] == e0);
                assert(dispatch_trace(bound, streak, events.take(i2 + 1)) is Continue);
                assert(events[i2 + 1] == rest[i2]);
            }
            if exists|i: int|
                0 <= i < events.len() && events[i] is Hlt
                && dispatch_trace(bound, streak, events.take(i)) is Continue {
                let i = choose|i: int|
                    0 <= i < events.len() && events[i] is Hlt
                    && dispatch_trace(bound, streak, events.take(i)) is Continue;
                assert(i >= 1) by {
                    if i == 0 {
                        assert(step_state(bound, streak, e0) is Halted);
                    }
                }
                assert(events.take(i).drop_first() =~= rest.take(i - 1));
                assert(events.take(i)[0] == e0);
                assert(dispatch_trace(bound, k1, rest.take(i - 1)) is Continue);
                assert(rest[i - 1] == events[i]);
                assert(dispatch_trace(bound, k1, rest) == ControlState::Halted);
            }
        } else {
            if s0 == ControlState::Halted {
                assert(e0 is Hlt);
                assert(dispatch_trace(bound, streak, events.take(0)) is Continue);
            }
            if exists|i: int|
                0 <= i < events.len() && events[i] is Hlt
                && dispatch_trace(bound, streak, events.take(i)) is Continue {
                let i = choose|i: int|
                    0 <= i < events.len() && events[i] is Hlt
                    && dispatch_trace(bound, streak, events.take(i)) is Continue;
                if i == 0 {
                    assert(s0 == ControlState::Halted);
                } else {
                    assert(events.take(i)[0] == e0);
                    assert(dispatch_trace(bound, streak, events.take(i)) == s0);
                    assert(false);
                }
            }
        }
    }
}

/// A run of consecutive unrecognized exits long enough to pass the guard
/// bound ends in `GuardTripped`, never in an unbounded loop.
pub proof fn lemma_guard_trips(bound: u32, streak: u32, events: Seq<ExitEvent>)
    requires
        forall|j: int| 0 <= j < events.len() ==> !event_recognized(#[trigger] events[j]),
        streak <= bound,
        events.len() + streak > bound,
    ensures
        dispatch_trace(bound, streak, events) == ControlState::GuardTripped,
    decreases events.len(),
{
    let e0 = events[0];
    assert(!event_recognized(e0));
    if streak >= bound {
        assert(step_state(bound, streak, e0) == ControlState::GuardTripped);
    } else {
        lemma_guard_trips(bound, (streak + 1) as u32, events.drop_first());
    }
}

/// A run of consecutive unrecognized exits that stays within the guard bound
/// leaves the loop continuing.
pub proof fn lemma_guard_holds(bound: u32, streak: u32, events: Seq<ExitEvent>)
    requires
        forall|j: int| 0 <= j < events.len() ==> !event_recognized(#[trigger] events[j]),
        events.len() + streak <= bound,
    ensures
        dispatch_trace(bound, streak, events) == ControlState::Continue,
    decreases events.len(),
{
    if events.len() == 0 {
    } else {
        let e0 = events[0];
        assert(!event_recognized(e0));
        lemma_guard_holds(bound, (streak + 1) as u32, events.drop_first());
    }
}

/// Any recognized exit resets the loop-guard counter.
pub proof fn lemma_recognized_resets(bound: u32, streak: u32, e: ExitEvent)
    requires
        event_recognized(e),
    ensures
        step_streak(bound, streak, e) == 0,
{
}

} // verus!
