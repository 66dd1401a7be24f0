//! The countdown timer for one focus session.
use vstd::prelude::*;
use crate::time::{saturating_diff, Clock, Moment, Span, SystemClock, NANOS_PER_SEC, NANOS_PER_MILLI};

verus! {

/// Whether a [`Timer`] is counting down or stopped, and the data needed to
/// compute [`Timer::remaining`] in either case.
#[derive(Clone, Copy, PartialEq, Eq, Structural, Debug)]
pub enum SessionState {
    Running { started_at: Moment, remaining_time_at_start: Span },
    Idle { remaining_time: Span },
}

/// The time left, in nanoseconds, in a session in `state` at the moment `now`.
pub open spec fn remaining_at_spec(state: SessionState, now: Moment) -> nat {
    match state {
        SessionState::Running { started_at, remaining_time_at_start } => saturating_diff(
            remaining_time_at_start.nanos as int,
            saturating_diff(now.nanos as int, started_at.nanos as int) as int,
        ),
        SessionState::Idle { remaining_time } => remaining_time.nanos as nat,
    }
}

/// The state after starting, at `now`, a session whose remaining time is `left`.
pub open spec fn started(left: Span, now: Moment) -> SessionState {
    SessionState::Running { started_at: now, remaining_time_at_start: left }
}

/// The state after pausing, at `now`, a session in `state`: idle with the
/// time that was left at `now`.
pub open spec fn paused(state: SessionState, now: Moment) -> SessionState {
    SessionState::Idle { remaining_time: Span { nanos: remaining_at_spec(state, now) as u128 } }
}

/// The time left that a state holds as its upper bound: the frozen time
/// while idle, the time left at the start while running.
pub open spec fn time_budget(state: SessionState) -> int {
    match state {
        SessionState::Running { remaining_time_at_start, .. } => remaining_time_at_start.nanos as int,
        SessionState::Idle { remaining_time } => remaining_time.nanos as int,
    }
}


/// While a session runs, the time left never grows as the clock moves on.
pub proof fn lemma_remaining_never_increases(state: SessionState, earlier: Moment, later: Moment)
    requires
        earlier.nanos <= later.nanos,
    ensures
        remaining_at_spec(state, later) <= remaining_at_spec(state, earlier),
{
}

/// While idle, the time left is the same whenever it is read.
pub proof fn lemma_idle_time_is_frozen(state: SessionState, a: Moment, b: Moment)
    requires
        state is Idle,
    ensures
        remaining_at_spec(state, a) == remaining_at_spec(state, b),
{
}

/// The time left never exceeds what the state holds as its bound, so a
/// timer whose bound is within its focus time never shows more than that.
pub proof fn lemma_remaining_within_budget(state: SessionState, now: Moment)
    ensures
        remaining_at_spec(state, now) <= time_budget(state),
{
}

/// A running session counts down by the time since it started, and shows
/// nothing left once that time reaches what was left at the start.
pub proof fn lemma_running_session_counts_down(left: Span, start: Moment, now: Moment)
    requires
        start.nanos <= now.nanos,
    ensures
        remaining_at_spec(started(left, start), now) == saturating_diff(left.nanos as int, now.nanos - start.nanos),
        now.nanos - start.nanos >= left.nanos ==> remaining_at_spec(started(left, start), now) == 0,
{
}

/// Starting resumes from exactly the time that was left.
pub proof fn lemma_start_resumes(left: Span, now: Moment)
    ensures
        remaining_at_spec(started(left, now), now) == left.nanos,
{
}

/// Pausing freezes the time that was left at the pause, whenever it is
/// read afterwards.
pub proof fn lemma_pause_freezes(state: SessionState, at: Moment, later: Moment)
    ensures
        remaining_at_spec(paused(state, at), later) == remaining_at_spec(state, at),
{
}

/// Starting and pausing at the same moment, as a double toggle does, leaves
/// an idle timer with the time it had.
pub proof fn lemma_start_then_pause_at_once(left: Span, now: Moment)
    ensures
        paused(started(left, now), now) == (SessionState::Idle { remaining_time: left }),
{
}

/// The time spent paused does not count: after running from `t0` to `t1`,
/// pausing, and running again from `t2`, the time left at `t3` is what was
/// left at first less the two running stretches.
pub proof fn lemma_pauses_do_not_count(left: Span, t0: Moment, t1: Moment, t2: Moment, t3: Moment)
    requires
        t0.nanos <= t1.nanos <= t2.nanos <= t3.nanos,
    ensures
        ({
            let frozen = paused(started(left, t0), t1);
            remaining_at_spec(started(frozen->remaining_time, t2), t3)
                == saturating_diff(left.nanos as int, (t1.nanos - t0.nanos) + (t3.nanos - t2.nanos))
        }),
{
}

/// The state after checking, at `now`, whether a session in `state` is over:
/// idle with the full `focus` once a running session has no time left,
/// unchanged otherwise.
pub open spec fn after_update(state: SessionState, focus: Span, now: Moment) -> SessionState {
    if state is Running && remaining_at_spec(state, now) == 0 {
        SessionState::Idle { remaining_time: focus }
    } else {
        state
    }
}

/// The timer's state after a frame at `now`, and whether the frame
/// announces that the focus time is up: it does where no time is left at
/// `now` and the settings ask for it; a running session with no time left
/// ends.
pub open spec fn frame_end(state: SessionState, focus: Span, now: Moment, show_message: bool) -> (SessionState, bool) {
    (after_update(state, focus, now), remaining_at_spec(state, now) == 0 && show_message)
}

/// The state after toggling, at `now`: started if idle, paused if running.
pub open spec fn toggled(state: SessionState, now: Moment) -> SessionState {
    match state {
        SessionState::Idle { remaining_time } => started(remaining_time, now),
        SessionState::Running { .. } => paused(state, now),
    }
}

/// The operations that change a timer's state.
#[derive(Clone, Copy, PartialEq, Eq, Structural, Debug)]
pub enum TimerOp {
    Start,
    Pause,
    Reset,
    Toggle,
    UpdateState,
}

/// The state after `op` at the moment `now`, for a timer whose full session
/// is `focus`. Starting a running timer and pausing an idle one are faults
/// that the operations rule out; here they leave the state as it was.
pub open spec fn step(state: SessionState, focus: Span, op: TimerOp, now: Moment) -> SessionState {
    match op {
        TimerOp::Start => match state {
            SessionState::Idle { remaining_time } => started(remaining_time, now),
            SessionState::Running { .. } => state,
        },
        TimerOp::Pause => match state {
            SessionState::Running { .. } => paused(state, now),
            SessionState::Idle { .. } => state,
        },
        TimerOp::Reset => SessionState::Idle { remaining_time: focus },
        TimerOp::Toggle => toggled(state, now),
        TimerOp::UpdateState => after_update(state, focus, now),
    }
}

/// The state after the operations `ops`, each at its moment, in order.
pub open spec fn run(state: SessionState, focus: Span, ops: Seq<(TimerOp, Moment)>) -> SessionState
    decreases ops.len(),
{
    if ops.len() == 0 {
        state
    } else {
        step(run(state, focus, ops.drop_last()), focus, ops.last().0, ops.last().1)
    }
}

/// One frame's key presses.
#[derive(Clone, Copy, PartialEq, Eq, Structural, Debug)]
pub struct KeyPresses {
    pub toggle_state: bool,
    pub open_settings: bool,
    pub reset_timer: bool,
    pub quit: bool,
}

/// What the window does after one frame's key presses.
#[derive(Clone, Copy, PartialEq, Eq, Structural, Debug)]
pub struct KeyResponse {
    pub show_settings: bool,
    pub close: bool,
}

/// The timer state after one frame's key presses at `now`: toggled if the
/// toggle key was pressed, then reset if the reset key was.
pub open spec fn after_keys(state: SessionState, focus: Span, keys: KeyPresses, now: Moment) -> SessionState {
    let toggled_state = if keys.toggle_state { toggled(state, now) } else { state };
    if keys.reset_timer {
        SessionState::Idle { remaining_time: focus }
    } else {
        toggled_state
    }
}

/// Every operation keeps the time left within the full session.
pub proof fn lemma_step_keeps_within_focus(state: SessionState, focus: Span, op: TimerOp, now: Moment)
    requires
        time_budget(state) <= focus.nanos,
    ensures
        time_budget(step(state, focus, op, now)) <= focus.nanos,
{
    lemma_remaining_within_budget(state, now);
}

/// A timer that starts idle with its full session, as every constructor
/// makes it, never shows more time left than the full session, whatever
/// operations follow and whatever the clock reads at each.
pub proof fn lemma_any_session_stays_within_focus(focus: Span, ops: Seq<(TimerOp, Moment)>, now: Moment)
    ensures
        time_budget(run(SessionState::Idle { remaining_time: focus }, focus, ops)) <= focus.nanos,
        remaining_at_spec(run(SessionState::Idle { remaining_time: focus }, focus, ops), now) <= focus.nanos,
    decreases ops.len(),
{
    let start = SessionState::Idle { remaining_time: focus };
    if ops.len() > 0 {
        lemma_any_session_stays_within_focus(focus, ops.drop_last(), now);
        lemma_step_keeps_within_focus(run(start, focus, ops.drop_last()), focus, ops.last().0, ops.last().1);
    }
    lemma_remaining_within_budget(run(start, focus, ops), now);
}

/// Once a running session has no time left, the check that ends it gives
/// back the timer's full focus time, however much time was left when the
/// session last started; a session with time left, or an idle timer, is
/// left as it is.
pub proof fn lemma_time_up_restores_full_focus(state: SessionState, focus: Span, now: Moment)
    ensures
        state is Running && remaining_at_spec(state, now) == 0 ==> after_update(state, focus, now) == (
        SessionState::Idle { remaining_time: focus }),
        state is Running && remaining_at_spec(state, now) == 0 ==> forall|later: Moment|
            #[trigger] remaining_at_spec(after_update(state, focus, now), later) == focus.nanos,
        !(state is Running && remaining_at_spec(state, now) == 0) ==> after_update(state, focus, now) == state,
{
}

/// A session that ran out, even after being paused and resumed, ends with
/// the full focus time back, not the time left at its last start.
pub proof fn lemma_resumed_session_ends_with_full_focus(
    focus: Span,
    left: Span,
    resumed: Moment,
    now: Moment,
)
    requires
        resumed.nanos <= now.nanos,
        now.nanos - resumed.nanos >= left.nanos,
    ensures
        after_update(started(left, resumed), focus, now) == (SessionState::Idle { remaining_time: focus }),
{
}

/// Toggling a running session pauses it with the time left at the moment
/// of the toggle: what was left at its start less the time since; toggling
/// an idle timer starts it at that moment with the time it had.
pub proof fn lemma_toggle_freezes_time_left_at_the_toggle(left: Span, start: Moment, now: Moment)
    requires
        start.nanos <= now.nanos,
    ensures
        toggled(started(left, start), now) == (SessionState::Idle {
            remaining_time: Span { nanos: saturating_diff(left.nanos as int, now.nanos - start.nanos) as u128 },
        }),
        toggled(SessionState::Idle { remaining_time: left }, now) == (SessionState::Running {
            started_at: now,
            remaining_time_at_start: left,
        }),
{
}

/// The reset key always leaves the timer idle with its full focus time,
/// whatever state it was in and whether or not the toggle key was pressed
/// too; without it, the toggle key toggles and no key leaves the state.
pub proof fn lemma_reset_key_always_resets(state: SessionState, focus: Span, keys: KeyPresses, now: Moment)
    ensures
        keys.reset_timer ==> after_keys(state, focus, keys, now) == (SessionState::Idle { remaining_time: focus }),
        !keys.reset_timer && keys.toggle_state ==> after_keys(state, focus, keys, now) == toggled(state, now),
        !keys.reset_timer && !keys.toggle_state ==> after_keys(state, focus, keys, now) == state,
{
}

/// A countdown timer for one focus session.
///
/// `clock` is injected rather than read from the operating system directly,
/// so tests can drive time forward deterministically with
/// [`new_with_fake_clock`](Timer::new_with_fake_clock).
pub struct Timer<C: Clock> {
    pub clock: C,
    pub state: SessionState,
    pub focus_time: Span,
}

impl Timer<SystemClock> {
    /// Creates an idle timer with `focus_time_in_minutes` of time remaining,
    /// using the operating system's clock.
    pub fn new(focus_time_in_minutes: u32) -> (t: Self)
        ensures
            t.focus_time.nanos == focus_time_in_minutes * 60 * NANOS_PER_SEC,
            t.state == (SessionState::Idle { remaining_time: t.focus_time }),
            time_budget(t.state) <= t.focus_time.nanos,
    {
        let focus_time = Span::from_mins(focus_time_in_minutes);
        Timer { clock: SystemClock::new(), state: SessionState::Idle { remaining_time: focus_time }, focus_time }
    }
}

impl Default for Timer<SystemClock> {
    /// An idle thirty-minute timer on the operating system's clock.
    fn default() -> (t: Self)
        ensures
            t.focus_time.nanos == 30 * 60 * NANOS_PER_SEC,
            t.state == (SessionState::Idle { remaining_time: t.focus_time }),
            time_budget(t.state) <= t.focus_time.nanos,
    {
        Timer::new(30)
    }
}

impl<C: Clock> Timer<C> {
    /// The time left never exceeds the session's full length.
    pub open spec fn within_focus(&self) -> bool {
        time_budget(self.state) <= self.focus_time.nanos
    }

    /// Creates an idle timer with `focus_time` remaining, reading `clock`
    /// instead of the operating system's clock.
    pub fn new_with_fake_clock(focus_time: Span, clock: C) -> (t: Self)
        ensures
            t.clock == clock,
            t.focus_time == focus_time,
            t.state == (SessionState::Idle { remaining_time: focus_time }),
            t.within_focus(),
    {
        Timer { clock, state: SessionState::Idle { remaining_time: focus_time }, focus_time }
    }

    /// The time left at the moment `now`: the frozen time while idle, the
    /// time left at the start less the time since the start while running.
    pub fn remaining_at(&self, now: Moment) -> (r: Span)
        ensures
            r.nanos == remaining_at_spec(self.state, now),
    {
        match self.state {
            SessionState::Running { started_at, remaining_time_at_start } => {
                remaining_time_at_start.saturating_sub(now.duration_since(started_at))
            },
            SessionState::Idle { remaining_time } => remaining_time,
        }
    }

    /// Returns the time left in the current session. While running it reads
    /// the clock once; while idle it is the frozen remaining time.
    pub fn remaining(&self) -> (r: Span)
        ensures
            exists|now: Moment| r.nanos == remaining_at_spec(self.state, now),
            self.state is Running ==> exists|now: Moment| self.clock.gives(now) && #[trigger] remaining_at_spec(
                self.state,
                now,
            ) == r.nanos,
            self.state is Idle ==> r == self.state->remaining_time,
            r.nanos <= time_budget(self.state),
    {
        match self.state {
            SessionState::Running { .. } => {
                let now = self.clock.now();
                let r = self.remaining_at(now);
                assert(self.clock.gives(now) && remaining_at_spec(self.state, now) == r.nanos);
                r
            },
            SessionState::Idle { remaining_time } => {
                assert(remaining_time.nanos == remaining_at_spec(self.state, Moment { nanos: 0 }));
                remaining_time
            },
        }
    }

    /// Moves the timer from idle to running at the moment `now`, resuming
    /// from whatever time was remaining. Starting a running timer is a
    /// fault, left out here.
    pub fn start_at(&mut self, now: Moment)
        requires
            old(self).state is Idle,
        ensures
            final(self).state == started(old(self).state->remaining_time, now),
            final(self).state == step(old(self).state, old(self).focus_time, TimerOp::Start, now),
            final(self).focus_time == old(self).focus_time,
            final(self).clock == old(self).clock,
            old(self).within_focus() ==> final(self).within_focus(),
    {
        match self.state {
            SessionState::Idle { remaining_time } => {
                self.state = SessionState::Running { started_at: now, remaining_time_at_start: remaining_time };
            },
            SessionState::Running { .. } => {},
        }
    }

    /// Moves the timer from idle to running, resuming from whatever time was
    /// remaining; the session starts at the clock's reading, which is taken
    /// once. Starting a running timer is a fault, left out here.
    pub fn start(&mut self)
        requires
            old(self).state is Idle,
        ensures
            final(self).state == started(old(self).state->remaining_time, final(self).state->started_at),
            old(self).clock.gives(final(self).state->started_at),
            exists|now: Moment| final(self).state == step(old(self).state, old(self).focus_time, TimerOp::Start, now),
            final(self).focus_time == old(self).focus_time,
            final(self).clock == old(self).clock,
            old(self).within_focus() ==> final(self).within_focus(),
    {
        let now = self.clock.now();
        self.start_at(now);
    }

    /// Moves the timer from running to idle at the moment `now`, freezing the
    /// time left at `now` so [`start`](Self::start) can resume it later.
    /// Pausing an idle timer is a fault, left out here.
    pub fn pause_at(&mut self, now: Moment)
        requires
            old(self).state is Running,
        ensures
            final(self).state == paused(old(self).state, now),
            final(self).state == step(old(self).state, old(self).focus_time, TimerOp::Pause, now),
            final(self).focus_time == old(self).focus_time,
            final(self).clock == old(self).clock,
            old(self).within_focus() ==> final(self).within_focus(),
    {
        let left = self.remaining_at(now);
        self.state = SessionState::Idle { remaining_time: left };
    }

    /// Moves the timer from running to idle, freezing the time left at the
    /// clock's reading, which is taken once. Pausing an idle timer is a
    /// fault, left out here.
    pub fn pause(&mut self)
        requires
            old(self).state is Running,
        ensures
            exists|now: Moment| final(self).state == paused(old(self).state, now),
            exists|now: Moment| old(self).clock.gives(now) && final(self).state == #[trigger] paused(old(self).state, now),
            exists|now: Moment| final(self).state == step(old(self).state, old(self).focus_time, TimerOp::Pause, now),
            final(self).state is Idle,
            final(self).state->remaining_time.nanos <= old(self).state->remaining_time_at_start.nanos,
            final(self).focus_time == old(self).focus_time,
            final(self).clock == old(self).clock,
            old(self).within_focus() ==> final(self).within_focus(),
    {
        let now = self.clock.now();
        self.pause_at(now);
        proof {
            lemma_remaining_within_budget(old(self).state, now);
        }
    }

    /// Moves the timer to idle with the full focus time remaining,
    /// discarding any progress made in the current session.
    pub fn reset(&mut self)
        ensures
            final(self).state == (SessionState::Idle { remaining_time: old(self).focus_time }),
            forall|now: Moment| final(self).state == #[trigger] step(old(self).state, old(self).focus_time, TimerOp::Reset, now),
            final(self).focus_time == old(self).focus_time,
            final(self).clock == old(self).clock,
            final(self).within_focus(),
    {
        self.state = SessionState::Idle { remaining_time: self.focus_time };
    }

    /// Resets the timer to idle with the full focus time once a running
    /// session has no time left at the moment `now`, and leaves it unchanged
    /// otherwise.
    pub fn update_state_at(&mut self, now: Moment)
        ensures
            final(self).state == after_update(old(self).state, old(self).focus_time, now),
            final(self).state == step(old(self).state, old(self).focus_time, TimerOp::UpdateState, now),
            old(self).state is Running && remaining_at_spec(old(self).state, now) == 0 ==> final(self).state == (
            SessionState::Idle { remaining_time: old(self).focus_time }),
            !(old(self).state is Running && remaining_at_spec(old(self).state, now) == 0) ==> final(self).state
                == old(self).state,
            final(self).focus_time == old(self).focus_time,
            final(self).clock == old(self).clock,
            old(self).within_focus() ==> final(self).within_focus(),
    {
        if self.remaining_at(now).is_zero() && self.is_running() {
            self.reset();
        }
    }

    /// Resets the timer to idle once a running session's time has run out,
    /// and leaves it unchanged otherwise. A running timer reads the clock
    /// once and decides by that reading; an idle one reads nothing.
    pub fn update_state(&mut self)
        ensures
            exists|now: Moment| final(self).state == after_update(old(self).state, old(self).focus_time, now),
            exists|now: Moment| final(self).state == step(old(self).state, old(self).focus_time, TimerOp::UpdateState, now),
            old(self).state is Running ==> exists|now: Moment| old(self).clock.gives(now) && final(self).state
                == #[trigger] after_update(old(self).state, old(self).focus_time, now),
            old(self).state is Idle ==> final(self).state == old(self).state,
            final(self).focus_time == old(self).focus_time,
            final(self).clock == old(self).clock,
            old(self).within_focus() ==> final(self).within_focus(),
    {
        match self.state {
            SessionState::Running { .. } => {
                let now = self.clock.now();
                self.update_state_at(now);
                assert(old(self).clock.gives(now));
            },
            SessionState::Idle { .. } => {
                assert(self.state == after_update(self.state, self.focus_time, Moment { nanos: 0 }));
                assert(self.state == step(self.state, self.focus_time, TimerOp::UpdateState, Moment { nanos: 0 }));
            },
        }
    }

    /// Whether a session is counting down.
    pub fn is_running(&self) -> (b: bool)
        ensures
            b == self.state is Running,
    {
        match self.state {
            SessionState::Running { .. } => true,
            SessionState::Idle { .. } => false,
        }
    }

    /// Whether the timer is stopped.
    pub fn is_idle(&self) -> (b: bool)
        ensures
            b == self.state is Idle,
    {
        match self.state {
            SessionState::Running { .. } => false,
            SessionState::Idle { .. } => true,
        }
    }

    /// At the moment `now`, [`start_at`](Self::start_at)s the timer if idle,
    /// or [`pause_at`](Self::pause_at)s it if running.
    pub fn toggle_at(&mut self, now: Moment)
        ensures
            final(self).state == toggled(old(self).state, now),
            final(self).state == step(old(self).state, old(self).focus_time, TimerOp::Toggle, now),
            final(self).focus_time == old(self).focus_time,
            final(self).clock == old(self).clock,
            old(self).within_focus() ==> final(self).within_focus(),
    {
        match self.state {
            SessionState::Running { .. } => self.pause_at(now),
            SessionState::Idle { .. } => self.start_at(now),
        }
    }

    /// [`start`](Self::start)s the timer if idle, or [`pause`](Self::pause)s
    /// it if running, at the clock's reading, which is taken once.
    pub fn toggle(&mut self)
        ensures
            exists|now: Moment| final(self).state == toggled(old(self).state, now),
            exists|now: Moment| old(self).clock.gives(now) && final(self).state == #[trigger] toggled(old(self).state, now),
            exists|now: Moment| final(self).state == step(old(self).state, old(self).focus_time, TimerOp::Toggle, now),
            old(self).state is Idle ==> final(self).state == started(
                old(self).state->remaining_time,
                final(self).state->started_at,
            ),
            old(self).state is Running ==> exists|now: Moment| final(self).state == paused(old(self).state, now),
            final(self).focus_time == old(self).focus_time,
            final(self).clock == old(self).clock,
            old(self).within_focus() ==> final(self).within_focus(),
    {
        let now = self.clock.now();
        self.toggle_at(now);
    }

    /// Applies one frame's key presses at the moment `now`: the toggle key
    /// toggles the timer, then the reset key resets it; the settings key
    /// opens the settings and the quit key asks to close the window.
    pub fn handle_keys_at(&mut self, keys: KeyPresses, show_settings: bool, now: Moment) -> (r: KeyResponse)
        ensures
            final(self).state == after_keys(old(self).state, old(self).focus_time, keys, now),
            keys.reset_timer ==> final(self).state == (SessionState::Idle { remaining_time: old(self).focus_time }),
            !keys.reset_timer && keys.toggle_state ==> final(self).state == toggled(old(self).state, now),
            !keys.reset_timer && !keys.toggle_state ==> final(self).state == old(self).state,
            r.show_settings == (show_settings || keys.open_settings),
            r.close == keys.quit,
            final(self).focus_time == old(self).focus_time,
            final(self).clock == old(self).clock,
            old(self).within_focus() ==> final(self).within_focus(),
    {
        if keys.toggle_state {
            self.toggle_at(now);
        }
        if keys.reset_timer {
            self.reset();
        }
        KeyResponse { show_settings: show_settings || keys.open_settings, close: keys.quit }
    }

    /// Applies one frame's key presses as [`handle_keys_at`](Self::handle_keys_at)
    /// does, at the clock's reading, which is taken once and only where the
    /// toggle key was pressed.
    pub fn handle_keys(&mut self, keys: KeyPresses, show_settings: bool) -> (r: KeyResponse)
        ensures
            exists|now: Moment| final(self).state == after_keys(old(self).state, old(self).focus_time, keys, now),
            keys.toggle_state ==> exists|now: Moment| old(self).clock.gives(now) && final(self).state
                == #[trigger] after_keys(old(self).state, old(self).focus_time, keys, now),
            !keys.toggle_state ==> final(self).state == after_keys(
                old(self).state,
                old(self).focus_time,
                keys,
                Moment { nanos: 0 },
            ),
            r.show_settings == (show_settings || keys.open_settings),
            r.close == keys.quit,
            final(self).focus_time == old(self).focus_time,
            final(self).clock == old(self).clock,
            old(self).within_focus() ==> final(self).within_focus(),
    {
        let now = if keys.toggle_state { self.clock.now() } else { Moment { nanos: 0 } };
        let ghost before = self.state;
        let r = self.handle_keys_at(keys, show_settings, now);
        assert(self.state == after_keys(before, self.focus_time, keys, now));
        r
    }
    /// The timer's part of a frame at the moment `now`: whether to announce
    /// that the focus time is up (no time left and the settings ask for the
    /// announcement), then the end of a running session that has no time left.
    pub fn end_frame_at(&mut self, now: Moment, show_time_is_up_message: bool) -> (announce: bool)
        ensures
            (final(self).state, announce) == frame_end(old(self).state, old(self).focus_time, now, show_time_is_up_message),
            final(self).focus_time == old(self).focus_time,
            final(self).clock == old(self).clock,
            old(self).within_focus() ==> final(self).within_focus(),
    {
        let announce = time_is_up_notice(self.remaining_at(now), show_time_is_up_message);
        self.update_state_at(now);
        announce
    }

    /// The timer's part of a frame as [`end_frame_at`](Self::end_frame_at)
    /// says, at the clock's reading, which is taken once and only while the
    /// timer runs.
    pub fn end_frame(&mut self, show_time_is_up_message: bool) -> (announce: bool)
        ensures
            exists|now: Moment| (final(self).state, announce) == frame_end(
                old(self).state,
                old(self).focus_time,
                now,
                show_time_is_up_message,
            ),
            old(self).state is Running ==> exists|now: Moment| old(self).clock.gives(now) && (final(self).state, announce)
                == #[trigger] frame_end(old(self).state, old(self).focus_time, now, show_time_is_up_message),
            old(self).state is Idle ==> final(self).state == old(self).state,
            old(self).state is Idle ==> announce == (old(self).state->remaining_time.nanos == 0
                && show_time_is_up_message),
            final(self).focus_time == old(self).focus_time,
            final(self).clock == old(self).clock,
            old(self).within_focus() ==> final(self).within_focus(),
    {
        let now = match self.state {
            SessionState::Running { .. } => self.clock.now(),
            SessionState::Idle { .. } => Moment { nanos: 0 },
        };
        let ghost before = self.state;
        let announce = self.end_frame_at(now, show_time_is_up_message);
        assert((self.state, announce) == frame_end(before, self.focus_time, now, show_time_is_up_message));
        announce
    }
}

/// Whether the frame should announce that the focus time is up: the time
/// left is zero and the settings ask for the announcement.
pub fn time_is_up_notice(remaining: Span, show_message: bool) -> (b: bool)
    ensures
        b == (remaining.nanos == 0 && show_message),
{
    remaining.is_zero() && show_message
}

/// How long to wait before the next repaint of a running session: until the
/// clock's next whole second (a full second when the time left is whole)
/// plus one millisecond.
pub fn repaint_delay(remaining: Span) -> (d: Span)
    ensures
        d.nanos == (if remaining.nanos % NANOS_PER_SEC == 0 { NANOS_PER_SEC } else {
            remaining.nanos % NANOS_PER_SEC
        }) + NANOS_PER_MILLI,
{
    let nanos = remaining.subsec_nanos();
    let until_second = if nanos == 0 { Span::from_secs(1) } else { Span::from_nanos(nanos as u128) };
    Span::from_nanos(until_second.nanos + Span::from_millis(1).nanos)
}

} // verus!
