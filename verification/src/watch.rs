//! The debounce that decides when a change to Omarchy's `colors.toml` has
//! settled, so the "Omarchy" theme is rebuilt once per burst of file events.
use vstd::prelude::*;
use crate::time::{saturating_diff, Moment, Span};

verus! {

/// How long, in nanoseconds, the file must stay quiet before a reload: a
/// theme switch touches the file several times in quick succession.
pub const DEBOUNCE_NANOS: u128 = 150_000_000;

/// One step of the debounce: from what was pending, whether file events
/// arrived since the last step, and the present moment, to what is pending
/// next and whether to reload now. An event (re)starts the quiet period.
pub open spec fn debounce_step(pending: Option<Moment>, saw_event: bool, now: Moment) -> (Option<Moment>, bool) {
    let since = if saw_event { Some(now) } else { pending };
    match since {
        Some(started) => if saturating_diff(now.nanos as int, started.nanos as int) >= DEBOUNCE_NANOS {
            (None, true)
        } else {
            (since, false)
        },
        None => (None, false),
    }
}

/// The state of the debounce: when the current burst of events began to
/// settle, if one is settling.
pub struct Debounce {
    pub pending: Option<Moment>,
}

impl Debounce {
    /// A debounce with nothing pending.
    pub fn new() -> (d: Debounce)
        ensures
            d.pending is None,
    {
        Debounce { pending: None }
    }

    /// True when a burst of events has settled and the theme should be
    /// rebuilt. `saw_event` says whether file events arrived since the last
    /// call, `now` is the present moment.
    pub fn should_reload(&mut self, saw_event: bool, now: Moment) -> (reload: bool)
        ensures
            (final(self).pending, reload) == debounce_step(old(self).pending, saw_event, now),
            saw_event ==> final(self).pending == Some(now) && !reload,
            !saw_event && !reload ==> final(self).pending == old(self).pending,
            reload ==> final(self).pending is None,
    {
        if saw_event {
            self.pending = Some(now);
        }
        match self.pending {
            Some(started) => {
                if now.duration_since(started).nanos >= DEBOUNCE_NANOS {
                    self.pending = None;
                    true
                } else {
                    false
                }
            },
            None => false,
        }
    }

    /// True while a debounce window is running: a change was seen but
    /// [`should_reload`](Self::should_reload) has not yet returned `true` for it.
    pub fn is_pending(&self) -> (b: bool)
        ensures
            b == self.pending is Some,
    {
        self.pending.is_some()
    }

    /// The quiet time, as a span, that must pass before a reload.
    pub fn window() -> (s: Span)
        ensures
            s.nanos == DEBOUNCE_NANOS,
    {
        Span::from_nanos(DEBOUNCE_NANOS)
    }
}

/// The quiet checks that follow a burst: the pending start and whether any
/// of the checks `moments`, made in order without new events, reloaded.
pub open spec fn quiet_checks(pending: Option<Moment>, moments: Seq<Moment>) -> (Option<Moment>, bool)
    decreases moments.len(),
{
    if moments.len() == 0 {
        (pending, false)
    } else {
        let (before, reloaded) = quiet_checks(pending, moments.drop_last());
        let (after, now_reloads) = debounce_step(before, false, moments.last());
        (after, reloaded || now_reloads)
    }
}

/// A check without a new event that comes too soon keeps the moment the
/// burst began to settle: checking does not restart the quiet period.
pub proof fn lemma_early_check_keeps_start(started: Moment, now: Moment)
    requires
        saturating_diff(now.nanos as int, started.nanos as int) < DEBOUNCE_NANOS,
    ensures
        debounce_step(Some(started), false, now) == (Some(started), false),
{
}

/// However many checks come less than the window after the last event,
/// none reloads and the start stays; the first check a whole window or
/// more after the last event then reloads.
pub proof fn lemma_reload_at_first_check_after_window(started: Moment, early: Seq<Moment>, late: Moment)
    requires
        forall|i: int| 0 <= i < early.len() ==> saturating_diff(#[trigger] early[i].nanos as int, started.nanos as int)
            < DEBOUNCE_NANOS,
        late.nanos >= started.nanos + DEBOUNCE_NANOS,
    ensures
        quiet_checks(Some(started), early) == (Some(started), false),
        debounce_step(quiet_checks(Some(started), early).0, false, late) == (None::<Moment>, true),
    decreases early.len(),
{
    if early.len() > 0 {
        lemma_reload_at_first_check_after_window(started, early.drop_last(), late);
        assert(early.drop_last().len() < early.len());
        lemma_early_check_keeps_start(started, early.last());
    }
}

/// A file event never triggers a reload at the moment it arrives: the
/// quiet period starts then.
pub proof fn lemma_event_defers_reload(pending: Option<Moment>, now: Moment)
    ensures
        debounce_step(pending, true, now) == (Some(now), false),
{
}

/// A reload empties the debounce, so the same burst gives no second reload:
/// a step without new events after a reload reloads nothing.
pub proof fn lemma_reload_once_per_burst(pending: Option<Moment>, saw_event: bool, now: Moment, later: Moment)
    requires
        debounce_step(pending, saw_event, now).1,
    ensures
        debounce_step(pending, saw_event, now).0 is None,
        debounce_step(debounce_step(pending, saw_event, now).0, false, later) == (None::<Moment>, false),
{
}

/// Once a burst has been quiet for the whole window, the next step without
/// new events reloads; before that it waits.
pub proof fn lemma_reload_after_quiet_window(started: Moment, now: Moment)
    requires
        started.nanos <= now.nanos,
    ensures
        debounce_step(Some(started), false, now).1 <==> now.nanos - started.nanos >= DEBOUNCE_NANOS,
{
}

/// With nothing pending and no events, nothing happens.
pub proof fn lemma_quiet_stays_quiet(now: Moment)
    ensures
        debounce_step(None, false, now) == (None::<Moment>, false),
{
}

} // verus!
