//! Telling single clicks from double clicks on one element.
//!
//! A double click fires its handler at once and cancels a single click that is
//! still waiting. A single click waits `delay_ms` before it fires, so that a
//! second click can turn it into a double click. For a while after each double
//! click, further single clicks are swallowed: the third click of a quick burst,
//! or the bounce of a view that a double click just switched, must not count as
//! a fresh single click.
//!
//! The timer and the handlers live with the caller: [`ClickTracker`] decides,
//! the caller performs the [`ClickAction`] it returns.

use vstd::prelude::*;

verus! {

/// How long single clicks are swallowed after a double click, in nanoseconds.
pub const DOUBLE_CLICK_COOLDOWN_NS: u64 = 500_000_000;

/// The click count of the click that completes a double click.
pub const DOUBLE_CLICK_COUNT: usize = 2;

/// What the caller must do in answer to an event.
#[derive(Clone, Copy, Debug, PartialEq, Eq, Structural)]
pub enum ClickAction {
    /// Drop the pending single click, if any, and run the double-click handler now.
    FireDouble,
    /// Drop the pending single click, if any, and arm a new one that fires
    /// after `delay_ms` milliseconds.
    ScheduleSingle { delay_ms: u64 },
    /// Run the single-click handler now; nothing is pending any more.
    FireSingle,
    /// Do nothing.
    Ignore,
}

/// Whether a click with this count completes a double click.
pub open spec fn spec_is_double_click(click_count: usize) -> bool {
    click_count == DOUBLE_CLICK_COUNT
}

/// Whether a click with this count completes a double click: the filter of a
/// plain double-click listener.
pub fn is_double_click(click_count: usize) -> (r: bool)
    ensures
        r == spec_is_double_click(click_count),
        r == (click_count == 2),
{
    click_count == DOUBLE_CLICK_COUNT
}

/// Time from `then` to `now` on a monotonic clock, in nanoseconds, and zero when
/// `now` is not after `then`.
pub open spec fn elapsed_ns(then: u64, now: u64) -> int {
    if then <= now {
        now - then
    } else {
        0
    }
}

/// The single-click state of one element.
#[derive(Clone, Copy, Debug, PartialEq, Eq, Structural)]
pub struct ClickTracker {
    /// How long a single click waits before it fires, in milliseconds.
    pub delay_ms: u64,
    /// Whether a single click is armed and has not fired yet.
    pub pending_single: bool,
    /// When the last double click happened, in nanoseconds on the caller's
    /// monotonic clock; `None` before the first one.
    pub last_double_ns: Option<u64>,
}

impl ClickTracker {
    /// Whether a single click at `now_ns` falls into the cooldown of the last
    /// double click.
    pub open spec fn in_cooldown(self, now_ns: u64) -> bool {
        match self.last_double_ns {
            Some(t) => elapsed_ns(t, now_ns) < DOUBLE_CLICK_COOLDOWN_NS,
            None => false,
        }
    }

    /// The state after a click, and what the caller must do.
    pub open spec fn after_click(self, click_count: usize, now_ns: u64) -> (ClickTracker, ClickAction) {
        if spec_is_double_click(click_count) {
            (
                ClickTracker { pending_single: false, last_double_ns: Some(now_ns), ..self },
                ClickAction::FireDouble,
            )
        } else if self.in_cooldown(now_ns) {
            (self, ClickAction::Ignore)
        } else {
            (
                ClickTracker { pending_single: true, ..self },
                ClickAction::ScheduleSingle { delay_ms: self.delay_ms },
            )
        }
    }

    /// The state after the armed single click's delay ran out, and what the
    /// caller must do.
    pub open spec fn after_delay(self) -> (ClickTracker, ClickAction) {
        if self.pending_single {
            (ClickTracker { pending_single: false, ..self }, ClickAction::FireSingle)
        } else {
            (self, ClickAction::Ignore)
        }
    }

    /// A tracker for an element whose single clicks wait `delay_ms`.
    pub fn new(delay_ms: u64) -> (t: ClickTracker)
        ensures
            t == (ClickTracker { delay_ms, pending_single: false, last_double_ns: None }),
    {
        ClickTracker { delay_ms, pending_single: false, last_double_ns: None }
    }

    /// Handles a click with the given click count at `now_ns`.
    pub fn on_click(&mut self, click_count: usize, now_ns: u64) -> (action: ClickAction)
        ensures
            (*final(self), action) == old(self).after_click(click_count, now_ns),
    {
        if is_double_click(click_count) {
            self.pending_single = false;
            self.last_double_ns = Some(now_ns);
            ClickAction::FireDouble
        } else {
            let in_cooldown = match self.last_double_ns {
                Some(t) => {
                    let elapsed = if t <= now_ns {
                        now_ns - t
                    } else {
                        0
                    };
                    elapsed < DOUBLE_CLICK_COOLDOWN_NS
                },
                None => false,
            };
            if in_cooldown {
                ClickAction::Ignore
            } else {
                self.pending_single = true;
                ClickAction::ScheduleSingle { delay_ms: self.delay_ms }
            }
        }
    }

    /// Handles the end of the delay of the armed single click.
    pub fn on_delay_elapsed(&mut self) -> (action: ClickAction)
        ensures
            (*final(self), action) == old(self).after_delay(),
    {
        if self.pending_single {
            self.pending_single = false;
            ClickAction::FireSingle
        } else {
            ClickAction::Ignore
        }
    }
}

/// A double click fires its handler at once, and the single click that was
/// waiting when it came can no longer fire.
pub proof fn law_double_click_cancels_pending_single(t: ClickTracker, click_count: usize, now_ns: u64)
    requires
        spec_is_double_click(click_count),
    ensures
        t.after_click(click_count, now_ns).1 == ClickAction::FireDouble,
        t.after_click(click_count, now_ns).0.after_delay().1 == ClickAction::Ignore,
{
}

/// A click that is not a double click, within the cooldown after a double
/// click, is swallowed: nothing fires, nothing is armed, nothing changes.
pub proof fn law_cooldown_swallows_single_click(
    t: ClickTracker,
    double_ns: u64,
    click_count: usize,
    now_ns: u64,
)
    requires
        !spec_is_double_click(click_count),
        double_ns <= now_ns,
        now_ns - double_ns < DOUBLE_CLICK_COOLDOWN_NS,
    ensures
        ({
            let after_double = t.after_click(DOUBLE_CLICK_COUNT, double_ns).0;
            after_double.after_click(click_count, now_ns) == (after_double, ClickAction::Ignore)
        }),
{
}

/// Once the cooldown of the last double click has run out, a single click is
/// armed again.
pub proof fn law_cooldown_ends(t: ClickTracker, double_ns: u64, click_count: usize, now_ns: u64)
    requires
        !spec_is_double_click(click_count),
        double_ns <= now_ns,
        now_ns - double_ns >= DOUBLE_CLICK_COOLDOWN_NS,
    ensures
        t.after_click(DOUBLE_CLICK_COUNT, double_ns).0.after_click(click_count, now_ns).1
            == (ClickAction::ScheduleSingle { delay_ms: t.delay_ms }),
{
}

/// A single click outside any cooldown is armed with the tracker's delay, fires
/// exactly once when the delay runs out, and is not pending afterwards.
pub proof fn law_single_click_fires_once(t: ClickTracker, click_count: usize, now_ns: u64)
    requires
        !spec_is_double_click(click_count),
        !t.in_cooldown(now_ns),
    ensures
        ({
            let (armed, action) = t.after_click(click_count, now_ns);
            let (fired, first) = armed.after_delay();
            &&& action == (ClickAction::ScheduleSingle { delay_ms: t.delay_ms })
            &&& armed.pending_single
            &&& first == ClickAction::FireSingle
            &&& !fired.pending_single
            &&& fired.after_delay() == (fired, ClickAction::Ignore)
        }),
{
}

/// No event changes the delay a tracker was made with, and only a double click
/// changes the time of the last double click.
pub proof fn law_steps_keep_configuration(t: ClickTracker, click_count: usize, now_ns: u64)
    ensures
        t.after_click(click_count, now_ns).0.delay_ms == t.delay_ms,
        t.after_delay().0.delay_ms == t.delay_ms,
        t.after_delay().0.last_double_ns == t.last_double_ns,
        !spec_is_double_click(click_count) ==> t.after_click(click_count, now_ns).0.last_double_ns
            == t.last_double_ns,
{
}

/// A click completes a double click exactly when its click count is two: the
/// third, fourth and later clicks of a burst are not double clicks.
pub proof fn law_only_the_second_click_is_a_double_click(click_count: usize)
    ensures
        spec_is_double_click(click_count) <==> click_count == 2,
{
}

/// A click whose count is not two never fires the double-click handler, and
/// within half a second after the last double click it changes nothing and does
/// nothing.
pub proof fn law_other_counts_never_fire_double(t: ClickTracker, click_count: usize, now_ns: u64)
    requires
        click_count != 2,
    ensures
        t.after_click(click_count, now_ns).1 != ClickAction::FireDouble,
        t.after_click(click_count, now_ns).0.last_double_ns == t.last_double_ns,
        (t.last_double_ns matches Some(d) && d <= now_ns && now_ns - d < 500_000_000)
            ==> t.after_click(click_count, now_ns) == (t, ClickAction::Ignore),
{
}

/// A click whose count is two always fires the double-click handler, cancels
/// the pending single click and restarts the cooldown at its own time.
pub proof fn law_second_click_fires_double(t: ClickTracker, now_ns: u64)
    ensures
        t.after_click(2, now_ns) == (
            ClickTracker { delay_ms: t.delay_ms, pending_single: false, last_double_ns: Some(now_ns) },
            ClickAction::FireDouble,
        ),
{
}

} // verus!
