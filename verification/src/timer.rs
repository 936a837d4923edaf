use vstd::prelude::*;

use crate::format::spec_update_line;
use crate::format::update_line;

verus! {

/// Length of one tick of the countdown, in milliseconds.
pub const TICK_MILLIS: u64 = 500;

/// The input byte that toggles the pause state (a newline).
pub const TOGGLE_BYTE: u8 = 10;

/// The whole countdown state: the remaining duration in milliseconds,
/// whether the countdown is paused, and the display mode chosen at startup.
#[derive(Clone, Copy, PartialEq, Eq, Structural, Debug)]
pub struct Timer {
    /// Remaining duration, in milliseconds; the countdown is over at zero.
    pub remaining_millis: u64,
    /// While set, ticks neither print nor decrement.
    pub paused: bool,
    /// When set, updates overwrite one terminal line instead of scrolling.
    pub line_mode: bool,
}

/// Total initial duration in milliseconds for the given hours, minutes and seconds.
pub open spec fn spec_total_millis(hours: u64, minutes: u64, seconds: u64) -> int {
    1000 * (seconds + minutes * 60 + hours * 3600)
}

/// What one tick of the countdown produced.
pub enum TickOutcome {
    /// The remaining duration was already zero: the countdown is over and the
    /// caller should emit the "done" notice and stop ticking.
    Finished,
    /// A whole-second boundary was crossed: the caller should print this line.
    Update(String),
    /// Nothing to print this tick (paused, or between whole seconds).
    Quiet,
}

/// The state after one tick: unchanged when the countdown is over or paused,
/// otherwise the remaining duration drops by one tick, saturating at zero.
pub open spec fn spec_tick(t: Timer) -> Timer {
    if t.remaining_millis == 0 || t.paused {
        t
    } else if t.remaining_millis >= TICK_MILLIS {
        Timer {
            remaining_millis: (t.remaining_millis - TICK_MILLIS) as u64,
            paused: t.paused,
            line_mode: t.line_mode,
        }
    } else {
        Timer { remaining_millis: 0, paused: t.paused, line_mode: t.line_mode }
    }
}

/// What one tick prints: an update line exactly when the countdown is running
/// and the remaining duration sits on a whole-second boundary.
pub open spec fn spec_tick_output(t: Timer) -> Option<Seq<char>> {
    if t.remaining_millis != 0 && !t.paused && t.remaining_millis % 1000 == 0 {
        Some(spec_update_line((t.remaining_millis / 1000) as u64, t.line_mode))
    } else {
        None
    }
}

/// The state after one pause toggle: the flag flips, nothing else moves.
pub open spec fn spec_toggle(t: Timer) -> Timer {
    Timer { remaining_millis: t.remaining_millis, paused: !t.paused, line_mode: t.line_mode }
}

impl Timer {
    /// Create a fresh, unpaused timer with the given initial duration.
    pub fn new(hours: u64, minutes: u64, seconds: u64, line_mode: bool) -> (t: Timer)
        requires
            spec_total_millis(hours, minutes, seconds) <= u64::MAX,
        ensures
            t.remaining_millis == spec_total_millis(hours, minutes, seconds),
            !t.paused,
            t.line_mode == line_mode,
    {
        let secs = seconds + minutes * 60 + hours * 3600;
        Timer { remaining_millis: secs * 1000, paused: false, line_mode }
    }

    /// Flip the pause flag.
    pub fn toggle(&mut self)
        ensures
            *final(self) == spec_toggle(*old(self)),
    {
        self.paused = !self.paused;
    }

    /// Advance the countdown by one tick: report the terminal state, print an
    /// update on whole-second boundaries, and decrement unless paused.
    pub fn tick(&mut self) -> (r: TickOutcome)
        ensures
            *final(self) == spec_tick(*old(self)),
            (r is Finished) <==> old(self).remaining_millis == 0,
            (spec_tick_output(*old(self)) matches Some(line) ==>
                (r matches TickOutcome::Update(s) && s@ == line)),
            spec_tick_output(*old(self)) is None ==> !(r is Update),
    {
        if self.remaining_millis == 0 {
            return TickOutcome::Finished;
        }
        if self.paused {
            return TickOutcome::Quiet;
        }
        let out = if self.remaining_millis % 1000 == 0 {
            Some(update_line(self.remaining_millis / 1000, self.line_mode))
        } else {
            None
        };
        if self.remaining_millis >= TICK_MILLIS {
            self.remaining_millis = self.remaining_millis - TICK_MILLIS;
        } else {
            self.remaining_millis = 0;
        }
        match out {
            Some(s) => TickOutcome::Update(s),
            None => TickOutcome::Quiet,
        }
    }

    /// Apply one attempt by the input listener: a toggle byte flips the pause
    /// flag; a timeout or any other byte leaves the state alone.
    pub fn apply_input(&mut self, byte: Option<u8>)
        ensures
            byte == Some(TOGGLE_BYTE) ==> *final(self) == spec_toggle(*old(self)),
            byte != Some(TOGGLE_BYTE) ==> *final(self) == *old(self),
    {
        match byte {
            Some(b) => {
                if b == TOGGLE_BYTE {
                    self.toggle();
                }
            },
            None => {},
        }
    }

    /// Whether the countdown has reached its terminal state.
    pub fn done(&self) -> (r: bool)
        ensures
            r == (self.remaining_millis == 0),
    {
        self.remaining_millis == 0
    }
}

/// The state after `n` ticks with no input in between.
pub open spec fn spec_ticks(t: Timer, n: nat) -> Timer
    decreases n,
{
    if n == 0 {
        t
    } else {
        spec_tick(spec_ticks(t, (n - 1) as nat))
    }
}

/// The state after `n` pause toggles with nothing in between.
pub open spec fn spec_toggles(t: Timer, n: nat) -> Timer
    decreases n,
{
    if n == 0 {
        t
    } else {
        spec_toggle(spec_toggles(t, (n - 1) as nat))
    }
}

/// While the timer is not paused, `n` ticks subtract exactly `n` tick
/// intervals from the remaining duration, saturating at zero; the pause flag
/// and the display mode never move.
pub proof fn lemma_ticks_remaining(t: Timer, n: nat)
    requires
        !t.paused,
    ensures
        spec_ticks(t, n).remaining_millis == (if t.remaining_millis - n * TICK_MILLIS >= 0 {
            t.remaining_millis - n * TICK_MILLIS
        } else {
            0int
        }),
        spec_ticks(t, n).paused == t.paused,
        spec_ticks(t, n).line_mode == t.line_mode,
    decreases n,
{
    if n > 0 {
        lemma_ticks_remaining(t, (n - 1) as nat);
        assert(n * TICK_MILLIS == (n - 1) * TICK_MILLIS + TICK_MILLIS) by (nonlinear_arith);
    }
}

/// With no toggles, the remaining duration never increases from tick to tick.
pub proof fn lemma_ticks_monotone(t: Timer, m: nat, n: nat)
    requires
        !t.paused,
        m <= n,
    ensures
        spec_ticks(t, n).remaining_millis <= spec_ticks(t, m).remaining_millis,
{
    lemma_ticks_remaining(t, m);
    lemma_ticks_remaining(t, n);
    assert(m * TICK_MILLIS <= n * TICK_MILLIS) by (nonlinear_arith)
        requires m <= n;
}

/// With no toggles, the countdown reaches exactly zero once enough ticks
/// have passed.
pub proof fn lemma_ticks_reach_zero(t: Timer, n: nat)
    requires
        !t.paused,
        n * TICK_MILLIS >= t.remaining_millis,
    ensures
        spec_ticks(t, n).remaining_millis == 0,
{
    lemma_ticks_remaining(t, n);
}

/// The remaining duration never goes negative, however many ticks pass: the
/// per-tick subtraction saturates at zero.
pub proof fn lemma_ticks_never_negative(t: Timer, n: nat)
    ensures
        spec_ticks(t, n).remaining_millis >= 0,
{
}

/// While the pause flag is set, any number of ticks leaves the whole state,
/// the remaining duration included, exactly as it was.
pub proof fn lemma_paused_ticks_unchanged(t: Timer, n: nat)
    requires
        t.paused,
    ensures
        spec_ticks(t, n) == t,
    decreases n,
{
    if n > 0 {
        lemma_paused_ticks_unchanged(t, (n - 1) as nat);
    }
}

/// Toggling an even number of times returns the pause flag to its original
/// value; toggling an odd number of times flips it. Nothing else moves.
pub proof fn lemma_toggle_parity(t: Timer, n: nat)
    ensures
        n % 2 == 0 ==> spec_toggles(t, n) == t,
        n % 2 == 1 ==> spec_toggles(t, n) == spec_toggle(t),
    decreases n,
{
    if n > 0 {
        lemma_toggle_parity(t, (n - 1) as nat);
    }
}

/// A running timer with one tick interval or less on the clock is out of time
/// after a single tick.
pub proof fn lemma_done_within_one_tick(t: Timer)
    requires
        !t.paused,
        0 < t.remaining_millis <= TICK_MILLIS,
    ensures
        spec_tick(t).remaining_millis == 0,
{
}

} // verus!
