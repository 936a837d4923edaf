use vstd::prelude::*;

use crate::format::done_line;
use crate::format::spec_done_line;
use crate::timer::spec_tick;
use crate::timer::spec_tick_output;
use crate::timer::spec_toggle;
use crate::timer::TickOutcome;
use crate::timer::Timer;

verus! {

/// A whole run of the countdown, tick by tick. `toggles[i]` says whether the
/// input listener delivered a pause toggle just before tick `i`. The result is
/// the sequence of printed lines, the final state, and whether the countdown
/// reached its terminal state (it does not when the toggles run out first).
/// Once the remaining duration is seen at zero, the run emits the single
/// "done" notice and stops: later entries of `toggles` are never consulted.
pub open spec fn spec_run(t: Timer, toggles: Seq<bool>) -> (Seq<Seq<char>>, Timer, bool)
    decreases toggles.len(),
{
    if toggles.len() == 0 {
        (Seq::<Seq<char>>::empty(), t, false)
    } else {
        let t1 = if toggles[0] {
            spec_toggle(t)
        } else {
            t
        };
        if t1.remaining_millis == 0 {
            (seq![spec_done_line(t1.line_mode)], t1, true)
        } else {
            let head = match spec_tick_output(t1) {
                Some(line) => seq![line],
                None => Seq::<Seq<char>>::empty(),
            };
            let rest = spec_run(spec_tick(t1), toggles.drop_first());
            (head + rest.0, rest.1, rest.2)
        }
    }
}

/// Drive a whole countdown deterministically: before tick `i` the pause flag
/// is toggled when `toggles[i]` is set, then the timer ticks; the run stops
/// with the "done" notice as soon as the duration is seen at zero, or when the
/// toggle schedule runs out. Returns the printed lines, the final state, and
/// whether the countdown finished.
pub fn simulate(start: Timer, toggles: &Vec<bool>) -> (res: (Vec<String>, Timer, bool))
    ensures
        res.0@.map_values(|s: String| s@) == spec_run(start, toggles@).0,
        res.1 == spec_run(start, toggles@).1,
        res.2 == spec_run(start, toggles@).2,
{
    let mut timer = start;
    let mut out: Vec<String> = Vec::new();
    let mut i: usize = 0;
    proof {
        assert(toggles@.skip(0) =~= toggles@);
        assert(out@.map_values(|s: String| s@) + spec_run(timer, toggles@).0 =~= spec_run(
            start,
            toggles@,
        ).0);
    }
    while i < toggles.len()
        invariant
            i <= toggles.len(),
            spec_run(start, toggles@).0 == out@.map_values(|s: String| s@) + spec_run(
                timer,
                toggles@.skip(i as int),
            ).0,
            spec_run(start, toggles@).1 == spec_run(timer, toggles@.skip(i as int)).1,
            spec_run(start, toggles@).2 == spec_run(timer, toggles@.skip(i as int)).2,
        decreases toggles.len() - i,
    {
        let ghost pre_lines = out@.map_values(|s: String| s@);
        let ghost t0 = timer;
        let ghost rest = toggles@.skip(i as int);
        proof {
            assert(rest.len() > 0);
            assert(rest[0] == toggles@[i as int]);
            assert(rest.drop_first() =~= toggles@.skip(i as int + 1));
        }
        if toggles[i] {
            timer.toggle();
        }
        let ghost t1 = timer;
        proof {
            assert(t1 == (if rest[0] {
                spec_toggle(t0)
            } else {
                t0
            }));
        }
        let r = timer.tick();
        match r {
            TickOutcome::Finished => {
                let line = done_line(timer.line_mode);
                out.push(line);
                proof {
                    assert(spec_run(t0, rest).0 =~= seq![spec_done_line(t1.line_mode)]);
                    assert(out@.map_values(|s: String| s@) =~= pre_lines + spec_run(t0, rest).0);
                    assert(spec_run(t0, rest).1 == t1);
                    assert(spec_run(t0, rest).2 == true);
                }
                return (out, timer, true);
            },
            TickOutcome::Update(s) => {
                proof {
                    assert(spec_tick_output(t1) is Some);
                }
                let ghost line = spec_tick_output(t1).unwrap();
                out.push(s);
                proof {
                    assert(spec_run(t0, rest).0 =~= seq![line] + spec_run(
                        timer,
                        rest.drop_first(),
                    ).0);
                    assert(out@.map_values(|s2: String| s2@) =~= pre_lines.push(line));
                    assert(out@.map_values(|s2: String| s2@) + spec_run(
                        timer,
                        toggles@.skip(i as int + 1),
                    ).0 =~= pre_lines + spec_run(t0, rest).0);
                }
            },
            TickOutcome::Quiet => {
                proof {
                    assert(spec_tick_output(t1) is None);
                    assert(spec_run(t0, rest).0 =~= spec_run(timer, rest.drop_first()).0);
                    assert(out@.map_values(|s2: String| s2@) + spec_run(
                        timer,
                        toggles@.skip(i as int + 1),
                    ).0 =~= pre_lines + spec_run(t0, rest).0);
                }
            },
        }
        i = i + 1;
    }
    proof {
        assert(spec_run(timer, toggles@.skip(i as int)).0 =~= Seq::<Seq<char>>::empty());
        assert(spec_run(start, toggles@).0 =~= out@.map_values(|s: String| s@));
    }
    (out, timer, false)
}

/// A running timer holding one tick interval or less reaches the terminal
/// state within one tick, and the whole run prints exactly one line: the
/// single "done" notice.
pub proof fn lemma_short_timer_single_done(t: Timer, toggles: Seq<bool>)
    requires
        !t.paused,
        0 < t.remaining_millis <= crate::timer::TICK_MILLIS,
        toggles.len() >= 2,
        forall|i: int| 0 <= i < toggles.len() ==> !toggles[i],
    ensures
        spec_run(t, toggles).2 == true,
        spec_run(t, toggles).0 == seq![spec_done_line(t.line_mode)],
{
    let t2 = spec_tick(t);
    crate::timer::lemma_done_within_one_tick(t);
    assert(spec_tick_output(t) is None);
    assert(!toggles[0]);
    assert(!toggles.drop_first()[0]);
    assert(spec_run(t2, toggles.drop_first()).0 == seq![spec_done_line(t2.line_mode)]);
    assert(spec_run(t, toggles).0 =~= seq![spec_done_line(t.line_mode)]);
}

} // verus!
