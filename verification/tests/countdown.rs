use countdown::format::done_line;
use countdown::format::update_line;
use countdown::run::simulate;
use countdown::timer::TickOutcome;
use countdown::timer::Timer;
use countdown::timer::TICK_MILLIS;
use countdown::timer::TOGGLE_BYTE;

#[test]
fn total_duration_sums_components() {
    let t = Timer::new(1, 2, 3, false);
    assert_eq!(t.remaining_millis, 1000 * (3 + 60 * 2 + 3600 * 1));
    assert!(!t.paused);
    let t = Timer::new(0, 0, 0, true);
    assert_eq!(t.remaining_millis, 0);
    assert!(t.done());
    let t = Timer::new(0, 0, 1, false);
    assert!(!t.done());
}

#[test]
fn toggle_parity() {
    let mut t = Timer::new(0, 0, 5, false);
    assert!(!t.paused);
    t.toggle();
    assert!(t.paused);
    t.toggle();
    assert!(!t.paused);
    t.toggle();
    t.toggle();
    t.toggle();
    assert!(t.paused);
}

#[test]
fn toggle_byte_flips_other_input_ignored() {
    let mut t = Timer::new(0, 0, 5, false);
    t.apply_input(None);
    assert!(!t.paused);
    t.apply_input(Some(b'x'));
    assert!(!t.paused);
    t.apply_input(Some(TOGGLE_BYTE));
    assert!(t.paused);
    t.apply_input(Some(b'\n'));
    assert!(!t.paused);
}

#[test]
fn paused_ticks_leave_duration_unchanged() {
    let mut t = Timer::new(0, 0, 5, false);
    t.toggle();
    for _ in 0..20 {
        let r = t.tick();
        assert!(matches!(r, TickOutcome::Quiet));
        assert_eq!(t.remaining_millis, 5000);
    }
}

#[test]
fn tick_saturates_at_zero() {
    let mut t = Timer {
        remaining_millis: 300,
        paused: false,
        line_mode: false,
    };
    t.tick();
    assert_eq!(t.remaining_millis, 0);
    let r = t.tick();
    assert!(matches!(r, TickOutcome::Finished));
    assert_eq!(t.remaining_millis, 0);
}

#[test]
fn countdown_decreases_to_exactly_zero() {
    let mut t = Timer::new(0, 0, 2, false);
    let mut seen = vec![t.remaining_millis];
    loop {
        match t.tick() {
            TickOutcome::Finished => break,
            _ => seen.push(t.remaining_millis),
        }
    }
    for w in seen.windows(2) {
        assert!(w[1] < w[0]);
    }
    assert_eq!(*seen.last().unwrap(), 0);
    assert_eq!(seen.len() as u64, 2000 / TICK_MILLIS + 1);
}

#[test]
fn update_line_plain_mode() {
    assert_eq!(update_line(3, false), "3s  \n");
    assert_eq!(update_line(62, false), "1m 2s  \n");
    assert_eq!(update_line(3723, false), "1h 2m 3s  \n");
}

#[test]
fn update_line_line_mode() {
    assert_eq!(update_line(3723, true), "\r1h 2m 3s   ");
    assert_eq!(update_line(1, true), "\r1s   ");
}

#[test]
fn done_line_both_modes() {
    assert_eq!(done_line(false), "done\n");
    assert_eq!(done_line(true), "\rdone\n");
}

#[test]
fn one_tick_or_less_finishes_with_one_done_notice() {
    let t = Timer {
        remaining_millis: TICK_MILLIS,
        paused: false,
        line_mode: false,
    };
    let (lines, end, finished) = simulate(t, &vec![false; 5]);
    assert!(finished);
    assert_eq!(end.remaining_millis, 0);
    assert_eq!(lines, vec!["done\n"]);
}

#[test]
fn zero_duration_finishes_immediately() {
    let t = Timer::new(0, 0, 0, false);
    let (lines, _, finished) = simulate(t, &vec![false]);
    assert!(finished);
    assert_eq!(lines, vec!["done\n"]);
}

#[test]
fn three_seconds_no_toggles() {
    let t = Timer::new(0, 0, 3, false);
    let (lines, end, finished) = simulate(t, &vec![false; 7]);
    assert!(finished);
    assert_eq!(end.remaining_millis, 0);
    assert_eq!(lines, vec!["3s  \n", "2s  \n", "1s  \n", "done\n"]);
}

#[test]
fn five_seconds_with_pause_and_resume() {
    // A toggle right after the first update pauses the countdown for three
    // ticks; a second toggle resumes it. The run finishes with the same lines
    // as an uninterrupted one, and the pause adds exactly its own ticks: the
    // countdown itself still consumes ticks worth exactly five seconds.
    let t = Timer::new(0, 0, 5, false);
    let mut toggles = vec![false; 14];
    toggles[1] = true;
    toggles[4] = true;
    let (lines, end, finished) = simulate(t, &toggles);
    assert!(finished);
    assert_eq!(end.remaining_millis, 0);
    assert_eq!(
        lines,
        vec!["5s  \n", "4s  \n", "3s  \n", "2s  \n", "1s  \n", "done\n"]
    );

    let plain = Timer::new(0, 0, 5, false);
    let (plain_lines, _, plain_finished) = simulate(plain, &vec![false; 11]);
    assert!(plain_finished);
    assert_eq!(plain_lines, lines);
    // 11 ticks finish the plain run; the paused run took 3 ticks more,
    // one for each tick spent paused.
    assert_eq!(toggles.len(), 11 + 3);
}

#[test]
fn run_stops_when_toggles_run_out_while_paused() {
    let t = Timer::new(0, 0, 5, false);
    let mut toggles = vec![false; 6];
    toggles[0] = true;
    let (lines, end, finished) = simulate(t, &toggles);
    assert!(!finished);
    assert!(lines.is_empty());
    assert_eq!(end.remaining_millis, 5000);
    assert!(end.paused);
}
