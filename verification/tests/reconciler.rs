use mechalicious_core::rate::{Phase, Rate};
use mechalicious_core::reading::{Kind, Mode, Reading};
use mechalicious_core::reconciler::Reconciler;

fn sixty_hz(lag_budget: u32) -> Reconciler {
    Reconciler::new(Rate::per_second(60, 1).unwrap(), lag_budget).unwrap()
}

fn boundary() -> Reading {
    Reading::Frame { phase: Phase { num: 0, den: 1_000_000_000 } }
}

fn tally(events: &Vec<Reading>, kind: Kind) -> usize {
    events.iter().filter(|e| e.kind() == kind).count()
}

#[test]
fn rate_accepts_only_terms_from_one_to_a_billion() {
    assert_eq!(Rate::per_second(60, 1), Some(Rate { numerator: 60, denominator: 1 }));
    assert_eq!(
        Rate::per_second(1_000_000_000, 1_000_000_000),
        Some(Rate { numerator: 1_000_000_000, denominator: 1_000_000_000 })
    );
    assert_eq!(Rate::per_second(0, 1), None);
    assert_eq!(Rate::per_second(1, 0), None);
    assert_eq!(Rate::per_second(1_000_000_001, 1), None);
    assert_eq!(Rate::per_second(1, 1_000_000_001), None);
}

#[test]
fn rate_period_and_covering_nanoseconds() {
    let rate = Rate::per_second(60, 1).unwrap();
    assert_eq!(rate.period(), 1_000_000_000);
    assert_eq!(rate.nanos_to_cover(1_000_000_000), 16_666_667);
    assert_eq!(rate.nanos_to_cover(60), 1);
    assert_eq!(rate.nanos_to_cover(61), 2);
    assert_eq!(rate.nanos_to_cover(0), 0);
    let slow = Rate::per_second(1, 3).unwrap();
    assert_eq!(slow.period(), 3_000_000_000);
}

#[test]
fn phase_is_a_fraction_below_one() {
    assert_eq!(Phase::new(0, 1), Some(Phase { num: 0, den: 1 }));
    assert_eq!(Phase::new(1, 2), Some(Phase { num: 1, den: 2 }));
    assert_eq!(Phase::new(2, 2), None);
    assert_eq!(Phase::new(0, 0), None);
    assert_eq!(Phase::new(u64::MAX - 1, u64::MAX), Some(Phase { num: u64::MAX - 1, den: u64::MAX }));
    assert_eq!(Phase::new(u64::MAX, u64::MAX), None);
}

#[test]
fn clamped_phase_always_lies_below_one() {
    assert_eq!(Phase::clamped(1, 4), Phase { num: 1, den: 4 });
    assert_eq!(Phase::clamped(4, 4), Phase { num: 3, den: 4 });
    assert_eq!(Phase::clamped(9, 4), Phase { num: 3, den: 4 });
    assert_eq!(Phase::clamped(0, 1), Phase { num: 0, den: 1 });
    assert_eq!(Phase::clamped(5, 1), Phase { num: 0, den: 1 });
    assert_eq!(Phase::clamped(5, 0), Phase { num: 0, den: 1 });
}

#[test]
fn reconciler_needs_a_valid_rate_and_a_positive_budget() {
    let rate = Rate::per_second(60, 1).unwrap();
    assert!(Reconciler::new(rate, 0).is_none());
    assert!(Reconciler::new(Rate { numerator: 0, denominator: 1 }, 5).is_none());
    let made = Reconciler::new(rate, 5).unwrap();
    assert_eq!(made.tick_counter(), 0);
    assert_eq!(made.owed_ticks(), 0);
    assert_eq!(made.lag_budget(), 5);
    assert_eq!(made.rate(), rate);
    assert_eq!(Reconciler::resuming_at(rate, 5, 77).unwrap().tick_counter(), 77);
}

#[test]
fn first_sample_only_sets_the_origin() {
    let mut r = sixty_hz(5);
    r.sample(123_456_789_000);
    assert_eq!(r.owed_ticks(), 0);
    assert_eq!(r.drain(Mode::MaxOneFramePerTick), vec![Reading::Idle { duration: 16_666_667 }]);
}

#[test]
fn drain_without_any_sample_is_idle() {
    let mut r = sixty_hz(5);
    assert_eq!(r.drain(Mode::MaxOneFramePerTick), vec![Reading::Idle { duration: 16_666_667 }]);
    assert_eq!(r.tick_counter(), 0);
}

#[test]
fn six_ticks_within_a_budget_of_six() {
    let mut r = sixty_hz(6);
    r.sample(0);
    r.sample(100_000_000);
    assert_eq!(r.owed_ticks(), 6);
    let events = r.drain(Mode::MaxOneFramePerTick);
    let mut expected = Vec::new();
    for _ in 0..6 {
        expected.push(Reading::Tick);
        expected.push(boundary());
    }
    expected.push(Reading::Idle { duration: 16_666_667 });
    assert_eq!(events, expected);
    assert_eq!(tally(&events, Kind::Tick), 6);
    assert_eq!(tally(&events, Kind::Frame), 6);
    assert_eq!(tally(&events, Kind::Idle), 1);
    assert_eq!(r.tick_counter(), 6);
    assert_eq!(r.owed_ticks(), 0);
}

#[test]
fn six_ticks_against_a_budget_of_five() {
    let mut r = sixty_hz(5);
    r.sample(0);
    r.sample(100_000_000);
    assert_eq!(r.owed_ticks(), 6);
    let events = r.drain(Mode::MaxOneFramePerTick);
    let mut expected = Vec::new();
    for _ in 0..5 {
        expected.push(Reading::Tick);
        expected.push(boundary());
    }
    expected.push(Reading::TicksLost { n: 1 });
    expected.push(Reading::Idle { duration: 16_666_667 });
    assert_eq!(events, expected);
    assert_eq!(r.tick_counter(), 5);
    assert_eq!(r.owed_ticks(), 0);
}

#[test]
fn excess_over_the_budget_is_reported_exactly() {
    let mut r = sixty_hz(3);
    r.sample(1_000);
    r.sample(1_000 + 1_000_000_000);
    assert_eq!(r.owed_ticks(), 60);
    let events = r.drain(Mode::TargetFramesPerSecond(Rate::per_second(1, 10).unwrap()));
    assert_eq!(
        events,
        vec![
            Reading::Tick,
            Reading::Tick,
            Reading::Tick,
            Reading::TicksLost { n: 57 },
            Reading::Idle { duration: 16_666_667 },
        ]
    );
    assert_eq!(r.tick_counter(), 3);
}

#[test]
fn frame_phase_is_the_exact_remainder() {
    let mut r = sixty_hz(5);
    r.sample(0);
    r.sample(25_000_000);
    let events = r.drain(Mode::MaxOneFramePerTick);
    assert_eq!(
        events,
        vec![
            Reading::Tick,
            Reading::Frame { phase: Phase { num: 500_000_000, den: 1_000_000_000 } },
            Reading::Idle { duration: 8_333_334 },
        ]
    );
}

#[test]
fn every_frame_phase_is_below_one() {
    let mut r = Reconciler::new(Rate::per_second(7, 3).unwrap(), 4).unwrap();
    let mut now: u64 = 0;
    r.sample(now);
    for step in 0..200u64 {
        now += 1 + step * 7_919_003;
        r.sample(now);
        for e in r.drain(Mode::UnlimitedFrames) {
            if let Reading::Frame { phase } = e {
                assert!(phase.num < phase.den);
                assert_eq!(phase.den, 3_000_000_000);
            }
        }
    }
}

#[test]
fn a_clock_regression_is_reported_once_and_adds_no_time() {
    let mut r = sixty_hz(5);
    r.sample(1_000_000_000);
    r.sample(1_010_000_000);
    assert_eq!(r.owed_ticks(), 0);
    r.sample(500);
    assert_eq!(r.owed_ticks(), 0);
    let events = r.drain(Mode::MaxOneFramePerTick);
    assert_eq!(
        events,
        vec![Reading::TimeWentBackwards, Reading::Idle { duration: 6_666_667 }]
    );
    r.sample(500 + 10_000_000);
    let events = r.drain(Mode::MaxOneFramePerTick);
    assert_eq!(
        events,
        vec![
            Reading::Tick,
            Reading::Frame { phase: Phase { num: 200_000_000, den: 1_000_000_000 } },
            Reading::Idle { duration: 13_333_334 },
        ]
    );
}

#[test]
fn fractions_of_a_tick_add_up_without_drift() {
    let mut r = Reconciler::new(Rate::per_second(3, 1).unwrap(), 5).unwrap();
    r.sample(0);
    r.sample(111_111_111);
    assert_eq!(r.owed_ticks(), 0);
    r.sample(222_222_222);
    assert_eq!(r.owed_ticks(), 0);
    r.sample(333_333_333);
    assert_eq!(r.owed_ticks(), 0);
    r.sample(333_333_334);
    assert_eq!(r.owed_ticks(), 1);
    let events = r.drain(Mode::MaxOneFramePerTick);
    assert_eq!(
        events,
        vec![
            Reading::Tick,
            Reading::Frame { phase: Phase { num: 2, den: 1_000_000_000 } },
            Reading::Idle { duration: 333_333_333 },
        ]
    );
}

#[test]
fn the_counter_wraps_once_and_says_so() {
    let rate = Rate::per_second(60, 1).unwrap();
    let mut r = Reconciler::resuming_at(rate, 10, u64::MAX - 1).unwrap();
    r.sample(0);
    r.sample(50_000_000);
    let events = r.drain(Mode::MaxOneFramePerTick);
    assert_eq!(
        events,
        vec![
            Reading::Tick,
            boundary(),
            Reading::Tick,
            Reading::Rollover,
            boundary(),
            Reading::Tick,
            boundary(),
            Reading::Idle { duration: 16_666_667 },
        ]
    );
    assert_eq!(r.tick_counter(), 1);
}

#[test]
fn the_counter_rises_by_the_ticks_announced() {
    let mut r = sixty_hz(5);
    let mut now: u64 = 0;
    let mut last = r.tick_counter();
    r.sample(now);
    for step in 0..50u64 {
        now += step * 3_000_000;
        r.sample(now);
        let events = r.drain(Mode::MaxOneFramePerTick);
        let ticks = tally(&events, Kind::Tick) as u64;
        assert_eq!(tally(&events, Kind::Rollover), 0);
        assert_eq!(r.tick_counter(), last + ticks);
        last = r.tick_counter();
    }
}

#[test]
fn unlimited_frames_never_idle() {
    let mut r = sixty_hz(5);
    assert_eq!(r.drain(Mode::UnlimitedFrames), vec![boundary()]);
    r.sample(0);
    r.sample(25_000_000);
    let events = r.drain(Mode::UnlimitedFrames);
    assert_eq!(
        events,
        vec![
            Reading::Tick,
            boundary(),
            Reading::Frame { phase: Phase { num: 500_000_000, den: 1_000_000_000 } },
        ]
    );
}

#[test]
fn target_frame_rate_paces_frames_apart_from_ticks() {
    let mut r = Reconciler::new(Rate::per_second(10, 1).unwrap(), 5).unwrap();
    let fifty = Mode::TargetFramesPerSecond(Rate::per_second(50, 1).unwrap());
    r.sample(0);
    r.sample(10_000_000);
    assert_eq!(r.drain(fifty), vec![Reading::Idle { duration: 10_000_000 }]);
    r.sample(20_000_000);
    assert_eq!(
        r.drain(fifty),
        vec![
            Reading::Frame { phase: Phase { num: 200_000_000, den: 1_000_000_000 } },
            Reading::Idle { duration: 20_000_000 },
        ]
    );
    r.sample(100_000_000);
    assert_eq!(
        r.drain(fifty),
        vec![
            Reading::Tick,
            Reading::Frame { phase: Phase { num: 0, den: 1_000_000_000 } },
            Reading::Idle { duration: 20_000_000 },
        ]
    );
    r.sample(195_000_000);
    assert_eq!(
        r.drain(fifty),
        vec![
            Reading::Frame { phase: Phase { num: 950_000_000, den: 1_000_000_000 } },
            Reading::Idle { duration: 5_000_000 },
        ]
    );
    r.sample(200_000_000);
    assert_eq!(
        r.drain(fifty),
        vec![
            Reading::Tick,
            Reading::Frame { phase: Phase { num: 0, den: 1_000_000_000 } },
            Reading::Idle { duration: 20_000_000 },
        ]
    );
}

#[test]
fn idle_is_always_the_last_reading() {
    let mut r = sixty_hz(2);
    let mut now: u64 = 0;
    r.sample(now);
    for step in 0..40u64 {
        now += step * 5_000_000;
        r.sample(now);
        let events = r.drain(Mode::MaxOneFramePerTick);
        assert_eq!(tally(&events, Kind::Idle), 1);
        assert_eq!(events.last().unwrap().kind(), Kind::Idle);
    }
}

#[test]
fn owed_ticks_hold_at_the_limit() {
    let mut r = Reconciler::new(Rate::per_second(1_000_000_000, 1).unwrap(), 1).unwrap();
    r.sample(0);
    r.sample(u64::MAX);
    assert_eq!(r.owed_ticks(), u64::MAX);
    r.sample(0);
    r.sample(u64::MAX);
    assert_eq!(r.owed_ticks(), u64::MAX);
    let events = r.drain(Mode::MaxOneFramePerTick);
    assert_eq!(
        events,
        vec![
            Reading::TimeWentBackwards,
            Reading::Tick,
            Reading::Frame { phase: Phase { num: 0, den: 1_000_000_000 } },
            Reading::TicksLost { n: u64::MAX - 1 },
            Reading::Idle { duration: 1 },
        ]
    );
}

#[test]
fn two_reconcilers_do_not_interfere() {
    let mut a = sixty_hz(5);
    let mut b = sixty_hz(5);
    a.sample(0);
    b.sample(0);
    a.sample(50_000_000);
    assert_eq!(a.owed_ticks(), 3);
    assert_eq!(b.owed_ticks(), 0);
}
