//! What holds of every sample and of every drain, proved from their
//! definitions.
use vstd::prelude::*;
use crate::reading::{count, lemma_count_concat, lemma_count_one, Kind, Mode, Reading};
use crate::reconciler::{wrapped_sum, Accounting};

verus! {

/// Frames that a run of `k` ticks holds under `mode`.
pub open spec fn frames_per_run(mode: Mode, k: nat) -> nat {
    match mode {
        Mode::TargetFramesPerSecond(_) => 0,
        _ => k,
    }
}

/// Rollovers among the first `k` ticks counted on from `counter`.
pub open spec fn rollovers(counter: u64, k: nat) -> nat {
    if counter + k > u64::MAX {
        1
    } else {
        0
    }
}

/// A reading that a tick run may hold: a tick, a rollover, or a frame at the
/// boundary or at the present moment.
pub open spec fn run_entry(a: Accounting, r: Reading) -> bool {
    ||| r is Tick
    ||| r is Rollover
    ||| r == (Reading::Frame { phase: a.phase_now() })
    ||| r == (Reading::Frame { phase: a.phase_zero() })
}

/// How many readings of kind `kind` one tick contributes.
proof fn lemma_step_counts(a: Accounting, mode: Mode, i: int, kind: Kind)
    ensures
        count(a.step(mode, i), kind) == match kind {
            Kind::Tick => 1nat,
            Kind::Rollover => if a.tick_counter + i == u64::MAX {
                1nat
            } else {
                0nat
            },
            Kind::Frame => frames_per_run(mode, 1),
            _ => 0nat,
        },
        forall|j: int| 0 <= j < a.step(mode, i).len() ==> run_entry(a, #[trigger] a.step(mode, i)[j]),
{
    let tick = seq![Reading::Tick];
    let roll = if a.tick_counter + i == u64::MAX {
        seq![Reading::Rollover]
    } else {
        Seq::<Reading>::empty()
    };
    let frame = match mode {
        Mode::MaxOneFramePerTick => seq![
            Reading::Frame {
                phase: if i + 1 == a.ticks_due() {
                    a.phase_now()
                } else {
                    a.phase_zero()
                },
            },
        ],
        Mode::UnlimitedFrames => seq![Reading::Frame { phase: a.phase_zero() }],
        Mode::TargetFramesPerSecond(_) => Seq::<Reading>::empty(),
    };
    lemma_count_concat(tick + roll, frame, kind);
    lemma_count_concat(tick, roll, kind);
    lemma_count_one(Reading::Tick, kind);
    lemma_count_one(Reading::Rollover, kind);
    if frame.len() > 0 {
        lemma_count_one(frame[0], kind);
    }
}

/// How many readings of each kind a run of `k` ticks holds, and that it holds
/// nothing but ticks, rollovers and frames.
pub proof fn lemma_run_counts(a: Accounting, mode: Mode, k: nat, kind: Kind)
    ensures
        count(a.tick_run(mode, k), kind) == match kind {
            Kind::Tick => k,
            Kind::Rollover => rollovers(a.tick_counter, k),
            Kind::Frame => frames_per_run(mode, k),
            _ => 0nat,
        },
        forall|j: int| 0 <= j < a.tick_run(mode, k).len() ==> run_entry(a, #[trigger] a.tick_run(mode, k)[j]),
    decreases k,
{
    if k > 0 {
        lemma_run_counts(a, mode, (k - 1) as nat, kind);
        lemma_step_counts(a, mode, k - 1, kind);
        lemma_count_concat(a.tick_run(mode, (k - 1) as nat), a.step(mode, k - 1), kind);
    }
}

/// How many readings of kind `kind` the closing of a drain holds.
pub open spec fn closing_count(a: Accounting, mode: Mode, kind: Kind) -> nat {
    match kind {
        Kind::Frame => match mode {
            Mode::MaxOneFramePerTick => 0,
            Mode::UnlimitedFrames => 1,
            Mode::TargetFramesPerSecond(_) => if a.renders(mode) {
                1
            } else {
                0
            },
        },
        Kind::Idle => if mode is UnlimitedFrames {
            0
        } else {
            1
        },
        _ => 0,
    }
}

/// The number of readings of one kind in a whole drain, part by part.
pub proof fn lemma_drain_counts(a: Accounting, mode: Mode, kind: Kind)
    ensures
        count(a.drain_events(mode), kind) == (if a.went_backwards && kind is TimeWentBackwards {
            1nat
        } else {
            0nat
        }) + (match kind {
            Kind::Tick => a.ticks_due() as nat,
            Kind::Rollover => rollovers(a.tick_counter, a.ticks_due() as nat),
            Kind::Frame => frames_per_run(mode, a.ticks_due() as nat),
            _ => 0nat,
        }) + (if a.ticks_lost() > 0 && kind is TicksLost {
            1nat
        } else {
            0nat
        }) + closing_count(a, mode, kind),
{
    let run = a.tick_run(mode, a.ticks_due() as nat);
    lemma_count_concat(a.opening() + run + a.lost_report(), a.closing(mode), kind);
    lemma_count_concat(a.opening() + run, a.lost_report(), kind);
    lemma_count_concat(a.opening(), run, kind);
    lemma_run_counts(a, mode, a.ticks_due() as nat, kind);
    lemma_count_one(Reading::TimeWentBackwards, kind);
    lemma_count_one(Reading::TicksLost { n: a.ticks_lost() as u64 }, kind);
    let idle = Reading::Idle { duration: a.idle_nanos(mode) as u64 };
    let frame = Reading::Frame { phase: a.phase_now() };
    lemma_count_one(idle, kind);
    lemma_count_one(frame, kind);
    lemma_count_concat(seq![frame], seq![idle], kind);
}

/// While no more ticks are owed than the lag budget allows, a drain announces
/// every owed tick and reports none as lost.
pub proof fn ticks_within_budget(a: Accounting, mode: Mode)
    requires
        a.wf(),
        a.owed <= a.lag_budget,
    ensures
        count(a.drain_events(mode), Kind::Tick) == a.owed,
        count(a.drain_events(mode), Kind::TicksLost) == 0,
{
    lemma_drain_counts(a, mode, Kind::Tick);
    lemma_drain_counts(a, mode, Kind::TicksLost);
}

/// Once more ticks are owed than the lag budget allows, a drain announces as
/// many ticks as the budget, and reports the exact excess, once.
pub proof fn ticks_over_budget(a: Accounting, mode: Mode)
    requires
        a.wf(),
        a.owed > a.lag_budget,
    ensures
        count(a.drain_events(mode), Kind::Tick) == a.lag_budget,
        count(a.drain_events(mode), Kind::TicksLost) == 1,
        forall|i: int|
            0 <= i < a.drain_events(mode).len() && (#[trigger] a.drain_events(mode)[i]) is TicksLost
                ==> a.drain_events(mode)[i] == (Reading::TicksLost {
                n: (a.owed - a.lag_budget) as u64,
            }),
{
    lemma_drain_counts(a, mode, Kind::Tick);
    lemma_drain_counts(a, mode, Kind::TicksLost);
    lemma_run_counts(a, mode, a.ticks_due() as nat, Kind::Tick);
}

/// Every frame of a drain carries a phase in `[0, 1)`.
pub proof fn frame_phases_below_one(a: Accounting, mode: Mode)
    requires
        a.wf(),
    ensures
        forall|i: int|
            0 <= i < a.drain_events(mode).len() && (#[trigger] a.drain_events(mode)[i]) is Frame
                ==> a.drain_events(mode)[i]->phase.wf(),
{
    lemma_run_counts(a, mode, a.ticks_due() as nat, Kind::Tick);
    a.rate.lemma_period_bounds();
}

/// The tick counter only moves forward, by the ticks announced, except on the
/// one tick that wraps it to zero; a drain reports that tick, and no other, as
/// a rollover. A sample leaves the counter alone.
pub proof fn counter_moves_forward(a: Accounting, mode: Mode, now: u64)
    requires
        a.wf(),
    ensures
        a.after_sample(now).tick_counter == a.tick_counter,
        a.after_drain(mode).tick_counter == wrapped_sum(a.tick_counter, a.ticks_due()),
        count(a.drain_events(mode), Kind::Rollover) <= 1,
        count(a.drain_events(mode), Kind::Rollover) == 0 ==> a.after_drain(mode).tick_counter
            == a.tick_counter + count(a.drain_events(mode), Kind::Tick),
        count(a.drain_events(mode), Kind::Rollover) == 1 ==> a.after_drain(mode).tick_counter
            == a.tick_counter + count(a.drain_events(mode), Kind::Tick) - u64::MAX - 1,
{
    lemma_drain_counts(a, mode, Kind::Tick);
    lemma_drain_counts(a, mode, Kind::Rollover);
}

/// A sample earlier than its predecessor adds no owed time at all, and the
/// drain that follows reports the regression exactly once.
pub proof fn regression_adds_nothing(a: Accounting, now: u64, mode: Mode)
    requires
        a.wf(),
        a.last_sample.is_some(),
        now < a.last_sample.unwrap(),
    ensures
        a.after_sample(now).owed == a.owed,
        a.after_sample(now).remainder == a.remainder,
        count(a.after_sample(now).drain_events(mode), Kind::TimeWentBackwards) == 1,
{
    lemma_drain_counts(a.after_sample(now), mode, Kind::TimeWentBackwards);
}

/// A drain reports a regression at most once, and only if a sample since the
/// last drain ran backwards; the drain after it starts clean.
pub proof fn regression_reported_once(a: Accounting, mode: Mode)
    requires
        a.wf(),
    ensures
        count(a.drain_events(mode), Kind::TimeWentBackwards) == if a.went_backwards {
            1nat
        } else {
            0nat
        },
        !a.after_drain(mode).went_backwards,
{
    lemma_drain_counts(a, mode, Kind::TimeWentBackwards);
}

/// A drain holds at most one idle reading, and nothing follows it. Where
/// frames are unlimited it holds none; in the other modes it ends with one.
pub proof fn idle_comes_last(a: Accounting, mode: Mode)
    requires
        a.wf(),
    ensures
        count(a.drain_events(mode), Kind::Idle) == if mode is UnlimitedFrames {
            0nat
        } else {
            1nat
        },
        forall|i: int|
            0 <= i < a.drain_events(mode).len() && (#[trigger] a.drain_events(mode)[i]) is Idle ==> i
                == a.drain_events(mode).len() - 1,
{
    lemma_drain_counts(a, mode, Kind::Idle);
    lemma_run_counts(a, mode, a.ticks_due() as nat, Kind::Idle);
}

/// Within a drain the regression report comes first, and every tick comes
/// before the loss report and before the idle reading.
pub proof fn ticks_come_first(a: Accounting, mode: Mode)
    requires
        a.wf(),
    ensures
        forall|i: int|
            0 <= i < a.drain_events(mode).len() && (#[trigger] a.drain_events(mode)[i])
                is TimeWentBackwards ==> i == 0,
        forall|i: int, j: int|
            0 <= i < a.drain_events(mode).len() && 0 <= j < a.drain_events(mode).len() && (
            #[trigger] a.drain_events(mode)[i]) is Tick && ((#[trigger] a.drain_events(mode)[j])
                is TicksLost || a.drain_events(mode)[j] is Idle) ==> i < j,
{
    let events = a.drain_events(mode);
    let run = a.tick_run(mode, a.ticks_due() as nat);
    let cut = a.opening().len() + run.len();
    lemma_run_counts(a, mode, a.ticks_due() as nat, Kind::Tick);
    assert forall|i: int| 0 <= i < events.len() implies ((#[trigger] events[i]) is Tick ==> i
        < cut) && (events[i] is TicksLost || events[i] is Idle ==> i >= cut) && (events[i]
        is TimeWentBackwards ==> i == 0) by {}
}

/// A drain with nothing to announce, neither a regression nor a tick nor a
/// frame, consists of one idle reading, and the time it grants is positive.
pub proof fn idle_when_nothing_is_due(a: Accounting, mode: Mode)
    requires
        a.wf(),
        mode.wf(),
        a.owed == 0,
        !a.went_backwards,
        !a.renders(mode),
    ensures
        a.drain_events(mode) == seq![Reading::Idle { duration: a.idle_nanos(mode) as u64 }],
        0 < a.idle_nanos(mode) <= u64::MAX,
{
    a.rate.lemma_period_bounds();
    a.rate.lemma_covering_bounds(a.rate.period_units() - a.remainder);
    if let Mode::TargetFramesPerSecond(r) = mode {
        r.lemma_period_bounds();
        assert(r.units_of(a.frame_nanos as int) >= 0) by (nonlinear_arith)
            requires
                r.units_of(a.frame_nanos as int) == a.frame_nanos * r.numerator,
        ;
        r.lemma_covering_bounds(r.period_units() - r.units_of(a.frame_nanos as int));
    }
}

/// Rendering once per tick yields exactly one frame for each tick announced;
/// unlimited frames yield one more than that; a target frame rate yields one
/// frame or none.
pub proof fn frames_follow_mode(a: Accounting, mode: Mode)
    requires
        a.wf(),
    ensures
        mode is MaxOneFramePerTick ==> count(a.drain_events(mode), Kind::Frame) == count(
            a.drain_events(mode),
            Kind::Tick,
        ),
        mode is UnlimitedFrames ==> count(a.drain_events(mode), Kind::Frame) == count(
            a.drain_events(mode),
            Kind::Tick,
        ) + 1,
        mode is TargetFramesPerSecond ==> count(a.drain_events(mode), Kind::Frame) == if a.renders(
            mode,
        ) {
            1nat
        } else {
            0nat
        },
{
    lemma_drain_counts(a, mode, Kind::Tick);
    lemma_drain_counts(a, mode, Kind::Frame);
}

/// A drain settles the accounts: right after it nothing is owed, so a second
/// drain announces no tick and loses none.
pub proof fn drained_means_settled(a: Accounting, mode: Mode, again: Mode)
    requires
        a.wf(),
    ensures
        a.after_drain(mode).wf(),
        a.after_drain(mode).owed == 0,
        a.after_drain(mode).remainder == a.remainder,
        count(a.after_drain(mode).drain_events(again), Kind::Tick) == 0,
        count(a.after_drain(mode).drain_events(again), Kind::TicksLost) == 0,
{
    lemma_drain_counts(a.after_drain(mode), again, Kind::Tick);
    lemma_drain_counts(a.after_drain(mode), again, Kind::TicksLost);
}

/// Valid accounts stay valid through every sample and every drain, and
/// neither changes the rate or the lag budget.
pub proof fn accounts_stay_valid(a: Accounting, now: u64, mode: Mode)
    requires
        a.wf(),
    ensures
        a.after_sample(now).wf(),
        a.after_drain(mode).wf(),
        a.after_sample(now).rate == a.rate && a.after_sample(now).lag_budget == a.lag_budget,
        a.after_drain(mode).rate == a.rate && a.after_drain(mode).lag_budget == a.lag_budget,
{
    a.rate.lemma_period_bounds();
    if a.last_sample.is_some() && now >= a.last_sample.unwrap() {
        sampling_conserves_time(a, now);
    }
}

/// A sample forward in time neither creates nor destroys owed time: what was
/// owed before, plus the elapsed time, is what is owed after, unless the count
/// of owed ticks is held at its limit.
pub proof fn sampling_conserves_time(a: Accounting, now: u64)
    requires
        a.wf(),
        a.last_sample.is_some(),
        now >= a.last_sample.unwrap(),
    ensures
        a.after_sample(now).wf(),
        a.after_sample(now).owed < u64::MAX ==> a.after_sample(now).owed * a.rate.period_units()
            + a.after_sample(now).remainder == a.owed * a.rate.period_units() + a.remainder
            + a.rate.units_of(now - a.last_sample.unwrap()),
{
    let p = a.rate.period_units();
    let total = a.remainder + a.rate.units_of(now - a.last_sample.unwrap());
    assert(p > 0) by (nonlinear_arith)
        requires
            p == 1_000_000_000 * a.rate.denominator,
            a.rate.denominator > 0,
    ;
    assert(total >= 0) by (nonlinear_arith)
        requires
            total == a.remainder + (now - a.last_sample.unwrap()) * a.rate.numerator,
            now >= a.last_sample.unwrap(),
    ;
    assert(total == (total / p) * p + total % p && 0 <= total % p < p && total / p >= 0)
        by (nonlinear_arith)
        requires
            p > 0,
            total >= 0,
    ;
    assert((a.owed + total / p) * p == a.owed * p + (total / p) * p) by (nonlinear_arith);
}

} // verus!
