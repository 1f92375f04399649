//! The tick/frame reconciler: clock samples in, ordered readings out.
use vstd::prelude::*;
use crate::rate::{Phase, Rate};
use crate::reading::{Mode, Reading};

verus! {

/// Converts irregular clock samples into fixed-rate ticks and paced frames.
///
/// Feed it one clock sample per loop iteration with [`Reconciler::sample`],
/// then take the readings that fall due with [`Reconciler::drain`].
pub struct Reconciler {
    rate: Rate,
    lag_budget: u32,
    last_sample: Option<u64>,
    remainder: u64,
    owed: u64,
    went_backwards: bool,
    tick_counter: u64,
    frame_nanos: u64,
}

/// The mathematical content of a [`Reconciler`].
pub struct Accounting {
    /// Tick rate.
    pub rate: Rate,
    /// Most ticks one drain may announce.
    pub lag_budget: u32,
    /// The latest clock sample, in nanoseconds, if there was one.
    pub last_sample: Option<u64>,
    /// Time owed beyond the whole ticks, in units of the tick rate.
    pub remainder: u64,
    /// Whole ticks owed and not yet drained.
    pub owed: u64,
    /// Whether the clock ran backwards since the last drain.
    pub went_backwards: bool,
    /// Ticks announced so far, modulo `2^64`.
    pub tick_counter: u64,
    /// Nanoseconds sampled and not yet used up by a frame.
    pub frame_nanos: u64,
}

/// Sum of a counter and an increment, held at `u64::MAX`.
pub open spec fn held_sum(a: u64, b: int) -> u64 {
    if a + b > u64::MAX {
        u64::MAX
    } else {
        (a + b) as u64
    }
}

/// Sum of a counter and an increment, wrapped past `u64::MAX` to zero.
pub open spec fn wrapped_sum(a: u64, b: int) -> u64 {
    if a + b > u64::MAX {
        (a + b - u64::MAX - 1) as u64
    } else {
        (a + b) as u64
    }
}

impl Accounting {
    /// The rate is valid, the budget positive, the remainder short of a tick.
    pub open spec fn wf(self) -> bool {
        &&& self.rate.wf()
        &&& self.lag_budget > 0
        &&& (self.remainder as int) < self.rate.period_units()
    }

    /// The state that a sample at `now` nanoseconds leaves behind.
    ///
    /// The first sample only sets the origin. A sample earlier than its
    /// predecessor adds no time and is remembered as a regression. Any other
    /// sample adds its whole elapsed time to the remainder and carries each
    /// full period over into the owed ticks.
    pub open spec fn after_sample(self, now: u64) -> Accounting {
        match self.last_sample {
            None => Accounting { last_sample: Some(now), ..self },
            Some(last) => if now < last {
                Accounting { last_sample: Some(now), went_backwards: true, ..self }
            } else {
                let total = self.remainder + self.rate.units_of(now - last);
                Accounting {
                    last_sample: Some(now),
                    remainder: (total % self.rate.period_units()) as u64,
                    owed: held_sum(self.owed, total / self.rate.period_units()),
                    frame_nanos: held_sum(self.frame_nanos, now - last),
                    ..self
                }
            },
        }
    }

    /// Ticks the next drain announces: the owed ticks, capped by the budget.
    pub open spec fn ticks_due(self) -> int {
        if self.owed <= self.lag_budget {
            self.owed as int
        } else {
            self.lag_budget as int
        }
    }

    /// Ticks the next drain discards.
    pub open spec fn ticks_lost(self) -> int {
        self.owed - self.ticks_due()
    }

    /// Where the present moment lies between the last tick and the next.
    pub open spec fn phase_now(self) -> Phase {
        Phase { num: self.remainder, den: self.rate.period_units() as u64 }
    }

    /// The phase of a tick boundary.
    pub open spec fn phase_zero(self) -> Phase {
        Phase { num: 0, den: self.rate.period_units() as u64 }
    }

    /// Whether the next drain under `mode` renders at all.
    pub open spec fn renders(self, mode: Mode) -> bool {
        match mode {
            Mode::MaxOneFramePerTick => self.ticks_due() > 0,
            Mode::UnlimitedFrames => true,
            Mode::TargetFramesPerSecond(r) => r.units_of(self.frame_nanos as int)
                >= r.period_units(),
        }
    }

    /// Nanoseconds counted toward the next frame, once the next drain is
    /// done. A drain that does not render keeps the count. A frame at a
    /// target rate uses up the whole frame periods that have passed and keeps
    /// the whole nanoseconds beyond them; any other frame starts from zero.
    pub open spec fn frame_nanos_after(self, mode: Mode) -> u64 {
        if !self.renders(mode) {
            self.frame_nanos
        } else {
            match mode {
                Mode::TargetFramesPerSecond(r) => ((r.units_of(self.frame_nanos as int)
                    % r.period_units()) / (r.numerator as int)) as u64,
                _ => 0,
            }
        }
    }

    /// Nanoseconds, rounded up, until the next tick falls due.
    pub open spec fn nanos_to_next_tick(self) -> int {
        self.rate.nanos_covering(self.rate.period_units() - self.remainder)
    }

    /// Nanoseconds, rounded up, until the next frame at rate `r` falls due,
    /// counted from the end of the next drain.
    pub open spec fn nanos_to_next_frame(self, r: Rate) -> int {
        r.nanos_covering(
            r.period_units() - r.units_of(
                self.frame_nanos_after(Mode::TargetFramesPerSecond(r)) as int,
            ),
        )
    }

    /// How long the host may sleep after the next drain.
    pub open spec fn idle_nanos(self, mode: Mode) -> int {
        match mode {
            Mode::TargetFramesPerSecond(r) => if self.nanos_to_next_frame(r)
                < self.nanos_to_next_tick() {
                self.nanos_to_next_frame(r)
            } else {
                self.nanos_to_next_tick()
            },
            _ => self.nanos_to_next_tick(),
        }
    }

    /// The report of a clock regression, if there was one.
    pub open spec fn opening(self) -> Seq<Reading> {
        if self.went_backwards {
            seq![Reading::TimeWentBackwards]
        } else {
            Seq::empty()
        }
    }

    /// The readings of the tick with index `i` of a drain: the tick, the
    /// rollover if the counter wraps on it, and the frame that `mode` ties to
    /// it. Such a frame shows the tick boundary, except after the last tick
    /// of a drain that renders once per tick, where it shows the present.
    pub open spec fn step(self, mode: Mode, i: int) -> Seq<Reading> {
        seq![Reading::Tick] + (if self.tick_counter + i == u64::MAX {
            seq![Reading::Rollover]
        } else {
            Seq::empty()
        }) + (match mode {
            Mode::MaxOneFramePerTick => seq![
                Reading::Frame {
                    phase: if i + 1 == self.ticks_due() {
                        self.phase_now()
                    } else {
                        self.phase_zero()
                    },
                },
            ],
            Mode::UnlimitedFrames => seq![Reading::Frame { phase: self.phase_zero() }],
            Mode::TargetFramesPerSecond(_) => Seq::empty(),
        })
    }

    /// The readings of the first `k` ticks of a drain.
    pub open spec fn tick_run(self, mode: Mode, k: nat) -> Seq<Reading>
        decreases k,
    {
        if k == 0 {
            Seq::empty()
        } else {
            self.tick_run(mode, (k - 1) as nat) + self.step(mode, k - 1)
        }
    }

    /// The report of discarded ticks, if any were discarded.
    pub open spec fn lost_report(self) -> Seq<Reading> {
        if self.ticks_lost() > 0 {
            seq![Reading::TicksLost { n: self.ticks_lost() as u64 }]
        } else {
            Seq::empty()
        }
    }

    /// What ends a drain: the frame of the present moment where `mode` calls
    /// for one, then the idle time, except where frames are unlimited.
    pub open spec fn closing(self, mode: Mode) -> Seq<Reading> {
        match mode {
            Mode::MaxOneFramePerTick => seq![
                Reading::Idle { duration: self.idle_nanos(mode) as u64 },
            ],
            Mode::UnlimitedFrames => seq![Reading::Frame { phase: self.phase_now() }],
            Mode::TargetFramesPerSecond(_) => (if self.renders(mode) {
                seq![Reading::Frame { phase: self.phase_now() }]
            } else {
                Seq::empty()
            }) + seq![Reading::Idle { duration: self.idle_nanos(mode) as u64 }],
        }
    }

    /// Every reading of the next drain, in order: the regression report, the
    /// due ticks with what belongs to each, the loss report, the closing.
    pub open spec fn drain_events(self, mode: Mode) -> Seq<Reading> {
        self.opening() + self.tick_run(mode, self.ticks_due() as nat) + self.lost_report()
            + self.closing(mode)
    }

    /// The state that the next drain leaves behind.
    pub open spec fn after_drain(self, mode: Mode) -> Accounting {
        Accounting {
            owed: 0,
            went_backwards: false,
            tick_counter: wrapped_sum(self.tick_counter, self.ticks_due()),
            frame_nanos: self.frame_nanos_after(mode),
            ..self
        }
    }
}

impl View for Reconciler {
    type V = Accounting;

    closed spec fn view(&self) -> Accounting {
        Accounting {
            rate: self.rate,
            lag_budget: self.lag_budget,
            last_sample: self.last_sample,
            remainder: self.remainder,
            owed: self.owed,
            went_backwards: self.went_backwards,
            tick_counter: self.tick_counter,
            frame_nanos: self.frame_nanos,
        }
    }
}

impl Reconciler {
    /// A reconciler at tick zero that has seen no sample; `None` unless the
    /// rate is valid and the budget positive.
    pub fn new(rate: Rate, lag_budget: u32) -> (r: Option<Reconciler>)
        ensures
            r.is_some() <==> (rate.wf() && lag_budget > 0),
            r.is_some() ==> r.unwrap()@ == (Accounting {
                rate,
                lag_budget,
                last_sample: None,
                remainder: 0,
                owed: 0,
                went_backwards: false,
                tick_counter: 0,
                frame_nanos: 0,
            }) && r.unwrap()@.wf(),
    {
        Reconciler::resuming_at(rate, lag_budget, 0)
    }

    /// As [`Reconciler::new`], with the tick counter starting at `tick_counter`.
    pub fn resuming_at(rate: Rate, lag_budget: u32, tick_counter: u64) -> (r: Option<Reconciler>)
        ensures
            r.is_some() <==> (rate.wf() && lag_budget > 0),
            r.is_some() ==> r.unwrap()@ == (Accounting {
                rate,
                lag_budget,
                last_sample: None,
                remainder: 0,
                owed: 0,
                went_backwards: false,
                tick_counter,
                frame_nanos: 0,
            }) && r.unwrap()@.wf(),
    {
        match Rate::per_second(rate.numerator, rate.denominator) {
            None => None,
            Some(rate) => if lag_budget == 0 {
                None
            } else {
                Some(
                    Reconciler {
                        rate,
                        lag_budget,
                        last_sample: None,
                        remainder: 0,
                        owed: 0,
                        went_backwards: false,
                        tick_counter,
                        frame_nanos: 0,
                    },
                )
            },
        }
    }

    /// Ticks announced so far, modulo `2^64`.
    pub fn tick_counter(&self) -> (n: u64)
        ensures
            n == self@.tick_counter,
    {
        self.tick_counter
    }

    /// Whole ticks owed and not yet drained.
    pub fn owed_ticks(&self) -> (n: u64)
        ensures
            n == self@.owed,
    {
        self.owed
    }

    /// Most ticks one drain may announce.
    pub fn lag_budget(&self) -> (n: u32)
        ensures
            n == self@.lag_budget,
    {
        self.lag_budget
    }

    /// The tick rate.
    pub fn rate(&self) -> (r: Rate)
        ensures
            r == self@.rate,
    {
        self.rate
    }

    /// Takes in the clock sample `now`, in nanoseconds.
    pub fn sample(&mut self, now: u64)
        requires
            old(self)@.wf(),
        ensures
            final(self)@ == old(self)@.after_sample(now),
            final(self)@.wf(),
    {
        match self.last_sample {
            None => {},
            Some(last) => {
                if now < last {
                    self.went_backwards = true;
                } else {
                    let elapsed: u64 = now - last;
                    let period: u64 = self.rate.period();
                    let k: u64 = self.rate.numerator as u64;
                    assert(elapsed * k <= 0xffff_ffff_ffff_ffff * 0xffff_ffff) by (nonlinear_arith)
                        requires
                            elapsed <= 0xffff_ffff_ffff_ffff,
                            k <= 0xffff_ffff,
                    ;
                    let total: u128 = self.remainder as u128 + (elapsed as u128) * (k as u128);
                    let fresh: u128 = total / (period as u128);
                    let rest: u128 = total % (period as u128);
                    let room: u64 = u64::MAX - self.owed;
                    self.owed = if fresh > room as u128 {
                        u64::MAX
                    } else {
                        self.owed + fresh as u64
                    };
                    self.remainder = rest as u64;
                    self.frame_nanos = if elapsed > u64::MAX - self.frame_nanos {
                        u64::MAX
                    } else {
                        self.frame_nanos + elapsed
                    };
                }
            },
        }
        self.last_sample = Some(now);
    }

    /// Hands out, in order, the readings that have fallen due, and settles
    /// the accounts: no tick stays owed and the counter has moved on by the
    /// ticks announced.
    pub fn drain(&mut self, mode: Mode) -> (events: Vec<Reading>)
        requires
            old(self)@.wf(),
            mode.wf(),
        ensures
            events@ == old(self)@.drain_events(mode),
            final(self)@ == old(self)@.after_drain(mode),
            final(self)@.wf(),
    {
        let ghost start = self@;
        let period: u64 = self.rate.period();
        let due: u64 = if self.owed <= self.lag_budget as u64 {
            self.owed
        } else {
            self.lag_budget as u64
        };
        let lost: u64 = self.owed - due;
        let phase_now = Phase { num: self.remainder, den: period };
        let phase_zero = Phase { num: 0, den: period };
        let mut events: Vec<Reading> = Vec::new();
        if self.went_backwards {
            events.push(Reading::TimeWentBackwards);
        }
        let mut counter: u64 = self.tick_counter;
        let mut i: u64 = 0;
        while i < due
            invariant
                i <= due,
                due == start.ticks_due(),
                phase_now == start.phase_now(),
                phase_zero == start.phase_zero(),
                counter == wrapped_sum(start.tick_counter, i as int),
                events@ =~= start.opening() + start.tick_run(mode, i as nat),
            decreases due - i,
        {
            events.push(Reading::Tick);
            if counter == u64::MAX {
                events.push(Reading::Rollover);
                counter = 0;
            } else {
                counter = counter + 1;
            }
            match mode {
                Mode::MaxOneFramePerTick => {
                    let phase = if i + 1 == due {
                        phase_now
                    } else {
                        phase_zero
                    };
                    events.push(Reading::Frame { phase });
                },
                Mode::UnlimitedFrames => {
                    events.push(Reading::Frame { phase: phase_zero });
                },
                Mode::TargetFramesPerSecond(_) => {},
            }
            assert(start.tick_run(mode, (i + 1) as nat) == start.tick_run(mode, i as nat)
                + start.step(mode, i as int));
            i = i + 1;
        }
        if lost > 0 {
            events.push(Reading::TicksLost { n: lost });
        }
        let to_tick: u64 = self.rate.nanos_to_cover(period - self.remainder);
        match mode {
            Mode::MaxOneFramePerTick => {
                events.push(Reading::Idle { duration: to_tick });
                if due > 0 {
                    self.frame_nanos = 0;
                }
            },
            Mode::UnlimitedFrames => {
                events.push(Reading::Frame { phase: phase_now });
                self.frame_nanos = 0;
            },
            Mode::TargetFramesPerSecond(r) => {
                let frame_period: u64 = r.period();
                let k: u64 = r.numerator as u64;
                let waited: u64 = self.frame_nanos;
                assert(waited * k <= 0xffff_ffff_ffff_ffff * 0xffff_ffff) by (nonlinear_arith)
                    requires
                        waited <= 0xffff_ffff_ffff_ffff,
                        k <= 0xffff_ffff,
                ;
                let spent: u128 = (waited as u128) * (k as u128);
                let left: u64 = if spent >= frame_period as u128 {
                    events.push(Reading::Frame { phase: phase_now });
                    let beyond: u64 = (spent % (frame_period as u128)) as u64;
                    let kept: u64 = beyond / k;
                    assert(kept * k <= beyond) by (nonlinear_arith)
                        requires
                            kept == beyond / k,
                            k > 0,
                    ;
                    self.frame_nanos = kept;
                    frame_period - kept * k
                } else {
                    frame_period - spent as u64
                };
                let to_frame: u64 = r.nanos_to_cover(left);
                let duration: u64 = if to_frame < to_tick {
                    to_frame
                } else {
                    to_tick
                };
                events.push(Reading::Idle { duration });
            },
        }
        self.owed = 0;
        self.went_backwards = false;
        self.tick_counter = counter;
        events
    }
}

} // verus!
