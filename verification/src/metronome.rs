//! A reconciler driven by the clock of the machine.
use vstd::prelude::*;
use ftvf::{NowSource, RealtimeNowSource, TemporalSample};
use std::time::{Duration, Instant};
use crate::rate::Rate;
use crate::reading::{Mode, Reading};
use crate::reconciler::{Accounting, Reconciler};

verus! {

/// `ftvf::RealtimeNowSource`, the clock source that reads the clock of the
/// machine.
#[verifier::external_type_specification]
#[verifier::external_body]
pub struct ExRealtimeNowSource(ftvf::RealtimeNowSource);

/// `std::time::Instant`, a reading of that clock.
#[verifier::external_type_specification]
#[verifier::external_body]
pub struct ExInstant(std::time::Instant);

/// `ftvf::RealtimeNowSource::new`: a clock source. Nothing is claimed of it.
#[verifier::external_body]
fn machine_clock() -> RealtimeNowSource {
    RealtimeNowSource::new()
}

/// `ftvf::NowSource::now` of `ftvf::RealtimeNowSource`: the present instant.
/// Nothing is claimed of it: a clock may report any instant, even one
/// earlier than its last.
#[verifier::external_body]
fn read_clock(clock: &mut RealtimeNowSource) -> Instant {
    clock.now()
}

/// `ftvf::TemporalSample::time_since` of `std::time::Instant`: the time from
/// `origin` to `instant`, or `None` where `instant` is the earlier of the
/// two. Nothing is claimed of it.
#[verifier::external_body]
fn time_since(instant: &Instant, origin: &Instant) -> Option<Duration> {
    instant.time_since(origin)
}

/// `std::time::Duration::as_nanos`: the whole nanoseconds in a duration.
/// Nothing is claimed of it.
#[verifier::external_body]
fn whole_nanos(duration: Duration) -> u128 {
    duration.as_nanos()
}

/// The clock sample that stands for a reading of the clock: the nanoseconds
/// since the origin, held at `u64::MAX`, and zero for a reading from before
/// the origin.
pub fn clock_sample(since: Option<u128>) -> (now: u64)
    ensures
        now == match since {
            None => 0,
            Some(n) => if n > u64::MAX {
                u64::MAX
            } else {
                n as u64
            },
        },
{
    match since {
        None => 0,
        Some(n) => if n > u64::MAX as u128 {
            u64::MAX
        } else {
            n as u64
        },
    }
}

/// A [`Reconciler`] together with the clock it samples. The origin of its
/// time scale is the moment of its making.
pub struct Metronome {
    clock: RealtimeNowSource,
    origin: Instant,
    reconciler: Reconciler,
}

impl View for Metronome {
    type V = Accounting;

    closed spec fn view(&self) -> Accounting {
        self.reconciler@
    }
}

impl Metronome {
    /// A metronome at tick zero that has taken no sample; `None` unless the
    /// rate is valid and the budget positive.
    pub fn new(tickrate: Rate, max_ticks_behind: u32) -> (r: Option<Metronome>)
        ensures
            r.is_some() <==> (tickrate.wf() && max_ticks_behind > 0),
            r.is_some() ==> r.unwrap()@ == (Accounting {
                rate: tickrate,
                lag_budget: max_ticks_behind,
                last_sample: None,
                remainder: 0,
                owed: 0,
                went_backwards: false,
                tick_counter: 0,
                frame_nanos: 0,
            }) && r.unwrap()@.wf(),
    {
        match Reconciler::new(tickrate, max_ticks_behind) {
            None => None,
            Some(reconciler) => {
                let mut clock = machine_clock();
                let origin = read_clock(&mut clock);
                Some(Metronome { clock, origin, reconciler })
            },
        }
    }

    /// Reads the clock once and takes the reading in. Returns the clock
    /// sample that the reading came to: whatever the clock said, the
    /// accounts are those that this sample leaves behind.
    pub fn sample(&mut self) -> (now: u64)
        requires
            old(self)@.wf(),
        ensures
            final(self)@ == old(self)@.after_sample(now),
            final(self)@.wf(),
    {
        let instant = read_clock(&mut self.clock);
        let since = match time_since(&instant, &self.origin) {
            Some(duration) => Some(whole_nanos(duration)),
            None => None,
        };
        let now = clock_sample(since);
        self.reconciler.sample(now);
        now
    }

    /// Hands out, in order, the readings that have fallen due, as
    /// [`Reconciler::drain`] does.
    pub fn drain(&mut self, mode: Mode) -> (events: Vec<Reading>)
        requires
            old(self)@.wf(),
            mode.wf(),
        ensures
            events@ == old(self)@.drain_events(mode),
            final(self)@ == old(self)@.after_drain(mode),
            final(self)@.wf(),
    {
        self.reconciler.drain(mode)
    }

    /// Ticks announced so far, modulo `2^64`.
    pub fn tick_counter(&self) -> (n: u64)
        ensures
            n == self@.tick_counter,
    {
        self.reconciler.tick_counter()
    }
}

} // verus!
