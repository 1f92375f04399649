//! The events a reconciler hands to its host loop.
use vstd::prelude::*;
use crate::rate::{Phase, Rate};

verus! {

/// One instruction to the host loop.
#[derive(Clone, Copy, Debug, PartialEq, Eq, Structural)]
pub enum Reading {
    /// Advance the simulation by exactly one fixed step.
    Tick,
    /// Render now, `phase` of the way from the previous tick to the current one.
    Frame { phase: Phase },
    /// The clock reported a time earlier than its previous report.
    TimeWentBackwards,
    /// `n` owed ticks were discarded because the lag budget was exceeded.
    TicksLost { n: u64 },
    /// The tick counter wrapped to zero on the tick just announced.
    Rollover,
    /// Nothing more is due for `duration` nanoseconds.
    Idle { duration: u64 },
}

/// How frames relate to ticks within one drain.
#[derive(Clone, Copy, Debug, PartialEq, Eq, Structural)]
pub enum Mode {
    /// One frame after each tick, and none without a tick.
    MaxOneFramePerTick,
    /// One frame at every tick boundary and one more at the present moment.
    UnlimitedFrames,
    /// At most one frame per drain, whenever a full frame period has passed.
    TargetFramesPerSecond(Rate),
}

impl Mode {
    /// A target frame rate, where there is one, is a valid rate.
    pub open spec fn wf(self) -> bool {
        match self {
            Mode::TargetFramesPerSecond(r) => r.wf(),
            _ => true,
        }
    }
}

/// What a [`Reading`] asks for, without its payload.
#[derive(Clone, Copy, Debug, PartialEq, Eq, Structural)]
pub enum Kind {
    Tick,
    Frame,
    TimeWentBackwards,
    TicksLost,
    Rollover,
    Idle,
}

impl Reading {
    /// The kind of this reading.
    pub open spec fn kind_of(self) -> Kind {
        match self {
            Reading::Tick => Kind::Tick,
            Reading::Frame { .. } => Kind::Frame,
            Reading::TimeWentBackwards => Kind::TimeWentBackwards,
            Reading::TicksLost { .. } => Kind::TicksLost,
            Reading::Rollover => Kind::Rollover,
            Reading::Idle { .. } => Kind::Idle,
        }
    }

    /// The kind of this reading.
    pub fn kind(&self) -> (k: Kind)
        ensures
            k == self.kind_of(),
    {
        match self {
            Reading::Tick => Kind::Tick,
            Reading::Frame { .. } => Kind::Frame,
            Reading::TimeWentBackwards => Kind::TimeWentBackwards,
            Reading::TicksLost { .. } => Kind::TicksLost,
            Reading::Rollover => Kind::Rollover,
            Reading::Idle { .. } => Kind::Idle,
        }
    }
}

/// Number of entries of `s` that are of kind `k`.
pub open spec fn count(s: Seq<Reading>, k: Kind) -> nat
    decreases s.len(),
{
    if s.len() == 0 {
        0
    } else {
        count(s.drop_last(), k) + if s.last().kind_of() == k { 1nat } else { 0nat }
    }
}

/// Counting distributes over concatenation.
pub proof fn lemma_count_concat(a: Seq<Reading>, b: Seq<Reading>, k: Kind)
    ensures
        count(a + b, k) == count(a, k) + count(b, k),
    decreases b.len(),
{
    if b.len() > 0 {
        assert((a + b).drop_last() =~= a + b.drop_last());
        lemma_count_concat(a, b.drop_last(), k);
    }
}

/// Counting over a single entry.
pub proof fn lemma_count_one(r: Reading, k: Kind)
    ensures
        count(seq![r], k) == if r.kind_of() == k { 1nat } else { 0nat },
{
    reveal_with_fuel(count, 2);
}

} // verus!
