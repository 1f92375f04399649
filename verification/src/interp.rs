//! Blending between the previous and the current value of a quantity.
//!
//! Positions and scales are signed fixed-point numbers. Angles are binary
//! angles: an unsigned 32-bit count of `1 / 2^32` turns, so that every value
//! is a direction and a full turn wraps to zero.
use vstd::prelude::*;
use crate::rate::Phase;

verus! {

/// Angle units in a full turn.
pub const FULL_TURN: i64 = 4_294_967_296;

/// Angle units in half a turn.
pub const HALF_TURN: i64 = 2_147_483_648;

/// The part of the signed distance `delta` covered at `phase`, rounded toward
/// zero.
pub open spec fn covered(delta: int, phase: Phase) -> int {
    if delta >= 0 {
        (delta * phase.num) / (phase.den as int)
    } else {
        -((-delta * phase.num) / (phase.den as int))
    }
}

/// Linear blend: `a` plus the covered part of the way to `b`.
pub open spec fn lerp_spec(a: int, b: int, phase: Phase) -> int {
    a + covered(b - a, phase)
}

/// The angle `turns` brought into `(-HALF_TURN, HALF_TURN]` by whole turns.
pub open spec fn short_arc(turns: int) -> int {
    let m = turns % (FULL_TURN as int);
    if m > HALF_TURN {
        m - FULL_TURN
    } else {
        m
    }
}

/// Shortest signed way from direction `b` to direction `a`.
pub open spec fn angle_subtract_spec(a: u32, b: u32) -> int {
    short_arc(a - b)
}

/// Direction reached from `a` after the covered part of the shortest way to
/// `b`.
pub open spec fn angle_lerp_spec(a: u32, b: u32, phase: Phase) -> int {
    (a + covered(angle_subtract_spec(b, a), phase)) % (FULL_TURN as int)
}

/// The covered part of a distance lies between nothing and all of it, is
/// nothing at phase zero, and leaves less than `1 - phase` of the distance,
/// plus rounding, still to go.
pub proof fn lemma_covered_bounds(delta: int, phase: Phase)
    requires
        phase.wf(),
    ensures
        delta >= 0 ==> 0 <= covered(delta, phase) <= delta,
        delta <= 0 ==> delta <= covered(delta, phase) <= 0,
        phase.num == 0 ==> covered(delta, phase) == 0,
        delta >= 0 ==> (delta - covered(delta, phase)) * phase.den <= delta * (phase.den
            - phase.num) + phase.den - 1,
        delta <= 0 ==> (covered(delta, phase) - delta) * phase.den <= -delta * (phase.den
            - phase.num) + phase.den - 1,
{
    let n = phase.num as int;
    let d = phase.den as int;
    let m = if delta >= 0 {
        delta
    } else {
        -delta
    };
    let q = (m * n) / d;
    assert(0 <= q <= m && (n == 0 ==> q == 0) && (m - q) * d <= m * (d - n) + d - 1)
        by (nonlinear_arith)
        requires
            0 <= n < d,
            m >= 0,
            q == (m * n) / d,
    ;
}

/// The covered part of the distance between two machine values.
fn cover(delta: u64, phase: Phase) -> (c: u64)
    requires
        phase.wf(),
    ensures
        c == covered(delta as int, phase),
        c <= delta,
{
    proof {
        lemma_covered_bounds(delta as int, phase);
    }
    let n: u64 = phase.num;
    assert(delta * n <= 0xffff_ffff_ffff_ffff * 0xffff_ffff_ffff_ffff) by (nonlinear_arith)
        requires
            delta <= 0xffff_ffff_ffff_ffff,
            n <= 0xffff_ffff_ffff_ffff,
    ;
    let wide: u128 = (delta as u128) * (n as u128);
    let c: u128 = wide / (phase.den as u128);
    c as u64
}

/// Linear blend from `a` toward `b` at `phase`, rounded toward `a`.
pub fn lerp(a: i64, b: i64, phase: Phase) -> (r: i64)
    requires
        phase.wf(),
    ensures
        r == lerp_spec(a as int, b as int, phase),
        a <= b ==> a <= r <= b,
        b <= a ==> b <= r <= a,
        phase.num == 0 ==> r == a,
{
    proof {
        lemma_covered_bounds(b - a, phase);
    }
    if b >= a {
        let delta: u64 = (b as i128 - a as i128) as u64;
        let c: u64 = cover(delta, phase);
        (a as i128 + c as i128) as i64
    } else {
        let delta: u64 = (a as i128 - b as i128) as u64;
        let c: u64 = cover(delta, phase);
        (a as i128 - c as i128) as i64
    }
}

/// Shortest signed way from direction `b` to direction `a`, in
/// `(-HALF_TURN, HALF_TURN]`.
pub fn angle_subtract(a: u32, b: u32) -> (r: i64)
    ensures
        r == angle_subtract_spec(a, b),
        -HALF_TURN < r <= HALF_TURN,
        (b + r - a) % (FULL_TURN as int) == 0,
{
    let m: i64 = if a >= b {
        a as i64 - b as i64
    } else {
        a as i64 - b as i64 + FULL_TURN
    };
    assert(m == (a - b) % (FULL_TURN as int)) by {
        if a >= b {
            vstd::arithmetic::div_mod::lemma_small_mod((a - b) as nat, FULL_TURN as nat);
        } else {
            vstd::arithmetic::div_mod::lemma_small_mod((a - b + FULL_TURN) as nat, FULL_TURN as nat);
            vstd::arithmetic::div_mod::lemma_mod_add_multiples_vanish(a - b, FULL_TURN as int);
        }
    }
    if m > HALF_TURN {
        m - FULL_TURN
    } else {
        m
    }
}

/// Direction reached from `a` after the part of the shortest way to `b` that
/// `phase` covers.
pub fn angle_lerp(a: u32, b: u32, phase: Phase) -> (r: u32)
    requires
        phase.wf(),
    ensures
        r == angle_lerp_spec(a, b, phase),
        phase.num == 0 ==> r == a,
{
    let delta: i64 = angle_subtract(b, a);
    proof {
        lemma_covered_bounds(delta as int, phase);
    }
    let step: i64 = if delta >= 0 {
        cover(delta as u64, phase) as i64
    } else {
        -(cover((-delta) as u64, phase) as i64)
    };
    let raw: i64 = a as i64 + step;
    let turned: i64 = if raw < 0 {
        raw + FULL_TURN
    } else if raw >= FULL_TURN {
        raw - FULL_TURN
    } else {
        raw
    };
    assert(turned == raw as int % (FULL_TURN as int)) by {
        vstd::arithmetic::div_mod::lemma_small_mod(turned as nat, FULL_TURN as nat);
        if raw < 0 {
            vstd::arithmetic::div_mod::lemma_mod_add_multiples_vanish(raw as int, FULL_TURN as int);
        } else if raw >= FULL_TURN {
            vstd::arithmetic::div_mod::lemma_mod_sub_multiples_vanish(raw as int, FULL_TURN as int);
        }
    }
    turned as u32
}

/// Where something is, which way it faces and how large it is shown.
#[derive(Clone, Copy, Debug, PartialEq, Eq, Structural)]
pub struct Placement {
    pub x: i64,
    pub y: i64,
    pub angle: u32,
    pub scale: i64,
}

impl Default for Placement {
    /// At the origin, facing along angle zero, with scale zero.
    fn default() -> (p: Placement)
        ensures
            p == (Placement { x: 0, y: 0, angle: 0, scale: 0 }),
    {
        Placement { x: 0, y: 0, angle: 0, scale: 0 }
    }
}

impl Placement {
    /// The placement shown at `phase` between `prev` and `self`: position
    /// blended linearly, angle along the shortest arc, scale taken from
    /// `self` unblended.
    pub open spec fn phased_spec(self, prev: Placement, phase: Phase) -> Placement {
        Placement {
            x: lerp_spec(prev.x as int, self.x as int, phase) as i64,
            y: lerp_spec(prev.y as int, self.y as int, phase) as i64,
            angle: angle_lerp_spec(prev.angle, self.angle, phase) as u32,
            scale: self.scale,
        }
    }

    /// The placement that `theta` of the way toward `target` leads to:
    /// position and scale blended linearly, angle along the shortest arc.
    pub open spec fn toward_spec(self, target: Placement, theta: Phase) -> Placement {
        Placement {
            x: lerp_spec(self.x as int, target.x as int, theta) as i64,
            y: lerp_spec(self.y as int, target.y as int, theta) as i64,
            angle: angle_lerp_spec(self.angle, target.angle, theta) as u32,
            scale: lerp_spec(self.scale as int, target.scale as int, theta) as i64,
        }
    }

    /// The placement to render at `phase` of the way from `prev_state`, the
    /// value one tick ago, to `self`, the value now.
    pub fn get_phased_transform(&self, prev_state: &Placement, phase: Phase) -> (r: Placement)
        requires
            phase.wf(),
        ensures
            r == self.phased_spec(*prev_state, phase),
            phase.num == 0 ==> r == (Placement { scale: self.scale, ..*prev_state }),
    {
        Placement {
            x: lerp(prev_state.x, self.x, phase),
            y: lerp(prev_state.y, self.y, phase),
            angle: angle_lerp(prev_state.angle, self.angle, phase),
            scale: self.scale,
        }
    }

    /// Moves `theta` of the way toward `target`.
    pub fn lerp_toward(&mut self, target: &Placement, theta: Phase)
        requires
            theta.wf(),
        ensures
            *final(self) == old(self).toward_spec(*target, theta),
            theta.num == 0 ==> *final(self) == *old(self),
    {
        self.x = lerp(self.x, target.x, theta);
        self.y = lerp(self.y, target.y, theta);
        self.scale = lerp(self.scale, target.scale, theta);
        self.angle = angle_lerp(self.angle, target.angle, theta);
    }
}

/// At phase zero a blend is the previous value exactly. At any phase it lies
/// between the two values, and what is left of the way to the current value
/// is at most the share `1 - phase` of the whole way, rounded up: as the phase
/// approaches one, the blend approaches the current value.
pub proof fn blend_runs_from_previous_to_current(prev: i64, cur: i64, phase: Phase)
    requires
        phase.wf(),
    ensures
        phase.num == 0 ==> lerp_spec(prev as int, cur as int, phase) == prev,
        prev <= cur ==> prev <= lerp_spec(prev as int, cur as int, phase) <= cur,
        cur <= prev ==> cur <= lerp_spec(prev as int, cur as int, phase) <= prev,
        prev <= cur ==> (cur - lerp_spec(prev as int, cur as int, phase)) * phase.den <= (cur
            - prev) * (phase.den - phase.num) + phase.den - 1,
        cur <= prev ==> (lerp_spec(prev as int, cur as int, phase) - cur) * phase.den <= (prev
            - cur) * (phase.den - phase.num) + phase.den - 1,
{
    lemma_covered_bounds(cur - prev, phase);
}

/// At phase zero an angular blend is the previous direction exactly, and at
/// any phase it departs from it by no more than half a turn, on the side of
/// the shorter arc.
pub proof fn angles_take_the_short_way(prev: u32, cur: u32, phase: Phase)
    requires
        phase.wf(),
    ensures
        phase.num == 0 ==> angle_lerp_spec(prev, cur, phase) == prev,
        -HALF_TURN < angle_subtract_spec(cur, prev) <= HALF_TURN,
        angle_subtract_spec(cur, prev) >= 0 ==> 0 <= covered(
            angle_subtract_spec(cur, prev),
            phase,
        ) <= angle_subtract_spec(cur, prev),
        angle_subtract_spec(cur, prev) <= 0 ==> angle_subtract_spec(cur, prev) <= covered(
            angle_subtract_spec(cur, prev),
            phase,
        ) <= 0,
{
    lemma_covered_bounds(angle_subtract_spec(cur, prev), phase);
    vstd::arithmetic::div_mod::lemma_small_mod(prev as nat, FULL_TURN as nat);
    vstd::arithmetic::div_mod::lemma_mod_bound(cur - prev, FULL_TURN as int);
}

} // verus!
