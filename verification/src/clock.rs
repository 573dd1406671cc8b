//! Relating the device's clock to this one, for `--video-buffer`.
//!
//! The device stamps every packet with a timestamp of its own. Releasing a
//! frame at the right moment means saying what that timestamp is worth in this
//! machine's time. The two clocks are taken to tick at the same rate, so all
//! that is kept is an additive offset, averaged: the first point is taken
//! whole, and the weight of a new one falls to 1/32 over the first
//! thirty-two.

use vstd::prelude::*;

verus! {

/// How many points the average is taken over, once it is up to speed.
pub const RANGE: i64 = 32;

/// Division rounding toward zero, as C and Rust divide signed integers.
pub open spec fn div_toward_zero(a: int, b: int) -> int
    recommends
        b > 0,
{
    if a >= 0 {
        a / b
    } else {
        -((-a) / b)
    }
}

/// The offset between the device's clock and this one, as an average.
pub struct Clock {
    /// How many points have gone in, saturating at `RANGE`. Zero means the
    /// clock has nothing to say yet.
    range: i64,
    /// system − stream, in microseconds.
    offset: i64,
}

impl Clock {
    #[verifier::type_invariant]
    spec fn wf(self) -> bool {
        0 <= self.range <= RANGE
    }

    /// How many points the estimate rests on, up to `RANGE`.
    pub closed spec fn points(self) -> int {
        if self.range < 0 {
            0
        } else if self.range > RANGE {
            RANGE as int
        } else {
            self.range as int
        }
    }

    /// The points a clock rests on are never fewer than none nor more than
    /// `RANGE`.
    pub proof fn points_in_range(self)
        ensures
            0 <= self.points() <= RANGE,
    {
    }

    /// The current estimate of system − stream, in microseconds.
    pub closed spec fn estimate(self) -> int {
        self.offset as int
    }

    /// The points and estimate after one more (system, stream) pair.
    pub open spec fn next_points(points: int) -> int {
        if points + 1 < RANGE { points + 1 } else { RANGE as int }
    }

    /// The weighted sum that `update` divides by `RANGE`: the old estimate
    /// weighted by the points it had, the new sample by what is left of
    /// `RANGE`.
    pub open spec fn weighted_sum(points: int, estimate: int, system: int, stream: int) -> int {
        let range = Self::next_points(points);
        estimate * (range - 1) + (system - stream) * (RANGE - range + 1)
    }

    /// The estimate after taking the pair (system, stream).
    pub open spec fn next_estimate(points: int, estimate: int, system: int, stream: int) -> int {
        div_toward_zero(Self::weighted_sum(points, estimate, system, stream), RANGE as int)
    }

    /// Whether `update(system, stream)` computes without leaving `i64`.
    pub open spec fn update_fits(self, system: int, stream: int) -> bool {
        let range = Self::next_points(self.points());
        &&& i64::MIN <= system - stream <= i64::MAX
        &&& i64::MIN <= self.estimate() * (range - 1) <= i64::MAX
        &&& i64::MIN <= (system - stream) * (RANGE - range + 1) <= i64::MAX
        &&& i64::MIN <= Self::weighted_sum(self.points(), self.estimate(), system, stream) <= i64::MAX
    }

    /// A clock that has seen nothing.
    pub fn new() -> (c: Self)
        ensures
            c.points() == 0,
            c.estimate() == 0,
    {
        Clock { range: 0, offset: 0 }
    }

    /// Whether it has seen anything at all.
    pub fn is_set(&self) -> (b: bool)
        ensures
            b == (self.points() > 0),
    {
        proof {
            use_type_invariant(self);
        }
        self.range > 0
    }

    /// Take one (system, stream) pair, both in microseconds.
    pub fn update(&mut self, system: i64, stream: i64)
        requires
            old(self).update_fits(system as int, stream as int),
        ensures
            final(self).points() == Self::next_points(old(self).points()),
            final(self).estimate() == Self::next_estimate(
                old(self).points(),
                old(self).estimate(),
                system as int,
                stream as int,
            ),
    {
        proof {
            use_type_invariant(&*self);
        }
        let range = if self.range + 1 < RANGE { self.range + 1 } else { RANGE };
        let sample = system - stream;
        let old_weight = range - 1;
        let new_weight = RANGE - range + 1;
        let offset = (self.offset * old_weight + sample * new_weight) / RANGE;
        self.range = range;
        self.offset = offset;
    }

    /// Whether `to_system_time(stream)` computes without leaving `i64`.
    pub open spec fn conversion_fits(self, stream: int) -> bool {
        i64::MIN <= stream + self.estimate() <= i64::MAX
    }

    /// See `update_fits`: whether a pair can be taken.
    pub fn can_update(&self, system: i64, stream: i64) -> (b: bool)
        ensures
            b == self.update_fits(system as int, stream as int),
    {
        proof {
            use_type_invariant(self);
        }
        let range: i128 = if self.range + 1 < RANGE { (self.range + 1) as i128 } else { RANGE as i128 };
        let sample = system as i128 - stream as i128;
        let lo = i64::MIN as i128;
        let hi = i64::MAX as i128;
        if sample < lo || sample > hi {
            return false;
        }
        assert(-0x8000_0000_0000_0000 * 32 <= self.offset as i128 * (range - 1) <= 0x7fff_ffff_ffff_ffff * 32) by (nonlinear_arith)
            requires
                1 <= range <= 32,
                i64::MIN <= self.offset <= i64::MAX;
        let held = self.offset as i128 * (range - 1);
        assert(-0x8000_0000_0000_0000 * 32 <= sample * (32 - range + 1) <= 0x7fff_ffff_ffff_ffff * 32) by (nonlinear_arith)
            requires
                1 <= range <= 32,
                i64::MIN <= sample <= i64::MAX;
        let fresh = sample * (RANGE as i128 - range + 1);
        lo <= held && held <= hi && lo <= fresh && fresh <= hi && lo <= held + fresh && held + fresh <= hi
    }

    /// See `conversion_fits`: whether a device timestamp can be converted.
    pub fn can_convert(&self, stream: i64) -> (b: bool)
        ensures
            b == self.conversion_fits(stream as int),
    {
        proof {
            use_type_invariant(self);
        }
        let sum = stream as i128 + self.offset as i128;
        i64::MIN as i128 <= sum && sum <= i64::MAX as i128
    }

    /// What a device timestamp is worth here, in microseconds; `None` before
    /// the first `update`, because there is nothing to add.
    pub fn to_system_time(&self, stream: i64) -> (r: Option<i64>)
        requires
            self.conversion_fits(stream as int),
        ensures
            r == (if self.points() > 0 {
                Some((stream + self.estimate()) as i64)
            } else {
                None::<i64>
            }),
    {
        proof {
            use_type_invariant(self);
        }
        if self.is_set() {
            Some(stream + self.offset)
        } else {
            None
        }
    }
}

impl Clone for Clock {
    fn clone(&self) -> (c: Self)
        ensures
            c.points() == self.points(),
            c.estimate() == self.estimate(),
    {
        proof {
            use_type_invariant(self);
        }
        Clock { range: self.range, offset: self.offset }
    }
}

impl Default for Clock {
    fn default() -> (c: Self)
        ensures
            c.points() == 0,
            c.estimate() == 0,
    {
        Clock::new()
    }
}

/// The first point is the whole estimate: a clock that has seen nothing takes
/// its first (system, stream) pair as the offset, exactly.
pub proof fn first_point_is_whole_estimate(system: int, stream: int)
    requires
        i64::MIN <= system - stream <= i64::MAX,
    ensures
        Clock::next_points(0) == 1,
        Clock::next_estimate(0, 0, system, stream) == system - stream,
{
    let s = system - stream;
    assert(Clock::weighted_sum(0, 0, system, stream) == s * 32);
    if s >= 0 {
        assert((s * 32) / 32 == s) by (nonlinear_arith);
    } else {
        assert((-(s * 32)) / 32 == -s) by (nonlinear_arith)
            requires s < 0;
    }
}

/// The weights always sum to `RANGE`, so a sample equal to the estimate
/// leaves the estimate where it is, at every step of the ramp.
pub proof fn steady_offset_stays(points: int, estimate: int, system: int, stream: int)
    requires
        0 < points <= RANGE,
        system - stream == estimate,
    ensures
        Clock::next_estimate(points, estimate, system, stream) == estimate,
{
    let range = Clock::next_points(points);
    let e = estimate;
    assert(e * (range - 1) + e * (32 - range + 1) == e * 32) by (nonlinear_arith);
    if e >= 0 {
        assert((e * 32) / 32 == e) by (nonlinear_arith);
    } else {
        assert((-(e * 32)) / 32 == -e) by (nonlinear_arith)
            requires e < 0;
    }
}

/// Once the average is up to speed, one new sample moves the estimate by a
/// thirty-second of the distance to it, rounded toward zero.
pub proof fn one_sample_moves_a_thirty_second(estimate: int, system: int, stream: int)
    ensures
        Clock::next_points(RANGE as int) == RANGE,
        Clock::next_estimate(RANGE as int, estimate, system, stream)
            == div_toward_zero(estimate * 31 + (system - stream), 32),
{
    let s = system - stream;
    assert(Clock::next_points(RANGE as int) == 32);
    assert(s * 1 == s) by (nonlinear_arith);
    assert(Clock::weighted_sum(RANGE as int, estimate, system, stream) == estimate * 31 + s);
}

/// The points of a clock that has taken `n` pairs since it was made.
pub open spec fn points_after(n: nat) -> int
    decreases n,
{
    if n == 0 {
        0
    } else {
        Clock::next_points(points_after((n - 1) as nat))
    }
}

/// A clock is set by its first pair and stays set: whatever it has seen, one
/// more pair leaves it set, and after `n` pairs it is set exactly when `n` is
/// not zero. (`to_system_time` gives a time exactly when the clock is set.)
pub proof fn a_clock_stays_set(c: Clock, n: nat)
    ensures
        Clock::next_points(c.points()) > 0,
        Clock::next_points(c.points()) >= c.points(),
        0 <= points_after(n) <= RANGE,
        (points_after(n) > 0) == (n > 0),
    decreases n,
{
    c.points_in_range();
    if n > 0 {
        a_clock_stays_set(c, (n - 1) as nat);
    }
}

} // verus!
