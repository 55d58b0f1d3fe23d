use vstd::prelude::*;

use crate::direction::Direction;

verus! {

/// Degrees in one full revolution: the fixed scale between counts and degrees.
pub const DEGREES_PER_REV: u16 = 360;

/// An exact ratio `num / den`. Angles and rates are reported in this form so
/// that the verified core stays in integer arithmetic; a caller that wants a
/// floating-point reading performs the one division itself.
///
/// A `den` of zero can arise only for a rate over a zero-duration window,
/// where it stands for the undefined (infinite) rate the division yields.
#[derive(Clone, Copy, Debug, PartialEq, Eq, Structural)]
pub struct Ratio {
    /// Numerator.
    pub num: i64,
    /// Denominator.
    pub den: u64,
}

/// The angular position of the encoder: a free-running signed count of steps
/// from an arbitrary origin, scaled by `counts_per_rev` at read time. Counts
/// are never normalized or wrapped, so a position may exceed one revolution
/// in either sign direction.
#[derive(Clone, Copy, Debug, PartialEq, Eq, Structural)]
pub struct Angle {
    /// Counts of the rotary encoder relative to the origin.
    pub counts: i16,
    /// How many counts make up one full revolution.
    pub counts_per_rev: u16,
}

/// One step of the count accumulator. The counter saturates at the ends of
/// the `i16` range rather than wrapping or panicking: that is this library's
/// explicit overflow policy for the free-running counter.
pub open spec fn spec_step(counts: int, direction: Direction) -> int {
    match direction {
        Direction::CounterClockwise => if counts < i16::MAX { counts + 1 } else { counts },
        Direction::Clockwise => if counts > i16::MIN { counts - 1 } else { counts },
        Direction::NoMotion => counts,
    }
}

/// `n` steps of the count accumulator, all in the same direction.
pub open spec fn spec_run(counts: int, direction: Direction, n: nat) -> int
    decreases n,
{
    if n == 0 {
        counts
    } else {
        spec_step(spec_run(counts, direction, (n - 1) as nat), direction)
    }
}

impl Angle {
    /// The numerator of the position in degrees; the denominator is
    /// `counts_per_rev`.
    pub open spec fn spec_degrees_num(self) -> int {
        self.counts * DEGREES_PER_REV
    }

    /// The numerator of the position in units of `pi` radians; the
    /// denominator is `counts_per_rev`. The position in radians is
    /// `spec_radians_num() * pi / counts_per_rev`.
    pub open spec fn spec_radians_num(self) -> int {
        self.counts * 2
    }

    /// Creates an angle from the counts per revolution and the starting
    /// displacement, in counts, from the origin. `counts_per_rev` is not
    /// validated here; a zero scale only ever shows up as a zero denominator
    /// in the ratios read back.
    pub fn new(counts_per_rev: u16, origin_offset_counts: i16) -> (r: Angle)
        ensures
            r.counts == origin_offset_counts,
            r.counts_per_rev == counts_per_rev,
    {
        Angle { counts: origin_offset_counts, counts_per_rev }
    }

    /// Increments or decrements the counter depending on the direction,
    /// saturating at the ends of the `i16` range.
    pub fn update(&mut self, direction: Direction)
        ensures
            final(self).counts == spec_step(old(self).counts as int, direction),
            final(self).counts_per_rev == old(self).counts_per_rev,
    {
        match direction {
            Direction::CounterClockwise => {
                if self.counts < i16::MAX {
                    self.counts = self.counts + 1;
                }
            },
            Direction::Clockwise => {
                if self.counts > i16::MIN {
                    self.counts = self.counts - 1;
                }
            },
            Direction::NoMotion => {},
        }
    }

    /// The signed difference of two positions, as an angle on the shared
    /// scale. Subtracting positions on different scales is a programmer
    /// error, not a runtime condition, so sharing `counts_per_rev` is a
    /// precondition; so is the difference fitting the count type. For a
    /// runtime-checked form see [`Angle::checked_sub`].
    pub fn sub(self, other: Angle) -> (r: Angle)
        requires
            self.counts_per_rev == other.counts_per_rev,
            i16::MIN <= self.counts - other.counts <= i16::MAX,
        ensures
            r.counts == self.counts - other.counts,
            r.counts_per_rev == self.counts_per_rev,
    {
        Angle { counts: self.counts - other.counts, counts_per_rev: self.counts_per_rev }
    }

    /// The runtime-checked form of [`Angle::sub`]: `None` exactly when the
    /// scales differ or the difference does not fit the count type, so a
    /// mismatch can never yield a nonsensical delta.
    pub fn checked_sub(self, other: Angle) -> (r: Option<Angle>)
        ensures
            r is Some <==> (self.counts_per_rev == other.counts_per_rev
                && i16::MIN <= self.counts - other.counts <= i16::MAX),
            r is Some ==> r->0.counts == self.counts - other.counts,
            r is Some ==> r->0.counts_per_rev == self.counts_per_rev,
    {
        if self.counts_per_rev != other.counts_per_rev {
            return None;
        }
        let wide: i32 = (self.counts as i32) - (other.counts as i32);
        if wide < i16::MIN as i32 || wide > i16::MAX as i32 {
            return None;
        }
        Some(Angle { counts: wide as i16, counts_per_rev: self.counts_per_rev })
    }

    /// The position in degrees, as the exact ratio
    /// `counts * 360 / counts_per_rev`.
    pub fn degrees(&self) -> (r: Ratio)
        ensures
            r.num == self.spec_degrees_num(),
            r.den == self.counts_per_rev,
    {
        Ratio {
            num: (self.counts as i64) * (DEGREES_PER_REV as i64),
            den: self.counts_per_rev as u64,
        }
    }

    /// The position in radians, as the exact ratio
    /// `counts * 2 / counts_per_rev` of `pi`: the reading in radians is
    /// `r.num * pi / r.den`.
    pub fn radians(&self) -> (r: Ratio)
        ensures
            r.num == self.spec_radians_num(),
            r.den == self.counts_per_rev,
    {
        Ratio { num: (self.counts as i64) * 2, den: self.counts_per_rev as u64 }
    }
}

/// The degree and radian readings of one angle are consistent: both ratios
/// share the denominator `counts_per_rev`, and the radian numerator (in units
/// of `pi`) times 180 equals the degree numerator, which is exactly
/// `radians() == degrees() * pi / 180`.
pub proof fn lemma_degrees_radians_consistent(a: Angle)
    ensures
        a.spec_radians_num() * 180 == a.spec_degrees_num(),
{
}

proof fn lemma_run_clockwise(counts: int, n: nat)
    requires
        i16::MIN <= counts - n,
        counts <= i16::MAX,
    ensures
        spec_run(counts, Direction::Clockwise, n) == counts - n,
    decreases n,
{
    if n > 0 {
        lemma_run_clockwise(counts, (n - 1) as nat);
    }
}

proof fn lemma_run_counter_clockwise(counts: int, n: nat)
    requires
        i16::MIN <= counts,
        counts + n <= i16::MAX,
    ensures
        spec_run(counts, Direction::CounterClockwise, n) == counts + n,
    decreases n,
{
    if n > 0 {
        lemma_run_counter_clockwise(counts, (n - 1) as nat);
    }
}

/// Equal-and-opposite motion cancels: from any origin whose counts stay in
/// range throughout, `n` clockwise steps followed by `n` counter-clockwise
/// steps return the counter to where it started.
pub proof fn lemma_clockwise_then_counter_round_trip(counts: int, n: nat)
    requires
        i16::MIN <= counts - n,
        counts <= i16::MAX,
    ensures
        spec_run(spec_run(counts, Direction::Clockwise, n), Direction::CounterClockwise, n)
            == counts,
{
    lemma_run_clockwise(counts, n);
    lemma_run_counter_clockwise(counts - n, n);
}

/// Equal-and-opposite motion cancels, the other way round: `n`
/// counter-clockwise steps followed by `n` clockwise steps return the counter
/// to where it started, provided the counts stay in range throughout.
pub proof fn lemma_counter_then_clockwise_round_trip(counts: int, n: nat)
    requires
        i16::MIN <= counts,
        counts + n <= i16::MAX,
    ensures
        spec_run(spec_run(counts, Direction::CounterClockwise, n), Direction::Clockwise, n)
            == counts,
{
    lemma_run_counter_clockwise(counts, n);
    lemma_run_clockwise(counts + n, n);
}

} // verus!
