use vstd::prelude::*;

use crate::angle::Angle;
use crate::angle::Ratio;
use crate::angle::DEGREES_PER_REV;

verus! {

/// Milliseconds in one second: the factor between the caller's millisecond
/// timestamps and rates per second.
pub const MILLI_SEC_PER_SEC: u16 = 1000;

/// The recoverable errors of rate computation.
#[derive(Clone, Copy, Debug, PartialEq, Eq, Structural)]
pub enum Error {
    /// The window's final timestamp precedes its initial timestamp, so the
    /// duration subtraction would underflow; the rate is not computed.
    VelocityArithmeticOverflowWouldOccur,
}

/// The two most recent timestamped angle samples, used to estimate the
/// instantaneous rotational rate. Timestamps live in a monotonic millisecond
/// domain supplied by the caller.
///
/// The window always slides on an update, even when the new timestamp runs
/// backwards, so the caller's most recent sample is never silently lost;
/// rate computation instead fails explicitly on such an inverted window.
#[derive(Clone, Copy, Debug, PartialEq, Eq, Structural)]
pub struct Velocity {
    /// Timestamp of the older sample.
    pub initial_time_since_epoch_milli_sec: u32,
    /// Timestamp of the newer sample.
    pub final_time_since_epoch_milli_sec: u32,
    /// Angle of the older sample.
    pub initial_angle: Angle,
    /// Angle of the newer sample.
    pub final_angle: Angle,
}

/// The window slid forward by one sample: the old final sample becomes the
/// initial one and the new sample becomes final.
pub open spec fn spec_slide(v: Velocity, current_angle: Angle, current_time: u32) -> Velocity {
    Velocity {
        initial_time_since_epoch_milli_sec: v.final_time_since_epoch_milli_sec,
        final_time_since_epoch_milli_sec: current_time,
        initial_angle: v.final_angle,
        final_angle: current_angle,
    }
}

impl Velocity {
    /// Both samples measure position on the same scale. Mixing scales in one
    /// window is a programmer error, so this is a precondition of every
    /// operation that forms the window or reads a rate from it.
    pub open spec fn wf(self) -> bool {
        self.initial_angle.counts_per_rev == self.final_angle.counts_per_rev
    }

    /// The duration of the window is the difference of its timestamps; it is
    /// defined only when the timestamps are in order.
    pub open spec fn spec_delta_milli_sec(self) -> int {
        self.final_time_since_epoch_milli_sec - self.initial_time_since_epoch_milli_sec
    }

    /// The angular change across the window, in counts.
    pub open spec fn spec_delta_counts(self) -> int {
        self.final_angle.counts - self.initial_angle.counts
    }

    /// Creates a window from two timestamped samples. A session at rest
    /// passes the same sample twice, giving a degenerate window with zero
    /// implied velocity.
    pub fn new(
        initial_time_since_epoch_milli_sec: u32,
        final_time_since_epoch_milli_sec: u32,
        initial_angle: Angle,
        final_angle: Angle,
    ) -> (r: Velocity)
        requires
            initial_angle.counts_per_rev == final_angle.counts_per_rev,
        ensures
            r.initial_time_since_epoch_milli_sec == initial_time_since_epoch_milli_sec,
            r.final_time_since_epoch_milli_sec == final_time_since_epoch_milli_sec,
            r.initial_angle == initial_angle,
            r.final_angle == final_angle,
            r.wf(),
    {
        Velocity {
            initial_time_since_epoch_milli_sec,
            final_time_since_epoch_milli_sec,
            initial_angle,
            final_angle,
        }
    }

    /// Slides the window forward: the old final sample becomes the initial
    /// one and the given sample becomes final. The slide is unconditional —
    /// an out-of-order timestamp is recorded too, and surfaces later as an
    /// error of rate computation.
    pub fn update(&mut self, current_angle: Angle, current_time_since_epoch_milli_sec: u32)
        requires
            current_angle.counts_per_rev == old(self).final_angle.counts_per_rev,
        ensures
            *final(self) == spec_slide(*old(self), current_angle, current_time_since_epoch_milli_sec),
            final(self).wf(),
    {
        self.initial_angle = self.final_angle;
        self.final_angle = current_angle;
        self.initial_time_since_epoch_milli_sec = self.final_time_since_epoch_milli_sec;
        self.final_time_since_epoch_milli_sec = current_time_since_epoch_milli_sec;
    }

    /// The angular change and the duration of the window: the delta angle on
    /// the shared scale, and the elapsed milliseconds — or the overflow error
    /// when the final timestamp precedes the initial one, in which case no
    /// duration exists.
    fn angle_time_diffs(&self) -> (r: (Angle, Result<u32, Error>))
        requires
            self.wf(),
            i16::MIN <= self.spec_delta_counts() <= i16::MAX,
        ensures
            r.0.counts == self.spec_delta_counts(),
            r.0.counts_per_rev == self.final_angle.counts_per_rev,
            r.1 is Err <==> self.final_time_since_epoch_milli_sec
                < self.initial_time_since_epoch_milli_sec,
            r.1 is Err ==> r.1->Err_0 == Error::VelocityArithmeticOverflowWouldOccur,
            r.1 is Ok ==> r.1->Ok_0 == self.spec_delta_milli_sec(),
    {
        let delta_angle = self.final_angle.sub(self.initial_angle);
        if self.final_time_since_epoch_milli_sec < self.initial_time_since_epoch_milli_sec {
            return (delta_angle, Err(Error::VelocityArithmeticOverflowWouldOccur));
        }
        let delta_time_milli_sec = self.final_time_since_epoch_milli_sec
            - self.initial_time_since_epoch_milli_sec;
        (delta_angle, Ok(delta_time_milli_sec))
    }

    /// The rate in units of `pi` radians per second, as the exact ratio
    /// `r.num * pi / r.den`: the angular change in radians over the duration
    /// in seconds. Fails exactly when the window's timestamps are inverted;
    /// a zero-duration window is not an error and yields a zero denominator,
    /// which the caller's division maps to an infinite or undefined rate.
    pub fn radians_per_sec(&self) -> (r: Result<Ratio, Error>)
        requires
            self.wf(),
            i16::MIN <= self.spec_delta_counts() <= i16::MAX,
        ensures
            r is Err <==> self.final_time_since_epoch_milli_sec
                < self.initial_time_since_epoch_milli_sec,
            r is Err ==> r->Err_0 == Error::VelocityArithmeticOverflowWouldOccur,
            r is Ok ==> r->Ok_0.num == self.spec_delta_counts() * 2 * MILLI_SEC_PER_SEC,
            r is Ok ==> r->Ok_0.den == self.final_angle.counts_per_rev
                * self.spec_delta_milli_sec(),
    {
        let (delta_angle, delta_time_milli_sec) = self.angle_time_diffs();
        let delta_time_milli_sec = match delta_time_milli_sec {
            Ok(t) => t,
            Err(e) => {
                return Err(e);
            },
        };
        let radians = delta_angle.radians();
        proof {
            lemma_den_in_range(delta_angle.counts_per_rev as int, delta_time_milli_sec as int);
        }
        Ok(
            Ratio {
                num: radians.num * (MILLI_SEC_PER_SEC as i64),
                den: (delta_angle.counts_per_rev as u64) * (delta_time_milli_sec as u64),
            },
        )
    }

    /// The rate in degrees per second, as the exact ratio `r.num / r.den`:
    /// the angular change in degrees over the duration in seconds. Fails
    /// exactly when the window's timestamps are inverted; a zero-duration
    /// window is not an error and yields a zero denominator, which the
    /// caller's division maps to an infinite or undefined rate.
    pub fn degrees_per_sec(&self) -> (r: Result<Ratio, Error>)
        requires
            self.wf(),
            i16::MIN <= self.spec_delta_counts() <= i16::MAX,
        ensures
            r is Err <==> self.final_time_since_epoch_milli_sec
                < self.initial_time_since_epoch_milli_sec,
            r is Err ==> r->Err_0 == Error::VelocityArithmeticOverflowWouldOccur,
            r is Ok ==> r->Ok_0.num == self.spec_delta_counts() * DEGREES_PER_REV
                * MILLI_SEC_PER_SEC,
            r is Ok ==> r->Ok_0.den == self.final_angle.counts_per_rev
                * self.spec_delta_milli_sec(),
    {
        let (delta_angle, delta_time_milli_sec) = self.angle_time_diffs();
        let delta_time_milli_sec = match delta_time_milli_sec {
            Ok(t) => t,
            Err(e) => {
                return Err(e);
            },
        };
        let degrees = delta_angle.degrees();
        proof {
            lemma_den_in_range(delta_angle.counts_per_rev as int, delta_time_milli_sec as int);
        }
        Ok(
            Ratio {
                num: degrees.num * (MILLI_SEC_PER_SEC as i64),
                den: (delta_angle.counts_per_rev as u64) * (delta_time_milli_sec as u64),
            },
        )
    }

    /// The older sample's timestamp, exposed so the caller can reconstruct a
    /// window after rate computation reports an inverted one.
    pub fn initial_time_since_epoch_milli_sec(&self) -> (r: u32)
        ensures
            r == self.initial_time_since_epoch_milli_sec,
    {
        self.initial_time_since_epoch_milli_sec
    }

    /// The newer sample's timestamp, exposed so the caller can reconstruct a
    /// window after rate computation reports an inverted one.
    pub fn final_time_since_epoch_milli_sec(&self) -> (r: u32)
        ensures
            r == self.final_time_since_epoch_milli_sec,
    {
        self.final_time_since_epoch_milli_sec
    }

    /// The older sample's angle, exposed so the caller can reconstruct a
    /// window after rate computation reports an inverted one.
    pub fn initial_angle(&self) -> (r: Angle)
        ensures
            r == self.initial_angle,
    {
        self.initial_angle
    }

    /// The newer sample's angle, exposed so the caller can reconstruct a
    /// window after rate computation reports an inverted one.
    pub fn final_angle(&self) -> (r: Angle)
        ensures
            r == self.final_angle,
    {
        self.final_angle
    }
}

/// The denominator of a rate fits a `u64`: a scale of at most `u16::MAX`
/// counts per revolution times at most `u32::MAX` elapsed milliseconds.
proof fn lemma_den_in_range(counts_per_rev: int, delta_milli_sec: int)
    requires
        0 <= counts_per_rev <= u16::MAX,
        0 <= delta_milli_sec <= u32::MAX,
    ensures
        0 <= counts_per_rev * delta_milli_sec <= u16::MAX * (u32::MAX as int),
{
    assert(0 <= counts_per_rev * delta_milli_sec <= u16::MAX * (u32::MAX as int))
        by (nonlinear_arith)
        requires
            0 <= counts_per_rev <= u16::MAX,
            0 <= delta_milli_sec <= u32::MAX,
    ;
}

} // verus!
