use vstd::prelude::*;

use crate::angle::spec_step;
use crate::angle::Angle;
use crate::direction::Direction;
use crate::direction::DirectionSource;
use crate::velocity::spec_slide;
use crate::velocity::Velocity;

verus! {

/// A per-update driver for one encoder: it owns the angle accumulator, the
/// velocity window and the external direction source, and advances the first
/// two on every decoded event. Timestamps are monotonic millisecond counts
/// supplied by the caller; the session never reads a clock.
pub struct Encoder<S: DirectionSource> {
    /// The external quadrature decoder.
    pub hardware: S,
    /// The current angular position.
    pub angle: Angle,
    /// The sliding two-sample window behind velocity estimates.
    pub velocity: Velocity,
}

impl<S: DirectionSource> Encoder<S> {
    /// The velocity window is well formed and measures position on the same
    /// scale as the angle accumulator.
    pub open spec fn wf(self) -> bool {
        &&& self.velocity.wf()
        &&& self.velocity.final_angle.counts_per_rev == self.angle.counts_per_rev
    }

    /// Creates a session assuming the encoder starts at rest: the velocity
    /// window holds the starting sample at both ends, so the implied initial
    /// velocity is zero.
    pub fn new(
        hardware: S,
        starting_angle: Angle,
        initial_time_since_epoch_milli_sec: u32,
    ) -> (r: Encoder<S>)
        ensures
            r.hardware == hardware,
            r.angle == starting_angle,
            r.velocity.initial_time_since_epoch_milli_sec == initial_time_since_epoch_milli_sec,
            r.velocity.final_time_since_epoch_milli_sec == initial_time_since_epoch_milli_sec,
            r.velocity.initial_angle == starting_angle,
            r.velocity.final_angle == starting_angle,
            r.wf(),
    {
        let velocity = Velocity::new(
            initial_time_since_epoch_milli_sec,
            initial_time_since_epoch_milli_sec,
            starting_angle,
            starting_angle,
        );
        Encoder { hardware, angle: starting_angle, velocity }
    }

    /// One pulse: asks the direction source to decode the transition that
    /// caused it, applies the decoded direction to the angle, then slides the
    /// velocity window to the new angle and the given timestamp, and hands
    /// the direction back for diagnostics.
    ///
    /// A decode error is propagated verbatim and leaves the angle and the
    /// velocity window unmodified; the caller may simply retry on the next
    /// event. A `NoMotion` direction leaves the angle's counts unchanged but
    /// still slides the window, so the timestamps advance while the angle
    /// value in the window stays the same.
    pub fn update(&mut self, current_time_since_epoch_milli_sec: u32) -> (r: Result<
        Direction,
        S::Error,
    >)
        requires
            old(self).wf(),
        ensures
            final(self).wf(),
            final(self).angle.counts_per_rev == old(self).angle.counts_per_rev,
            r is Err ==> final(self).angle == old(self).angle,
            r is Err ==> final(self).velocity == old(self).velocity,
            r is Ok ==> final(self).angle.counts == spec_step(old(self).angle.counts as int, r->Ok_0),
            r is Ok ==> final(self).velocity == spec_slide(
                old(self).velocity,
                final(self).angle,
                current_time_since_epoch_milli_sec,
            ),
    {
        let direction = match self.hardware.decode() {
            Ok(direction) => direction,
            Err(e) => {
                return Err(e);
            },
        };
        self.angle.update(direction);
        self.velocity.update(self.angle, current_time_since_epoch_milli_sec);
        Ok(direction)
    }

    /// A mutable reference to the underlying direction source, so the caller
    /// can reach the hardware, for instance to clear pending interrupt bits.
    pub fn hardware(&mut self) -> (r: &mut S)
        ensures
            *r == old(self).hardware,
            final(self).hardware == *final(r),
            final(self).angle == old(self).angle,
            final(self).velocity == old(self).velocity,
    {
        &mut self.hardware
    }

    /// The current angle of the encoder.
    pub fn angle(&self) -> (r: &Angle)
        ensures
            *r == self.angle,
    {
        &self.angle
    }

    /// Samples the velocity at the caller's own cadence: completes the
    /// outgoing window with the supplied current sample, returns that window
    /// as the velocity snapshot, and only then advances the internal window
    /// past it — afterwards the internal window holds the current sample at
    /// both ends. The snapshot reflects the window before the advance.
    pub fn velocity(&mut self, current_angle: Angle, current_time_since_epoch_milli_sec: u32) -> (r:
        Velocity)
        requires
            old(self).wf(),
            current_angle.counts_per_rev == old(self).angle.counts_per_rev,
        ensures
            r.initial_time_since_epoch_milli_sec
                == old(self).velocity.initial_time_since_epoch_milli_sec,
            r.final_time_since_epoch_milli_sec == current_time_since_epoch_milli_sec,
            r.initial_angle == old(self).velocity.initial_angle,
            r.final_angle == current_angle,
            r.wf(),
            final(self).velocity.initial_time_since_epoch_milli_sec
                == current_time_since_epoch_milli_sec,
            final(self).velocity.final_time_since_epoch_milli_sec
                == current_time_since_epoch_milli_sec,
            final(self).velocity.initial_angle == current_angle,
            final(self).velocity.final_angle == current_angle,
            final(self).angle == old(self).angle,
            final(self).hardware == old(self).hardware,
            final(self).wf(),
    {
        self.velocity.final_time_since_epoch_milli_sec = current_time_since_epoch_milli_sec;
        self.velocity.final_angle = current_angle;
        let calculated_velocity = self.velocity;
        self.velocity.update(current_angle, current_time_since_epoch_milli_sec);
        calculated_velocity
    }
}

/// A `NoMotion` pulse moves time but not position: stepping an angle by
/// `NoMotion` leaves its counts unchanged, and sliding a window whose final
/// sample holds that angle keeps the same angle value at both window ends
/// while the timestamps advance.
pub proof fn lemma_no_motion_pulse(v: Velocity, a: Angle, t: u32)
    requires
        v.final_angle == a,
    ensures
        spec_step(a.counts as int, Direction::NoMotion) == a.counts as int,
        spec_slide(v, a, t).initial_angle == a,
        spec_slide(v, a, t).final_angle == a,
        spec_slide(v, a, t).initial_time_since_epoch_milli_sec
            == v.final_time_since_epoch_milli_sec,
        spec_slide(v, a, t).final_time_since_epoch_milli_sec == t,
{
}

} // verus!
