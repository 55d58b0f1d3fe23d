//! Angle and angular-velocity tracking for a quadrature rotary encoder.
//!
//! The library accumulates a signed count of decoded encoder steps, scales it
//! to an angle at read time, and estimates the rotational rate from a sliding
//! two-sample window of timestamped angles. Timestamps are monotonic
//! millisecond counts supplied by the caller; the library never reads a clock.
//! Quadrature decoding itself is an external collaborator reached through the
//! [`direction::DirectionSource`] trait.
//!
//! Angles and rates are reported as exact integer ratios ([`angle::Ratio`]);
//! converting them to floating point is left to the caller.

pub mod angle;
pub mod direction;
pub mod encoder;
pub mod velocity;

pub use angle::Angle;
pub use angle::Ratio;
pub use direction::Direction;
pub use direction::DirectionSource;
pub use encoder::Encoder;
pub use velocity::Error;
pub use velocity::Velocity;
