use vstd::prelude::*;

verus! {

/// The outcome of decoding one quadrature transition.
#[derive(Clone, Copy, Debug, PartialEq, Eq, Structural)]
pub enum Direction {
    /// One step in the clockwise direction.
    Clockwise,
    /// One step in the counter-clockwise direction.
    CounterClockwise,
    /// A transition that produced no net motion.
    NoMotion,
}

/// The external collaborator that decodes raw quadrature transitions into a
/// direction signal. The library never inspects pin levels itself; a caller
/// supplies an implementation (typically wrapping a hardware decoder).
///
/// Nothing is assumed of an implementation's answers: every verified caller
/// states what holds of its own state for each possible outcome.
pub trait DirectionSource {
    /// The hardware-read error reported when a transition cannot be decoded.
    type Error;

    /// Decodes the next quadrature transition, or reports a hardware-read
    /// error.
    fn decode(&mut self) -> Result<Direction, Self::Error>;
}

} // verus!
