//! The errors that the update cycle reports.
use vstd::prelude::*;

verus! {

/// A mutation was refused before any state changed.
#[derive(Clone, Copy, Debug, PartialEq, Eq, Structural)]
pub enum ConfigError {
    /// A grid dimension was zero.
    ZeroSize,
    /// The requested grid has more cells than the machine can index.
    TooManyCells,
    /// A generator parameter lies outside its allowed range.
    ParameterOutOfRange,
}

/// Why a terrain generation result was not taken into the shared state.
#[derive(Clone, Copy, Debug, PartialEq, Eq, Structural)]
pub enum GenerationError {
    /// The generator failed, or handed back a grid of other dimensions than
    /// the one it was given; the previous grid stays.
    GenerationFailure,
    /// The result belongs to a generation that a later change superseded.
    Stale,
}

} // verus!
