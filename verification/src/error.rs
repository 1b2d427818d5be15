//! The ways in which rendering a tile can fail.

use vstd::prelude::*;

verus! {

/// A fatal error. The first one ends the run: no image is produced.
#[derive(Clone, Copy, Debug, PartialEq, Eq, Structural)]
pub enum RenderError {
    /// A line does not begin with one of the command codes `T`, `L`, `P`.
    Protocol,
    /// A line's payload is not JSON, or not the kind of JSON value that its
    /// command code calls for.
    Payload,
    /// A layer's `marker-fill` is not `#` followed by six or eight
    /// hexadecimal digits.
    ColorFormat,
    /// The finished tile could not be encoded as an image.
    Encode,
}

} // verus!
