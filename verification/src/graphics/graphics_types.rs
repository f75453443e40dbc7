//! Plain graphics values.

use vstd::prelude::*;

verus! {

/// An 8-bit color, two bits per channel, alpha in the top bits — the packed
/// form the foreign runtime draws with.
#[derive(Clone, Copy, Debug, PartialEq, Eq, Structural)]
pub struct Color8 {
    /// The packed alpha, red, green and blue channels.
    pub argb: u8,
}

} // verus!
