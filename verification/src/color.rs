use vstd::prelude::*;

verus! {

/// The colour of one sticker. Colours are only ever compared for equality.
#[derive(Debug, Hash, Clone, Copy, PartialEq, Eq, Structural)]
pub enum Color {
    Yellow,
    Blue,
    Red,
    White,
    Orange,
    Green,
}

} // verus!
