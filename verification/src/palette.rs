//! The colours that exhaust particles are painted in.

use vstd::prelude::*;

verus! {

/// A named colour. The host maps each name to the colour value of its renderer.
#[derive(Clone, Copy, PartialEq, Eq, Debug, Structural)]
pub enum Shade {
    Yellow,
    Orange,
    Red,
    White,
    Gray,
    Black,
}

/// Number of colours that exhaust is drawn from: the first `PALETTE_SIZE`
/// entries of [`Shade::at`].
pub const PALETTE_SIZE: u32 = 5;

impl Shade {
    /// The colour in place `index` of the exhaust palette, and black beyond it.
    pub open spec fn at(index: u32) -> Shade {
        if index == 0 {
            Shade::Yellow
        } else if index == 1 {
            Shade::Orange
        } else if index == 2 {
            Shade::Red
        } else if index == 3 {
            Shade::White
        } else if index == 4 {
            Shade::Gray
        } else {
            Shade::Black
        }
    }

    /// Picks the palette colour for a drawn index.
    pub fn from_index(index: u32) -> (shade: Shade)
        ensures
            shade == Shade::at(index),
            index < PALETTE_SIZE ==> shade != Shade::Black,
    {
        match index {
            0 => Shade::Yellow,
            1 => Shade::Orange,
            2 => Shade::Red,
            3 => Shade::White,
            4 => Shade::Gray,
            _ => Shade::Black,
        }
    }
}

} // verus!
