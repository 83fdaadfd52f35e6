//! Random draws for new exhaust particles.

use vstd::prelude::*;
use crate::palette::{Shade, PALETTE_SIZE};

verus! {

/// Upper end, exclusive, of a new particle's speed: 40 units per tick.
pub const SPEED_LIMIT: u32 = 40_000_000;

/// Upper end, exclusive, of a new particle's lifetime: 5 ticks.
pub const LIFE_LIMIT: u32 = 5_000_000;

/// Upper end, exclusive, of a new particle's radius: 3 units.
pub const RADIUS_LIMIT: u32 = 3_000_000;

/// Calls `quad_rand::gen_range` on the unsigned 32-bit range from 0 to `high`.
///
/// Not proved: the generator multiplies `high` by its next 32-bit output over
/// 2^32, a fraction below one, and cuts the product off to a whole number. That
/// number is below `high` whenever `high` is positive, and 0 when `high` is 0.
/// Nothing is claimed about which value of the range comes out, and two calls
/// may differ.
#[verifier::external_body]
fn random_below(high: u32) -> (r: u32)
    ensures
        high > 0 ==> r < high,
        high == 0 ==> r == 0,
{
    quad_rand::gen_range(0u32, high)
}

/// The three quantities of a new particle that are left to chance.
#[derive(Clone, Copy, PartialEq, Eq, Debug)]
pub struct Spark {
    /// Distance covered per tick.
    pub speed: i64,
    /// Lifetime at birth.
    pub halflife: i64,
    /// Radius of the painted polygon.
    pub radius: u32,
}

impl Spark {
    /// Each quantity lies in the range it is drawn from.
    pub open spec fn in_range(self) -> bool {
        &&& 0 <= self.speed < SPEED_LIMIT
        &&& 0 <= self.halflife < LIFE_LIMIT
        &&& self.radius < RADIUS_LIMIT
    }

    /// Draws speed, lifetime and radius, each on its own.
    pub fn draw() -> (spark: Spark)
        ensures
            spark.in_range(),
    {
        let speed: u32 = random_below(SPEED_LIMIT);
        let halflife: u32 = random_below(LIFE_LIMIT);
        let radius: u32 = random_below(RADIUS_LIMIT);
        Spark { speed: speed as i64, halflife: halflife as i64, radius }
    }
}

/// Draws one colour of the exhaust palette.
pub fn draw_shade() -> (shade: Shade)
    ensures
        exists|index: u32| index < PALETTE_SIZE && shade == Shade::at(index),
        shade != Shade::Black,
{
    Shade::from_index(random_below(PALETTE_SIZE))
}

} // verus!
