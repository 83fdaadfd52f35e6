//! The simulation core of a small lunar-lander game.
//!
//! Lengths, speeds, lifetimes and fuel are fixed-point integers: one whole
//! unit (a pixel, a tick of particle lifetime, a kilogram of fuel) is
//! [`units::UNIT`] steps, so 1.25 is the integer 1 250 000. Masses are whole
//! grams. Sums that leave the 64-bit range stop at its ends.
//!
//! The crate holds no window, no keyboard and no clock. Once per frame a host
//! reads the keys and calls [`lander::Lander::movement`], paints what
//! [`lander::Lander::draw`] hands back, and then calls
//! [`game::Game::lunar_gravity`], in this order: gravity sets the speed of
//! fall that the next frame's movement applies.

pub mod units;
pub mod palette;
pub mod random;
pub mod particle;
pub mod particles;
pub mod lander;
pub mod game;
