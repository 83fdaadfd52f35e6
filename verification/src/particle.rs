//! A single exhaust particle: it drifts, decays and expires.

use vstd::prelude::*;
use crate::palette::Shade;
use crate::random::Spark;
use crate::units::{minus, plus, saturate};

verus! {

/// Lifetime that a particle loses per tick: 1.25 ticks.
pub const DECAY: i64 = 1_250_000;

/// Number of sides of the polygon a particle is painted as.
pub const SIDES: u8 = 5;

/// The way a particle drifts, named after the thruster side that emits it.
#[derive(Clone, Copy, PartialEq, Eq, Debug, Structural)]
pub enum Direction {
    /// Horizontal coordinate grows.
    Left,
    /// Horizontal coordinate shrinks.
    Right,
    /// Vertical coordinate grows.
    Down,
}

/// A request to paint one filled regular polygon.
#[derive(Clone, Copy, PartialEq, Eq, Debug)]
pub struct Polygon {
    pub x: i64,
    pub y: i64,
    pub sides: u8,
    pub radius: u32,
    pub rotation: i64,
    pub color: Shade,
}

/// One particle of thruster exhaust.
#[derive(Clone, Copy, PartialEq, Eq, Debug)]
pub struct Particle {
    /// Distance covered per tick.
    pub speed: i64,
    pub direction: Direction,
    /// Whether the particle is still advanced and painted.
    pub active: bool,
    /// Remaining lifetime; the particle expires once this is below zero.
    pub halflife: i64,
    /// Position, horizontal then vertical.
    pub point: (i64, i64),
    pub sides: u8,
    pub radius: u32,
    pub rotation: i64,
    pub color: Shade,
}

impl Particle {
    /// The particle born at (`x`, `y`) with the drawn quantities of `spark`.
    pub open spec fn spawned(
        x: i64,
        y: i64,
        direction: Direction,
        color: Shade,
        spark: Spark,
    ) -> Particle {
        Particle {
            speed: spark.speed,
            direction,
            active: true,
            halflife: spark.halflife,
            point: (x, y),
            sides: SIDES,
            radius: spark.radius,
            rotation: 0,
            color,
        }
    }

    /// Where the particle is after one tick of drift.
    pub open spec fn drifted(self) -> (i64, i64) {
        match self.direction {
            Direction::Left => (saturate(self.point.0 + self.speed), self.point.1),
            Direction::Right => (saturate(self.point.0 - self.speed), self.point.1),
            Direction::Down => (self.point.0, saturate(self.point.1 + self.speed)),
        }
    }

    /// The particle one tick later: moved by its speed, older by [`DECAY`],
    /// and inactive if that leaves its lifetime below zero.
    pub open spec fn advanced(self) -> Particle {
        let halflife = saturate(self.halflife - DECAY);
        Particle {
            point: self.drifted(),
            halflife,
            active: self.active && halflife >= 0,
            ..self
        }
    }

    /// The particle `n` ticks later.
    pub open spec fn advanced_by(self, n: nat) -> Particle
        decreases n,
    {
        if n == 0 {
            self
        } else {
            self.advanced_by((n - 1) as nat).advanced()
        }
    }

    /// The polygon that shows the particle.
    pub open spec fn polygon(self) -> Polygon {
        Polygon {
            x: self.point.0,
            y: self.point.1,
            sides: self.sides,
            radius: self.radius,
            rotation: self.rotation,
            color: self.color,
        }
    }

    /// Builds the particle born at (`x`, `y`) from quantities already drawn.
    pub fn with_spark(x: i64, y: i64, direction: Direction, color: Shade, spark: Spark) -> (p:
        Particle)
        ensures
            p == Particle::spawned(x, y, direction, color, spark),
    {
        Particle {
            speed: spark.speed,
            direction,
            active: true,
            halflife: spark.halflife,
            point: (x, y),
            sides: SIDES,
            radius: spark.radius,
            rotation: 0,
            color,
        }
    }

    /// Creates an active particle at (`x`, `y`) whose speed, lifetime and
    /// radius are drawn at random from their ranges.
    pub fn new(x: i64, y: i64, direction: Direction, color: Shade) -> (p: Particle)
        ensures
            exists|spark: Spark|
                spark.in_range() && p == Particle::spawned(x, y, direction, color, spark),
    {
        let spark = Spark::draw();
        Particle::with_spark(x, y, direction, color, spark)
    }

    /// Advances the particle by one tick.
    pub fn movement(&mut self)
        ensures
            *final(self) == old(self).advanced(),
            !old(self).active ==> !final(self).active,
            final(self).halflife < 0 ==> !final(self).active,
            final(self).halflife <= old(self).halflife,
    {
        match self.direction {
            Direction::Left => {
                self.point.0 = plus(self.point.0, self.speed);
            },
            Direction::Right => {
                self.point.0 = minus(self.point.0, self.speed);
            },
            Direction::Down => {
                self.point.1 = plus(self.point.1, self.speed);
            },
        }
        self.halflife = minus(self.halflife, DECAY);
        if self.halflife < 0 {
            self.active = false;
        }
    }

    /// The paint request for the particle: its polygon while it is active,
    /// nothing once it is not.
    pub fn draw(&self) -> (request: Option<Polygon>)
        ensures
            request == (if self.active {
                Some(self.polygon())
            } else {
                None
            }),
    {
        if self.active {
            Some(
                Polygon {
                    x: self.point.0,
                    y: self.point.1,
                    sides: self.sides,
                    radius: self.radius,
                    rotation: self.rotation,
                    color: self.color,
                },
            )
        } else {
            None
        }
    }
}

/// A particle whose lifetime has dropped below zero in a tick is inactive
/// after that tick and after every later one, and its lifetime never comes
/// back up to zero.
pub proof fn lemma_expiry_is_final(p: Particle, n: nat)
    requires
        p.advanced().halflife < 0,
    ensures
        !p.advanced().advanced_by(n).active,
        p.advanced().advanced_by(n).halflife < 0,
    decreases n,
{
    if n > 0 {
        lemma_expiry_is_final(p, (n - 1) as nat);
    }
}

/// An inactive particle stays inactive however often it is advanced.
pub proof fn lemma_inactive_stays_inactive(p: Particle, n: nat)
    requires
        !p.active,
    ensures
        !p.advanced_by(n).active,
    decreases n,
{
    if n > 0 {
        lemma_inactive_stays_inactive(p, (n - 1) as nat);
    }
}

} // verus!
