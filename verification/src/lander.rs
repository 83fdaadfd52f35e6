//! The lander: thrusters, fuel, velocity and the exhaust it trails.

use vstd::prelude::*;
use crate::palette::{Shade, PALETTE_SIZE};
use crate::particle::{Direction, Particle, Polygon};
use crate::particles::{all_active, polygons, stepped, survivors, Particles};
use crate::random::{draw_shade, Spark};
use crate::units::{plus, saturate};

verus! {

/// Fuel burned per tick by the main thruster, and the upward push it gives: 1.25.
pub const UP_RATE: i64 = 1_250_000;

/// Fuel burned per tick by a side thruster, and the sideways push it gives: 0.0075.
pub const SIDE_RATE: i64 = 7_500;

/// A thruster, named after the way it pushes the lander.
#[derive(Clone, Copy, PartialEq, Eq, Debug, Structural)]
pub enum Thruster {
    Up,
    Left,
    Right,
}

/// The lander and the particles it owns.
#[derive(PartialEq, Eq, Debug)]
pub struct Lander {
    /// Velocity: what is added to the position each tick.
    pub delta: (i64, i64),
    /// Thrust of the current tick.
    pub thrusters: (i64, i64),
    /// Width and height of the body.
    pub size: (u32, u32),
    /// Position of the upper left corner.
    pub point: (i64, i64),
    pub color: Shade,
    /// Mass in grams.
    pub mass: u32,
    /// Fuel left. Thrusters work while it is above zero; the last burn may
    /// take it below.
    pub fuel: i64,
    pub particles: Particles,
}

/// What a [`Lander`] holds, with its particles as a sequence.
pub struct LanderState {
    pub delta: (i64, i64),
    pub thrusters: (i64, i64),
    pub size: (u32, u32),
    pub point: (i64, i64),
    pub color: Shade,
    pub mass: u32,
    pub fuel: i64,
    pub particles: Seq<Particle>,
}

impl View for Lander {
    type V = LanderState;

    open spec fn view(&self) -> LanderState {
        LanderState {
            delta: self.delta,
            thrusters: self.thrusters,
            size: self.size,
            point: self.point,
            color: self.color,
            mass: self.mass,
            fuel: self.fuel,
            particles: self.particles@,
        }
    }
}

impl Clone for Lander {
    fn clone(&self) -> (copy: Lander)
        ensures
            copy@ == self@,
    {
        Lander {
            delta: self.delta,
            thrusters: self.thrusters,
            size: self.size,
            point: self.point,
            color: self.color,
            mass: self.mass,
            fuel: self.fuel,
            particles: self.particles.clone(),
        }
    }
}

/// What one frame shows of the lander.
#[derive(PartialEq, Eq, Debug)]
pub struct Frame {
    /// Where the sprite goes, painted first.
    pub sprite: (i64, i64),
    /// The exhaust, painted over it in this order.
    pub exhaust: Vec<Polygon>,
}

impl Thruster {
    /// The drift of the exhaust that the thruster emits.
    pub open spec fn exhaust_direction(self) -> Direction {
        match self {
            Thruster::Up => Direction::Down,
            Thruster::Left => Direction::Left,
            Thruster::Right => Direction::Right,
        }
    }

    /// Fuel that the thruster burns in a tick.
    pub open spec fn rate(self) -> i64 {
        match self {
            Thruster::Up => UP_RATE,
            Thruster::Left => SIDE_RATE,
            Thruster::Right => SIDE_RATE,
        }
    }
}

impl LanderState {
    /// The state after the thruster has burned its fuel and set its part of
    /// the thrust, or the same state where the fuel is used up.
    pub open spec fn burned(self, thruster: Thruster) -> LanderState {
        if self.fuel > 0 {
            LanderState {
                fuel: (self.fuel - thruster.rate()) as i64,
                thrusters: match thruster {
                    Thruster::Up => (self.thrusters.0, (-UP_RATE) as i64),
                    Thruster::Left => ((-SIDE_RATE) as i64, self.thrusters.1),
                    Thruster::Right => (SIDE_RATE, self.thrusters.1),
                },
                ..self
            }
        } else {
            self
        }
    }

    /// The state after a request for thrust: with fuel, the thruster burns and
    /// the whole thrust is added to the velocity; without, nothing changes.
    pub open spec fn thrusted(self, thruster: Thruster) -> LanderState {
        if self.fuel > 0 {
            let lit = self.burned(thruster);
            LanderState {
                delta: (
                    saturate(lit.delta.0 + lit.thrusters.0),
                    saturate(lit.delta.1 + lit.thrusters.1),
                ),
                ..lit
            }
        } else {
            self
        }
    }

    /// The state after `n` requests for thrust from the same thruster.
    pub open spec fn thrusted_by(self, thruster: Thruster, n: nat) -> LanderState
        decreases n,
    {
        if n == 0 {
            self
        } else {
            self.thrusted_by(thruster, (n - 1) as nat).thrusted(thruster)
        }
    }

    /// Where the exhaust of a thruster leaves the body.
    pub open spec fn nozzle(self, thruster: Thruster) -> (i64, i64) {
        match thruster {
            Thruster::Up => (
                saturate(self.point.0 + self.size.0 / 2),
                saturate(self.point.1 + self.size.1),
            ),
            Thruster::Left => (
                saturate(self.point.0 + self.size.1),
                saturate(self.point.1 + self.size.1 / 2),
            ),
            Thruster::Right => (self.point.0, saturate(self.point.1 + self.size.1 / 2)),
        }
    }

    /// The particle that a firing thruster emits.
    pub open spec fn exhaust(self, thruster: Thruster, shade: Shade, spark: Spark) -> Particle {
        Particle::spawned(
            self.nozzle(thruster).0,
            self.nozzle(thruster).1,
            thruster.exhaust_direction(),
            shade,
            spark,
        )
    }

    /// The state after one thruster signal: with fuel, thrust as in
    /// [`Self::thrusted`] and one new particle at the end of the collection;
    /// without, nothing changes.
    pub open spec fn fired(self, thruster: Thruster, shade: Shade, spark: Spark) -> LanderState {
        if self.fuel > 0 {
            LanderState {
                particles: self.particles.push(self.exhaust(thruster, shade, spark)),
                ..self.thrusted(thruster)
            }
        } else {
            self
        }
    }

    /// The state with the thrust put back to zero.
    pub open spec fn idle(self) -> LanderState {
        LanderState { thrusters: (0, 0), ..self }
    }

    /// The state after the signals of one tick, taken in the order up, left,
    /// right; with no signal at all the thrust goes back to zero.
    pub open spec fn signalled(
        self,
        up: bool,
        left: bool,
        right: bool,
        shade: Shade,
        sparks: (Spark, Spark, Spark),
    ) -> LanderState {
        let after_up = if up {
            self.fired(Thruster::Up, shade, sparks.0)
        } else {
            self
        };
        let after_left = if left {
            after_up.fired(Thruster::Left, shade, sparks.1)
        } else {
            after_up
        };
        let after_right = if right {
            after_left.fired(Thruster::Right, shade, sparks.2)
        } else {
            after_left
        };
        if !up && !left && !right {
            after_right.idle()
        } else {
            after_right
        }
    }

    /// The state moved by its velocity, with its particles advanced and the
    /// inactive ones removed.
    pub open spec fn coasted(self) -> LanderState {
        LanderState {
            point: (saturate(self.point.0 + self.delta.0), saturate(self.point.1 + self.delta.1)),
            particles: survivors(stepped(self.particles)),
            ..self
        }
    }

    /// The state one tick later: signals first, then the move.
    pub open spec fn ticked(
        self,
        up: bool,
        left: bool,
        right: bool,
        shade: Shade,
        sparks: (Spark, Spark, Spark),
    ) -> LanderState {
        self.signalled(up, left, right, shade, sparks).coasted()
    }
}

/// Without fuel a thruster does nothing, however it is asked: the state stays
/// as it is, and with it the fuel, the velocity and the particles.
pub proof fn lemma_no_fuel_no_effect(
    state: LanderState,
    thruster: Thruster,
    shade: Shade,
    spark: Spark,
)
    requires
        state.fuel <= 0,
    ensures
        state.burned(thruster) == state,
        state.thrusted(thruster) == state,
        state.fired(thruster, shade, spark) == state,
{
}

/// Without fuel the signals of a tick, whichever are set, leave the fuel, the
/// velocity and the particles as they are.
pub proof fn lemma_no_fuel_no_thrust(
    state: LanderState,
    up: bool,
    left: bool,
    right: bool,
    shade: Shade,
    sparks: (Spark, Spark, Spark),
)
    requires
        state.fuel <= 0,
    ensures
        state.signalled(up, left, right, shade, sparks).fuel == state.fuel,
        state.signalled(up, left, right, shade, sparks).delta == state.delta,
        state.signalled(up, left, right, shade, sparks).particles == state.particles,
{
}

/// With fuel, a signal for the main thruster takes exactly [`UP_RATE`] from
/// the fuel and appends exactly one particle, which drifts down.
pub proof fn lemma_up_thrust_burns_and_emits(state: LanderState, shade: Shade, spark: Spark)
    requires
        state.fuel > 0,
    ensures
        state.fired(Thruster::Up, shade, spark).fuel == state.fuel - UP_RATE,
        state.fired(Thruster::Up, shade, spark).fuel < state.fuel,
        state.fired(Thruster::Up, shade, spark).particles.len() == state.particles.len() + 1,
        state.fired(Thruster::Up, shade, spark).particles.drop_last() == state.particles,
        state.fired(Thruster::Up, shade, spark).particles.last().direction == Direction::Down,
{
    let after = state.fired(Thruster::Up, shade, spark).particles;
    assert(after.drop_last() =~= state.particles);
}

/// While the fuel covers them, `n` requests for thrust burn `n` times the
/// thruster's rate. If that takes the fuel to exactly zero, the next request
/// changes nothing.
pub proof fn lemma_steady_burn(state: LanderState, thruster: Thruster, n: nat)
    requires
        state.fuel >= n * thruster.rate(),
    ensures
        state.thrusted_by(thruster, n).fuel == state.fuel - n * thruster.rate(),
        state.fuel == n * thruster.rate() ==> state.thrusted_by(thruster, n + 1)
            == state.thrusted_by(thruster, n),
    decreases n,
{
    let rate = thruster.rate() as int;
    if n > 0 {
        assert((n - 1) * rate == n * rate - rate) by (nonlinear_arith);
        lemma_steady_burn(state, thruster, (n - 1) as nat);
    } else {
        assert(n * rate == 0) by (nonlinear_arith)
            requires
                n == 0,
        ;
    }
    assert(state.thrusted_by(thruster, n + 1) == state.thrusted_by(thruster, n).thrusted(
        thruster,
    ));
}

impl Lander {
    /// Burns fuel in the main thruster and sets the upward thrust, while
    /// there is fuel.
    pub fn up(&mut self)
        ensures
            final(self)@ == old(self)@.burned(Thruster::Up),
    {
        if self.fuel > 0 {
            self.fuel = self.fuel - UP_RATE;
            self.thrusters.1 = -UP_RATE;
        }
    }

    /// Burns fuel in a side thruster and sets the thrust to the left, while
    /// there is fuel.
    pub fn left(&mut self)
        ensures
            final(self)@ == old(self)@.burned(Thruster::Left),
    {
        if self.fuel > 0 {
            self.fuel = self.fuel - SIDE_RATE;
            self.thrusters.0 = -SIDE_RATE;
        }
    }

    /// Burns fuel in a side thruster and sets the thrust to the right, while
    /// there is fuel.
    pub fn right(&mut self)
        ensures
            final(self)@ == old(self)@.burned(Thruster::Right),
    {
        if self.fuel > 0 {
            self.fuel = self.fuel - SIDE_RATE;
            self.thrusters.0 = SIDE_RATE;
        }
    }

    /// Handles a request for thrust: while there is fuel, the thruster burns
    /// and the thrust is added to the velocity. Without fuel nothing changes.
    pub fn thrusters(&mut self, direction: Thruster)
        ensures
            final(self)@ == old(self)@.thrusted(direction),
            old(self).fuel <= 0 ==> final(self)@ == old(self)@,
            old(self).fuel > 0 ==> final(self).fuel == old(self).fuel - direction.rate(),
    {
        if self.fuel > 0 {
            match direction {
                Thruster::Up => self.up(),
                Thruster::Left => self.left(),
                Thruster::Right => self.right(),
            }
            self.delta.0 = plus(self.delta.0, self.thrusters.0);
            self.delta.1 = plus(self.delta.1, self.thrusters.1);
        }
    }

    /// Handles one thruster signal. While there is fuel, the thruster fires as
    /// in [`Self::thrusters`] and one particle of the given colour and drawn
    /// quantities is appended at the thruster's nozzle. Without fuel nothing
    /// changes: not the fuel, not the velocity, not the particles.
    pub fn fire(&mut self, thruster: Thruster, shade: Shade, spark: Spark)
        ensures
            final(self)@ == old(self)@.fired(thruster, shade, spark),
            old(self).fuel <= 0 ==> final(self)@ == old(self)@,
            old(self).fuel > 0 ==> {
                &&& final(self).fuel == old(self).fuel - thruster.rate()
                &&& final(self).fuel < old(self).fuel
                &&& final(self).particles@ == old(self).particles@.push(
                    old(self)@.exhaust(thruster, shade, spark),
                )
                &&& final(self).particles@.last().direction == thruster.exhaust_direction()
            },
    {
        if self.fuel > 0 {
            let w: i64 = self.size.0 as i64;
            let h: i64 = self.size.1 as i64;
            let particle = match thruster {
                Thruster::Up => Particle::with_spark(
                    plus(self.point.0, w / 2),
                    plus(self.point.1, h),
                    Direction::Down,
                    shade,
                    spark,
                ),
                Thruster::Left => Particle::with_spark(
                    plus(self.point.0, h),
                    plus(self.point.1, h / 2),
                    Direction::Left,
                    shade,
                    spark,
                ),
                Thruster::Right => Particle::with_spark(
                    self.point.0,
                    plus(self.point.1, h / 2),
                    Direction::Right,
                    shade,
                    spark,
                ),
            };
            self.thrusters(thruster);
            self.particles.particles.push(particle);
        }
    }

    /// Advances the lander by one tick, with the colour and the particle
    /// quantities of the tick given. The signals are handled in the order up,
    /// left, right, each as in [`Self::fire`]; with no signal the thrust goes
    /// back to zero. Then the lander moves by its velocity, and its particles
    /// advance and the inactive ones are removed.
    pub fn movement_with(
        &mut self,
        up: bool,
        left: bool,
        right: bool,
        shade: Shade,
        sparks: (Spark, Spark, Spark),
    )
        ensures
            final(self)@ == old(self)@.ticked(up, left, right, shade, sparks),
            all_active(final(self)@.particles),
    {
        if up {
            self.fire(Thruster::Up, shade, sparks.0);
        }
        if left {
            self.fire(Thruster::Left, shade, sparks.1);
        }
        if right {
            self.fire(Thruster::Right, shade, sparks.2);
        }
        if !up && !left && !right {
            self.thrusters.0 = 0;
            self.thrusters.1 = 0;
        }
        self.point.0 = plus(self.point.0, self.delta.0);
        self.point.1 = plus(self.point.1, self.delta.1);
        self.particles.movement();
    }

    /// Advances the lander by one tick as [`Self::movement_with`] does, with
    /// one palette colour for the tick and the quantities of each new particle
    /// drawn at random.
    pub fn movement(&mut self, up: bool, left: bool, right: bool)
        ensures
            exists|index: u32, sparks: (Spark, Spark, Spark)|
                {
                    &&& index < PALETTE_SIZE
                    &&& sparks.0.in_range()
                    &&& sparks.1.in_range()
                    &&& sparks.2.in_range()
                    &&& final(self)@ == old(self)@.ticked(
                        up,
                        left,
                        right,
                        Shade::at(index),
                        sparks,
                    )
                },
            all_active(final(self)@.particles),
    {
        let shade = draw_shade();
        let unused = Spark { speed: 0, halflife: 0, radius: 0 };
        let for_up = if up { Spark::draw() } else { unused };
        let for_left = if left { Spark::draw() } else { unused };
        let for_right = if right { Spark::draw() } else { unused };
        self.movement_with(up, left, right, shade, (for_up, for_left, for_right));
    }

    /// What the frame shows: the sprite at the lander's position and the
    /// polygons of its active particles.
    pub fn draw(&self) -> (frame: Frame)
        ensures
            frame.sprite == self.point,
            frame.exhaust@ == polygons(survivors(self.particles@)),
    {
        Frame { sprite: self.point, exhaust: self.particles.draw() }
    }
}

} // verus!
