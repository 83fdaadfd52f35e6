//! The collection of exhaust particles that a lander trails.

use vstd::prelude::*;
use crate::particle::{Particle, Polygon};

verus! {

/// The particles in flight, oldest first.
#[derive(PartialEq, Eq, Debug)]
pub struct Particles {
    pub particles: Vec<Particle>,
}

impl View for Particles {
    type V = Seq<Particle>;

    open spec fn view(&self) -> Seq<Particle> {
        self.particles@
    }
}

impl Clone for Particles {
    fn clone(&self) -> (copy: Particles)
        ensures
            copy@ == self@,
    {
        let mut particles: Vec<Particle> = Vec::new();
        let n: usize = self.particles.len();
        let mut i: usize = 0;
        while i < n
            invariant
                i <= n,
                n == self.particles@.len(),
                particles@ == self@.take(i as int),
            decreases n - i,
        {
            particles.push(self.particles[i]);
            assert(particles@ =~= self@.take(i + 1));
            i += 1;
        }
        assert(self@.take(n as int) =~= self@);
        Particles { particles }
    }
}

/// The active particles of `s`, in the order they have in `s`.
pub open spec fn survivors(s: Seq<Particle>) -> Seq<Particle> {
    s.filter(|p: Particle| p.active)
}

/// `s` with each active particle advanced by one tick and each inactive one
/// left as it is.
pub open spec fn stepped(s: Seq<Particle>) -> Seq<Particle> {
    s.map_values(
        |p: Particle|
            if p.active {
                p.advanced()
            } else {
                p
            },
    )
}

/// The polygons of `s`, one per particle, in order.
pub open spec fn polygons(s: Seq<Particle>) -> Seq<Polygon> {
    s.map_values(|p: Particle| p.polygon())
}

/// Every particle of `s` is active.
pub open spec fn all_active(s: Seq<Particle>) -> bool {
    forall|i: int| 0 <= i < s.len() ==> (#[trigger] s[i]).active
}

/// Taking one more particle into account either appends it to the survivors
/// or leaves them as they are.
proof fn lemma_survivors_take(s: Seq<Particle>, i: int)
    requires
        0 <= i < s.len(),
    ensures
        survivors(s.take(i + 1)) == if s[i].active {
            survivors(s.take(i)).push(s[i])
        } else {
            survivors(s.take(i))
        },
{
    reveal(Seq::filter);
    assert(s.take(i + 1).drop_last() =~= s.take(i));
}

/// Survivors are all active.
pub proof fn lemma_survivors_active(s: Seq<Particle>)
    ensures
        all_active(survivors(s)),
        survivors(s).len() <= s.len(),
    decreases s.len(),
{
    reveal(Seq::filter);
    if s.len() > 0 {
        lemma_survivors_active(s.drop_last());
    }
}

/// Where every particle is active, all of them survive.
pub proof fn lemma_survivors_of_active(s: Seq<Particle>)
    requires
        all_active(s),
    ensures
        survivors(s) == s,
    decreases s.len(),
{
    reveal(Seq::filter);
    if s.len() > 0 {
        lemma_survivors_of_active(s.drop_last());
        assert(s.drop_last().push(s.last()) =~= s);
    } else {
        assert(survivors(s) =~= s);
    }
}

/// Removing the inactive particles a second time removes nothing more.
pub proof fn lemma_cleanup_idempotent(s: Seq<Particle>)
    ensures
        survivors(survivors(s)) == survivors(s),
{
    lemma_survivors_active(s);
    lemma_survivors_of_active(survivors(s));
}

impl Particles {
    /// An empty collection.
    pub fn new() -> (made: Particles)
        ensures
            made@ == Seq::<Particle>::empty(),
    {
        Particles { particles: Vec::new() }
    }

    /// Advances every active particle by one tick, then removes those that are
    /// inactive.
    pub fn movement(&mut self)
        ensures
            final(self)@ == survivors(stepped(old(self)@)),
            all_active(final(self)@),
    {
        let n: usize = self.particles.len();
        let mut i: usize = 0;
        while i < n
            invariant
                i <= n,
                self.particles@.len() == n,
                old(self)@.len() == n,
                forall|j: int| 0 <= j < i ==> self.particles@[j] == stepped(old(self)@)[j],
                forall|j: int| i <= j < n ==> self.particles@[j] == old(self)@[j],
            decreases n - i,
        {
            let mut particle: Particle = self.particles[i];
            if particle.active {
                particle.movement();
                self.particles.set(i, particle);
            }
            i += 1;
        }
        assert(self.particles@ =~= stepped(old(self)@));
        self.cleanup();
    }

    /// The paint requests for the active particles, in order.
    pub fn draw(&self) -> (requests: Vec<Polygon>)
        ensures
            requests@ == polygons(survivors(self@)),
    {
        let mut requests: Vec<Polygon> = Vec::new();
        let n: usize = self.particles.len();
        let mut i: usize = 0;
        while i < n
            invariant
                i <= n,
                n == self.particles@.len(),
                requests@ == polygons(survivors(self@.take(i as int))),
            decreases n - i,
        {
            proof {
                lemma_survivors_take(self@, i as int);
            }
            match self.particles[i].draw() {
                Some(polygon) => {
                    requests.push(polygon);
                },
                None => {},
            }
            assert(requests@ =~= polygons(survivors(self@.take(i + 1))));
            i += 1;
        }
        assert(self@.take(n as int) =~= self@);
        requests
    }

    /// Removes every inactive particle and keeps the others in their order.
    pub fn cleanup(&mut self)
        ensures
            final(self)@ == survivors(old(self)@),
            all_active(final(self)@),
    {
        let mut kept: Vec<Particle> = Vec::new();
        let n: usize = self.particles.len();
        let mut i: usize = 0;
        while i < n
            invariant
                i <= n,
                n == self.particles@.len(),
                self.particles@ == old(self)@,
                kept@ == survivors(self@.take(i as int)),
            decreases n - i,
        {
            proof {
                lemma_survivors_take(self@, i as int);
            }
            let particle: Particle = self.particles[i];
            if particle.active {
                kept.push(particle);
            }
            i += 1;
        }
        proof {
            assert(self@.take(n as int) =~= self@);
            lemma_survivors_active(old(self)@);
        }
        self.particles = kept;
    }
}

} // verus!
