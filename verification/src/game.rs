//! The pull of the moon on the lander.

use vstd::prelude::*;
use vstd::arithmetic::div_mod::{
    lemma_basic_div, lemma_div_pos_is_pos, lemma_fundamental_div_mod, lemma_mod_bound,
};
use crate::lander::{Lander, LanderState};
use crate::units::saturate;

verus! {

/// Newton's constant, 6.673e-11, counted in steps of 1e-14.
pub const G_SCALED: u64 = 6673;

/// Factor that brings the force into a range that shows on screen.
pub const MODIFIER: u64 = 500_000_000;

/// What is left of the scales once masses in grams and distances in steps
/// have been put into the quotient and the result is wanted in steps.
pub const SCALE_DIVISOR: u64 = 100;

/// Offsets of at least this size give a speed of zero steps whatever the
/// masses are.
pub const FAR: i128 = 0x1000_0000_0000_0000;

/// The body that pulls.
#[derive(Clone, Copy, PartialEq, Eq, Debug)]
pub struct Moon {
    /// Mass in grams.
    pub mass: u32,
    pub radius: u64,
}

/// A lander above a moon.
#[derive(PartialEq, Eq, Debug)]
pub struct Game {
    pub lander: Lander,
    pub moon: Moon,
}

/// Horizontal offset of a lander at `x` from the middle of a screen of the
/// given width.
pub open spec fn offset_x(screen_width: u64, x: i64) -> int {
    screen_width / 2 - x
}

/// Vertical offset of a lander at `y` from the centre of the moon, which lies
/// its radius below the lower edge of a screen of the given height.
pub open spec fn offset_y(screen_height: u64, radius: u64, y: i64) -> int {
    screen_height + radius - y
}

/// The speed of fall that gravity sets for masses `m1` and `m2` at offsets
/// `a` and `b`: `G * m1 * m2 / d^2` with `d^2 = a^2 + b^2`, times
/// [`MODIFIER`], rounded down to a whole step and stopped at the largest
/// speed there is. At distance zero, where the quotient has no value, it is
/// that largest speed.
pub open spec fn pull(m1: u32, m2: u32, a: int, b: int) -> i64 {
    let d2 = a * a + b * b;
    if d2 == 0 {
        i64::MAX
    } else {
        saturate((G_SCALED * MODIFIER * m1 * m2) / (SCALE_DIVISOR * d2))
    }
}

/// Where the distance is not zero and the speed is below the largest there
/// is, the speed of fall is less than one step below the exact quotient and
/// never above it.
pub proof fn lemma_pull_error(m1: u32, m2: u32, a: int, b: int)
    requires
        a * a + b * b != 0,
        pull(m1, m2, a, b) < i64::MAX,
    ensures
        pull(m1, m2, a, b) * (SCALE_DIVISOR * (a * a + b * b)) <= G_SCALED * MODIFIER * m1 * m2,
        G_SCALED * MODIFIER * m1 * m2 < (pull(m1, m2, a, b) + 1) * (SCALE_DIVISOR * (a * a
            + b * b)),
        pull(m1, m2, a, b) >= 0,
{
    let numerator = G_SCALED * MODIFIER * m1 * m2;
    let divisor = SCALE_DIVISOR * (a * a + b * b);
    lemma_square_bounds(a);
    lemma_square_bounds(b);
    lemma_numerator(m1, m2);
    assert(divisor > 0);
    assert(numerator >= 0);
    lemma_fundamental_div_mod(numerator, divisor);
    lemma_mod_bound(numerator, divisor);
    lemma_div_pos_is_pos(numerator, divisor);
    let quotient = numerator / divisor;
    assert(quotient * divisor == divisor * quotient) by (nonlinear_arith);
    assert((quotient + 1) * divisor == divisor * quotient + divisor) by (nonlinear_arith);
}

/// `root` is the square root of `n`, rounded down.
pub open spec fn is_floor_sqrt(n: int, root: int) -> bool {
    0 <= root && root * root <= n < (root + 1) * (root + 1)
}

/// A number has at most one rounded-down square root.
pub proof fn lemma_floor_sqrt_unique(n: int, r: int, s: int)
    requires
        is_floor_sqrt(n, r),
        is_floor_sqrt(n, s),
    ensures
        r == s,
{
    if r < s {
        lemma_square_grows(r + 1, s);
    } else if s < r {
        lemma_square_grows(s + 1, r);
    }
}

proof fn lemma_square_grows(a: int, b: int)
    requires
        0 <= a <= b,
    ensures
        a * a <= b * b,
{
    assert(a * a <= b * b) by (nonlinear_arith)
        requires
            0 <= a <= b,
    ;
}

/// Computes the square root of `n`, rounded down.
pub fn floor_sqrt(n: u128) -> (root: u64)
    ensures
        is_floor_sqrt(n as int, root as int),
{
    let mut low: u128 = 0;
    let mut high: u128 = 0x1_0000_0000_0000_0000;
    assert(0x1_0000_0000_0000_0000int * 0x1_0000_0000_0000_0000int > u128::MAX);
    while high - low > 1
        invariant
            low < high <= 0x1_0000_0000_0000_0000,
            low * low <= n < high * high,
        decreases high - low,
    {
        let middle: u128 = low + (high - low) / 2;
        proof {
            lemma_square_grows(middle as int, 0xffff_ffff_ffff_ffff);
            assert(0xffff_ffff_ffff_ffffint * 0xffff_ffff_ffff_ffffint <= u128::MAX);
        }
        if middle * middle <= n {
            low = middle;
        } else {
            high = middle;
        }
    }
    low as u64
}

/// One part in this many is the largest error, relative to the true value,
/// that [`is_within_a_billionth`] allows.
pub const BILLION: u64 = 1_000_000_000;

/// From this many steps on, half a step is no more than a billionth of the
/// distance.
pub const HALF_BILLION: u64 = 500_000_000;

/// `root` is the square root of `n`, rounded to the nearest whole number: it
/// lies at most one half above the square root and less than one half below.
/// No square root of a whole number lies exactly between two whole numbers.
pub open spec fn is_nearest_sqrt(n: int, root: int) -> bool {
    &&& 0 <= root
    &&& root > 0 ==> (2 * root - 1) * (2 * root - 1) <= 4 * n
    &&& 4 * n < (2 * root + 1) * (2 * root + 1)
}

/// `root` differs from the square root of `n` by no more than a billionth of
/// that square root: `(1 - 1e-9) * sqrt(n) <= root <= (1 + 1e-9) * sqrt(n)`,
/// written over the squares.
pub open spec fn is_within_a_billionth(n: int, root: int) -> bool {
    &&& 0 <= root
    &&& (BILLION - 1) * (BILLION - 1) * n <= BILLION * BILLION * (root * root)
    &&& BILLION * BILLION * (root * root) <= (BILLION + 1) * (BILLION + 1) * n
}

/// A number has at most one nearest square root.
pub proof fn lemma_nearest_sqrt_unique(n: int, r: int, s: int)
    requires
        is_nearest_sqrt(n, r),
        is_nearest_sqrt(n, s),
    ensures
        r == s,
{
    if r < s {
        lemma_square_grows(2 * r + 1, 2 * s - 1);
    } else if s < r {
        lemma_square_grows(2 * s + 1, 2 * r - 1);
    }
}

/// The nearest square root of a number whose square root is [`HALF_BILLION`]
/// or more is within a billionth of the square root.
pub proof fn lemma_nearest_sqrt_is_close(n: int, root: int)
    requires
        is_nearest_sqrt(n, root),
        n >= HALF_BILLION * HALF_BILLION,
    ensures
        is_within_a_billionth(n, root),
{
    let t = BILLION as int;
    let m = 4 * n;
    let low = 2 * root - 1;
    let high = 2 * root + 1;
    assert(HALF_BILLION * HALF_BILLION * 4 == t * t);
    assert(m >= t * t);
    // The square root of m lies between low and high, and is t or more.
    assert(high > t) by {
        if high <= t {
            lemma_square_grows(high, t);
        }
    }
    assert(root > 0);
    assert(low * low <= m < high * high);
    // Upper side: t * 2 * root <= (t + 1) * sqrt(m).
    assert(t * t * (4 * (root * root)) <= (t + 1) * (t + 1) * m) by {
        if low >= t {
            assert((2 * t * root) * (2 * t * root) <= ((t + 1) * low) * ((t + 1) * low)) by {
                assert(2 * t * root <= (t + 1) * low) by (nonlinear_arith)
                    requires
                        low == 2 * root - 1,
                        low >= t,
                        t > 0,
                ;
                assert(0 <= 2 * t * root) by (nonlinear_arith)
                    requires
                        root > 0,
                        t > 0,
                ;
                lemma_square_grows(2 * t * root, (t + 1) * low);
            }
            assert(((t + 1) * low) * ((t + 1) * low) <= (t + 1) * (t + 1) * m)
                by (nonlinear_arith)
                requires
                    low * low <= m,
                    t > 0,
            ;
            assert((2 * t * root) * (2 * t * root) == t * t * (4 * (root * root)))
                by (nonlinear_arith);
        } else {
            assert(2 * root <= t);
            assert(t * t * (4 * (root * root)) <= (t + 1) * (t + 1) * m) by (nonlinear_arith)
                requires
                    0 < 2 * root <= t,
                    m >= t * t,
                    t > 0,
            ;
        }
    }
    // Lower side: (t - 1) * sqrt(m) <= t * 2 * root.
    assert((t - 1) * (t - 1) * m <= t * t * (4 * (root * root))) by {
        assert(2 * root >= t);
        assert(0 <= (t - 1) * high <= 2 * t * root) by (nonlinear_arith)
            requires
                high == 2 * root + 1,
                2 * root >= t,
                t > 1,
        ;
        lemma_square_grows((t - 1) * high, 2 * t * root);
        assert((t - 1) * (t - 1) * m <= ((t - 1) * high) * ((t - 1) * high)) by (nonlinear_arith)
            requires
                0 <= m < high * high,
                t > 1,
        ;
        assert((2 * t * root) * (2 * t * root) == t * t * (4 * (root * root)))
            by (nonlinear_arith);
    }
    assert((t - 1) * (t - 1) * n <= t * t * (root * root)) by (nonlinear_arith)
        requires
            (t - 1) * (t - 1) * (4 * n) <= t * t * (4 * (root * root)),
    ;
    assert(t * t * (root * root) <= (t + 1) * (t + 1) * n) by (nonlinear_arith)
        requires
            t * t * (4 * (root * root)) <= (t + 1) * (t + 1) * (4 * n),
    ;
}

/// Computes the square root of `n`, rounded to the nearest whole number.
pub fn nearest_sqrt(n: u128) -> (root: u128)
    ensures
        is_nearest_sqrt(n as int, root as int),
        root <= 0x1_0000_0000_0000_0000,
{
    let below: u128 = floor_sqrt(n) as u128;
    proof {
        let r = below as int;
        assert((2 * r - 1) * (2 * r - 1) == 4 * (r * r) - 4 * r + 1) by (nonlinear_arith);
        assert((2 * r + 1) * (2 * r + 1) == 4 * (r * r) + 4 * r + 1) by (nonlinear_arith);
        assert((2 * r + 3) * (2 * r + 3) == 4 * (r * r) + 12 * r + 9) by (nonlinear_arith);
        assert((r + 1) * (r + 1) == r * r + 2 * r + 1) by (nonlinear_arith);
    }
    // The square root is nearer to `below` as long as n < (below + 1/2)^2,
    // which for whole numbers is n <= below^2 + below.
    if n - below * below <= below {
        below
    } else {
        below + 1
    }
}

proof fn lemma_square_bounds(a: int)
    ensures
        a * a >= 0,
        a != 0 ==> a * a > 0,
        -FAR < a < FAR ==> a * a < FAR * FAR,
        a >= FAR || a <= -FAR ==> a * a >= FAR * FAR,
{
    assert(a * a >= 0) by (nonlinear_arith);
    assert(a != 0 ==> a * a > 0) by (nonlinear_arith);
    assert(-FAR < a < FAR ==> a * a < FAR * FAR) by (nonlinear_arith);
    assert(a >= FAR || a <= -FAR ==> a * a >= FAR * FAR) by (nonlinear_arith);
}

proof fn lemma_numerator(m1: u32, m2: u32)
    ensures
        0 <= m1 * m2 <= 0xffff_ffff * 0xffff_ffff,
        G_SCALED * MODIFIER == 3_336_500_000_000,
        G_SCALED * MODIFIER * m1 * m2 == (G_SCALED * MODIFIER) * (m1 * m2),
{
    assert(0 <= m1 * m2 <= 0xffff_ffff * 0xffff_ffff) by (nonlinear_arith)
        requires
            0 <= m1 <= 0xffff_ffff,
            0 <= m2 <= 0xffff_ffff,
    ;
    assert(G_SCALED * MODIFIER == 3_336_500_000_000);
    assert(3_336_500_000_000 * m1 * m2 == 3_336_500_000_000 * (m1 * m2)) by (nonlinear_arith);
}

/// Computes the speed of fall for masses `m1` and `m2` at offsets `a` and `b`.
pub fn fall_speed(m1: u32, m2: u32, a: i128, b: i128) -> (speed: i64)
    ensures
        speed == pull(m1, m2, a as int, b as int),
        speed >= 0,
{
    proof {
        lemma_square_bounds(a as int);
        lemma_square_bounds(b as int);
        lemma_numerator(m1, m2);
    }
    if a == 0 && b == 0 {
        return i64::MAX;
    }
    let constant: u128 = (G_SCALED as u128) * (MODIFIER as u128);
    let numerator: u128 = constant * ((m1 as u128) * (m2 as u128));
    if a >= FAR || a <= -FAR || b >= FAR || b <= -FAR {
        proof {
            lemma_basic_div(numerator as int, SCALE_DIVISOR * (a * a + b * b));
        }
        return 0;
    }
    let d2: i128 = a * a + b * b;
    let divisor: u128 = (SCALE_DIVISOR as u128) * (d2 as u128);
    let quotient: u128 = numerator / divisor;
    if quotient > i64::MAX as u128 {
        i64::MAX
    } else {
        quotient as i64
    }
}

impl Game {
    /// The offsets of the lander from the centre of the moon on a screen of
    /// the given size, horizontal then vertical.
    pub fn offsets(&self, screen_width: u64, screen_height: u64) -> (ab: (i128, i128))
        ensures
            ab.0 == offset_x(screen_width, self.lander.point.0),
            ab.1 == offset_y(screen_height, self.moon.radius, self.lander.point.1),
    {
        let a: i128 = (screen_width / 2) as i128 - self.lander.point.0 as i128;
        let b: i128 = screen_height as i128 + self.moon.radius as i128 - self.lander.point.1 as i128;
        (a, b)
    }

    /// The distance between the lander and the centre of the moon on a screen
    /// of the given size, `sqrt(a^2 + b^2)` rounded to the nearest whole step,
    /// for offsets `a` and `b` below [`FAR`]; nothing where an offset is that
    /// large or larger.
    ///
    /// The result is at most half a step off the true distance. From a
    /// distance of [`HALF_BILLION`] steps on that is at most a billionth of it.
    pub fn distance(&self, screen_width: u64, screen_height: u64) -> (d: Option<u64>)
        ensures
            ({
                let a = offset_x(screen_width, self.lander.point.0);
                let b = offset_y(screen_height, self.moon.radius, self.lander.point.1);
                match d {
                    Some(d) => {
                        &&& -FAR < a < FAR && -FAR < b < FAR
                        &&& is_nearest_sqrt(a * a + b * b, d as int)
                        &&& a * a + b * b >= HALF_BILLION * HALF_BILLION
                            ==> is_within_a_billionth(a * a + b * b, d as int)
                    },
                    None => !(-FAR < a < FAR && -FAR < b < FAR),
                }
            }),
    {
        let (a, b) = self.offsets(screen_width, screen_height);
        if a >= FAR || a <= -FAR || b >= FAR || b <= -FAR {
            return None;
        }
        proof {
            lemma_square_bounds(a as int);
            lemma_square_bounds(b as int);
        }
        let d2: i128 = a * a + b * b;
        let root: u128 = nearest_sqrt(d2 as u128);
        proof {
            if d2 >= HALF_BILLION * HALF_BILLION {
                lemma_nearest_sqrt_is_close(d2 as int, root as int);
            }
            if root > u64::MAX {
                lemma_square_grows(0xffff_ffff_ffff_ffff, 2 * root - 1);
            }
        }
        Some(root as u64)
    }

    /// Sets the lander's vertical velocity to the speed of fall at its
    /// distance from the moon, on a screen of the given size. The speed
    /// replaces the vertical velocity: it is not added to it. Everything else
    /// stays as it is.
    pub fn lunar_gravity(&mut self, screen_width: u64, screen_height: u64)
        ensures
            final(self).moon == old(self).moon,
            final(self).lander@ == (LanderState {
                delta: (
                    old(self).lander.delta.0,
                    pull(
                        old(self).lander.mass,
                        old(self).moon.mass,
                        offset_x(screen_width, old(self).lander.point.0),
                        offset_y(screen_height, old(self).moon.radius, old(self).lander.point.1),
                    ),
                ),
                ..old(self).lander@
            }),
    {
        let (a, b) = self.offsets(screen_width, screen_height);
        self.lander.delta.1 = fall_speed(self.lander.mass, self.moon.mass, a, b);
    }
}

} // verus!
