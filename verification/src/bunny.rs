//! One bunny: where it is, how fast it moves, how it is launched and how a
//! tick moves it.

use crate::random::{draw_below, flip};
use crate::units::{within_limit, Point2, Vector2, GRAVITY, LIMIT, SUBPIXELS};
use rand::rngs::ThreadRng;
use vstd::prelude::*;

verus! {

/// Launch speeds are drawn from a range this wide on each axis: five pixels.
pub const LAUNCH_SPREAD: i64 = 5 * SUBPIXELS;

/// The vertical launch speed is the draw less this: two and a half pixels.
pub const LAUNCH_LIFT: i64 = 163_840;

/// Smallest extra impulse on landing: three pixels per tick.
pub const KICK_MIN: i64 = 3 * SUBPIXELS;

/// Width of the range the extra impulse is drawn from: four pixels per tick.
pub const KICK_SPREAD: i64 = 4 * SUBPIXELS;

/// A sprite in flight.
#[derive(Clone, Copy, Debug, PartialEq, Eq, Structural)]
pub struct Bunny {
    pub position: Point2,
    pub velocity: Vector2,
}

/// A coordinate after the move, held inside `[0, max]`.
pub open spec fn clamped(moved: int, max: int) -> int {
    if moved > max {
        max
    } else if moved < 0 {
        0
    } else {
        moved
    }
}

/// The speed along an axis whose walls reflect: reversed when the move left
/// `[0, max]`, unchanged otherwise.
pub open spec fn reflected(moved: int, speed: int, max: int) -> int {
    if moved > max || moved < 0 {
        -speed
    } else {
        speed
    }
}

/// The speed with which a bunny leaves the floor that it hit at speed `v`:
/// four fifths of it, reversed, the fraction below a subpixel dropped.
pub open spec fn rebound(v: int) -> int {
    if v >= 0 {
        -((4 * v) / 5)
    } else {
        (4 * (-v)) / 5
    }
}

/// The vertical speed after a tick, before any extra impulse: gravity is
/// added first; the floor then turns the fall into a rebound and the ceiling
/// stops the rise.
pub open spec fn vertical_speed_after(moved: int, speed: int, max: int) -> int {
    if moved > max {
        rebound(speed + GRAVITY)
    } else if moved < 0 {
        0
    } else {
        speed + GRAVITY
    }
}

/// The velocities a launch can give: `0 <= x < 5` and `-2.5 <= y < 2.5`
/// pixels per tick.
pub open spec fn is_launch_velocity(v: Vector2) -> bool {
    &&& 0 <= v.x < LAUNCH_SPREAD
    &&& -LAUNCH_LIFT <= v.y < LAUNCH_SPREAD - LAUNCH_LIFT
}

/// The extra impulses a landing can give: `3 <= k < 7` pixels per tick.
pub open spec fn is_kick(k: int) -> bool {
    KICK_MIN <= k < KICK_MIN + KICK_SPREAD
}

impl Bunny {
    /// Every component is within [`LIMIT`], so a tick's arithmetic fits.
    pub open spec fn in_range(self) -> bool {
        self.position.in_range() && self.velocity.in_range()
    }

    /// The bunny lies inside the box `[0, max_x] x [0, max_y]`.
    pub open spec fn in_bounds(self, max_x: int, max_y: int) -> bool {
        &&& 0 <= self.position.x <= max_x
        &&& 0 <= self.position.y <= max_y
    }

    /// Just launched: anywhere within the limit, at a launch velocity.
    pub open spec fn fresh(self) -> bool {
        self.position.in_range() && is_launch_velocity(self.velocity)
    }

    /// In the box, with speeds that a launched bunny can reach there: at most
    /// five pixels sideways, at most `max_y` plus three pixels downwards and
    /// `max_y` plus ten pixels upwards.
    pub open spec fn settled(self, max_x: int, max_y: int) -> bool {
        &&& self.in_bounds(max_x, max_y)
        &&& -LAUNCH_SPREAD <= self.velocity.x <= LAUNCH_SPREAD
        &&& -(max_y + 10 * SUBPIXELS) <= self.velocity.y <= max_y + 3 * SUBPIXELS
    }

    /// Whether this tick's move carries the bunny below the floor.
    pub open spec fn lands(self, max_y: int) -> bool {
        self.position.y + self.velocity.y > max_y
    }

    /// `next` is where a tick carries this bunny, whatever becomes of its
    /// vertical speed: moved by its velocity and held inside the box, the
    /// horizontal speed reflected at the side walls.
    pub open spec fn carried_to(self, next: Bunny, max_x: int, max_y: int) -> bool {
        &&& next.position.x == clamped(self.position.x + self.velocity.x, max_x)
        &&& next.position.y == clamped(self.position.y + self.velocity.y, max_y)
        &&& next.velocity.x == reflected(
            self.position.x + self.velocity.x,
            self.velocity.x as int,
            max_x,
        )
    }

    /// The vertical speed one tick later, before any extra impulse.
    pub open spec fn plain_speed(self, max_y: int) -> int {
        vertical_speed_after(self.position.y + self.velocity.y, self.velocity.y as int, max_y)
    }

    /// `next` is this bunny one tick later, before any extra impulse:
    /// carried along, gravity added, the vertical speed turned by the floor
    /// or stopped by the ceiling.
    pub open spec fn advances_to(self, next: Bunny, max_x: int, max_y: int) -> bool {
        &&& self.carried_to(next, max_x, max_y)
        &&& next.velocity.y == self.plain_speed(max_y)
    }

    /// `next` is this bunny with `impulse` taken from its vertical speed.
    pub open spec fn kicks_to(self, next: Bunny, impulse: int) -> bool {
        &&& next.position == self.position
        &&& next.velocity.x == self.velocity.x
        &&& next.velocity.y == self.velocity.y - impulse
    }

    /// `next` is a possible state of this bunny one tick later: the advance,
    /// followed, only if the bunny landed, by no kick or by one kick.
    pub open spec fn steps_to(self, next: Bunny, max_x: int, max_y: int) -> bool {
        &&& self.carried_to(next, max_x, max_y)
        &&& {
            ||| next.velocity.y == self.plain_speed(max_y)
            ||| self.lands(max_y) && is_kick(self.plain_speed(max_y) - next.velocity.y)
        }
    }

    /// A bunny at `(x, y)` whose velocity comes from two draws out of
    /// `[0, LAUNCH_SPREAD)`: the first is the horizontal speed, the second,
    /// less [`LAUNCH_LIFT`], the vertical one.
    pub fn from_draws(x: i64, y: i64, draw_x: u64, draw_y: u64) -> (b: Bunny)
        requires
            draw_x < LAUNCH_SPREAD,
            draw_y < LAUNCH_SPREAD,
        ensures
            b.position == (Point2 { x, y }),
            b.velocity.x == draw_x,
            b.velocity.y == draw_y - LAUNCH_LIFT,
            is_launch_velocity(b.velocity),
    {
        Bunny {
            position: Point2 { x, y },
            velocity: Vector2 { x: draw_x as i64, y: draw_y as i64 - LAUNCH_LIFT },
        }
    }

    /// Launches a bunny at `(x, y)` with a velocity drawn from `rng`.
    pub fn new(x: i64, y: i64, rng: &mut ThreadRng) -> (b: Bunny)
        ensures
            b.position == (Point2 { x, y }),
            is_launch_velocity(b.velocity),
    {
        let draw_x: u64 = draw_below(rng, LAUNCH_SPREAD as u64);
        let draw_y: u64 = draw_below(rng, LAUNCH_SPREAD as u64);
        Bunny::from_draws(x, y, draw_x, draw_y)
    }

    /// Moves the bunny by one tick, without the extra impulse, and reports
    /// whether it landed.
    pub fn advance(&mut self, max_x: i64, max_y: i64) -> (landed: bool)
        requires
            old(self).in_range(),
            0 <= max_x,
            0 <= max_y,
        ensures
            old(self).advances_to(*final(self), max_x as int, max_y as int),
            final(self).in_bounds(max_x as int, max_y as int),
            landed == old(self).lands(max_y as int),
    {
        self.position.x = self.position.x + self.velocity.x;
        self.position.y = self.position.y + self.velocity.y;
        self.velocity.y = self.velocity.y + GRAVITY;

        if self.position.x > max_x {
            self.velocity.x = -self.velocity.x;
            self.position.x = max_x;
        } else if self.position.x < 0 {
            self.velocity.x = -self.velocity.x;
            self.position.x = 0;
        }

        if self.position.y > max_y {
            self.velocity.y = if self.velocity.y >= 0 {
                -((4 * self.velocity.y) / 5)
            } else {
                (4 * (-self.velocity.y)) / 5
            };
            self.position.y = max_y;
            true
        } else {
            if self.position.y < 0 {
                self.velocity.y = 0;
                self.position.y = 0;
            }
            false
        }
    }

    /// Takes `impulse` from the vertical speed: an extra push upwards.
    pub fn kick(&mut self, impulse: i64)
        requires
            within_limit(old(self).velocity.y as int),
            within_limit(impulse as int),
        ensures
            old(self).kicks_to(*final(self), impulse as int),
    {
        self.velocity.y = self.velocity.y - impulse;
    }

    /// Moves the bunny by one tick. A bunny that lands gets, on a coin flip,
    /// an extra impulse upwards drawn from `rng`.
    pub fn integrate(&mut self, max_x: i64, max_y: i64, rng: &mut ThreadRng)
        requires
            old(self).in_range(),
            0 <= max_x,
            0 <= max_y,
        ensures
            old(self).steps_to(*final(self), max_x as int, max_y as int),
            final(self).in_bounds(max_x as int, max_y as int),
    {
        let landed = self.advance(max_x, max_y);
        if landed {
            if flip(rng) {
                let extra: u64 = draw_below(rng, KICK_SPREAD as u64);
                self.kick(KICK_MIN + extra as i64);
            }
        }
    }
}

/// A tick keeps a settled bunny settled and settles a fresh one: inside the
/// box the speeds never leave the range that [`Bunny::settled`] names, so the
/// simulation can run for any number of ticks without overflow.
pub proof fn lemma_step_settles(b: Bunny, next: Bunny, max_x: int, max_y: int)
    requires
        0 <= max_x,
        0 <= max_y,
        b.settled(max_x, max_y) || b.fresh(),
        b.steps_to(next, max_x, max_y),
    ensures
        next.settled(max_x, max_y),
{
}

} // verus!
