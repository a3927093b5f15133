//! A single particle and the three stages of its motion during one step:
//! reflection at the walls, gravity, and forward-Euler integration.

use vstd::prelude::*;
use crate::units::{LIMIT, saturate, saturated, scale_product, scaled_product, within_limit};

verus! {

/// Downward acceleration, in length units per second squared. Up is the
/// positive vertical direction.
pub const GRAVITY: i64 = 600;

/// A point particle: position `(x, y)` and velocity `(dx, dy)`.
#[derive(Clone, Copy, Debug, PartialEq, Eq, Structural)]
pub struct Particle {
    pub y: i64,
    pub x: i64,
    pub dy: i64,
    pub dx: i64,
}

/// Where a coordinate stands after reflection between the walls at `0` and
/// at `bound`. The lower wall is looked at first, then the upper one.
pub open spec fn reflected_position(pos: int, bound: int) -> int {
    let above_floor = if pos <= 0 { 0 } else { pos };
    if above_floor >= bound {
        bound
    } else {
        above_floor
    }
}

/// The velocity component after reflection between the walls at `0` and at
/// `bound`: negated once for each wall that the coordinate has reached.
pub open spec fn reflected_velocity(pos: int, vel: int, bound: int) -> int {
    let above_floor = if pos <= 0 { 0 } else { pos };
    let off_floor = if pos <= 0 { -vel } else { vel };
    if above_floor >= bound {
        -off_floor
    } else {
        off_floor
    }
}

/// Reflection puts a coordinate between the walls.
pub proof fn lemma_reflected_between_walls(pos: int, bound: int)
    requires
        0 <= bound,
    ensures
        0 <= reflected_position(pos, bound) <= bound,
        0 <= pos <= bound ==> reflected_position(pos, bound) == pos,
{
}

/// The law of reflection for one axis: a coordinate at or beyond a wall has
/// its velocity component negated, so the speed stays and the direction
/// turns. Left out is the one case in which both walls are reached at once,
/// a coordinate at or below the origin of an axis of length zero, unless
/// the component is zero.
pub proof fn lemma_reflection_turns(pos: int, vel: int, bound: int)
    requires
        0 <= bound,
        pos <= 0 || pos >= bound,
        bound > 0 || pos > 0 || vel == 0,
    ensures
        reflected_velocity(pos, vel, bound) == -vel,
{
}

/// A coordinate strictly between the walls keeps its velocity component,
/// and so does one that reaches both walls at once.
pub proof fn lemma_reflection_keeps(pos: int, vel: int, bound: int)
    requires
        0 <= bound,
        0 < pos < bound || (bound == 0 && pos <= 0),
    ensures
        reflected_velocity(pos, vel, bound) == vel,
{
}

impl Particle {
    /// Every component is a storable value.
    pub open spec fn within_limits(self) -> bool {
        &&& within_limit(self.y as int)
        &&& within_limit(self.x as int)
        &&& within_limit(self.dy as int)
        &&& within_limit(self.dx as int)
    }

    /// The position lies in the closed rectangle from `(0, 0)` to
    /// `(width, height)`.
    pub open spec fn inside(self, height: int, width: int) -> bool {
        &&& 0 <= self.y <= height
        &&& 0 <= self.x <= width
    }

    /// The particle after reflection at the walls of the rectangle.
    pub open spec fn reflected(self, height: int, width: int) -> Particle {
        Particle {
            y: reflected_position(self.y as int, height) as i64,
            x: reflected_position(self.x as int, width) as i64,
            dy: reflected_velocity(self.y as int, self.dy as int, height) as i64,
            dx: reflected_velocity(self.x as int, self.dx as int, width) as i64,
        }
    }

    /// The particle after gravity has acted on it for `dt`.
    pub open spec fn accelerated(self, dt: int) -> Particle {
        Particle { dy: saturated(self.dy - GRAVITY * dt) as i64, ..self }
    }

    /// The particle after it has moved with its velocity for `dt`.
    pub open spec fn moved(self, dt: int) -> Particle {
        Particle {
            y: saturated(self.y + scaled_product(self.dy as int, dt)) as i64,
            x: saturated(self.x + scaled_product(self.dx as int, dt)) as i64,
            ..self
        }
    }

    /// The particle after one whole step: reflection from where it stands,
    /// then gravity, then the move. The position that results is not
    /// reflected again, so it may lie outside the rectangle until the next
    /// step begins.
    pub open spec fn stepped(self, height: int, width: int, dt: int) -> Particle {
        self.reflected(height, width).accelerated(dt).moved(dt)
    }

    /// A particle at `(x, y)` with no velocity.
    pub fn at_rest(y: i64, x: i64) -> (p: Particle)
        ensures
            p == (Particle { y, x, dy: 0, dx: 0 }),
    {
        Particle { y, x, dy: 0, dx: 0 }
    }

    /// Reflects the particle at the walls of the rectangle: a coordinate at
    /// or beyond a wall is put on the wall and its velocity component is
    /// negated.
    pub fn collission_detection(p: &mut Particle, h: i64, w: i64)
        requires
            old(p).within_limits(),
            within_limit(h as int),
            within_limit(w as int),
        ensures
            *final(p) == old(p).reflected(h as int, w as int),
            final(p).within_limits(),
            final(p).y == reflected_position(old(p).y as int, h as int),
            final(p).x == reflected_position(old(p).x as int, w as int),
            final(p).dy == reflected_velocity(old(p).y as int, old(p).dy as int, h as int),
            final(p).dx == reflected_velocity(old(p).x as int, old(p).dx as int, w as int),
    {
        if p.y <= 0 {
            p.dy = -p.dy;
            p.y = 0;
        }
        if p.y >= h {
            p.dy = -p.dy;
            p.y = h;
        }
        if p.x <= 0 {
            p.dx = -p.dx;
            p.x = 0;
        }
        if p.x >= w {
            p.dx = -p.dx;
            p.x = w;
        }
    }

    /// Lets gravity act on the particle for `dt`.
    pub fn apply_gravity(p: &mut Particle, dt: i64)
        requires
            0 <= dt,
        ensures
            *final(p) == old(p).accelerated(dt as int),
            old(p).within_limits() ==> final(p).within_limits(),
    {
        assert(GRAVITY * dt == 600 * dt);
        let change: i128 = (GRAVITY as i128) * (dt as i128);
        p.dy = saturate(p.dy as i128 - change);
    }

    /// Moves the particle with its velocity for `dt`.
    pub fn apply_velocity(p: &mut Particle, dt: i64)
        requires
            0 <= dt,
        ensures
            *final(p) == old(p).moved(dt as int),
            old(p).within_limits() ==> final(p).within_limits(),
    {
        let along_x: i128 = scale_product(p.dx, dt);
        let along_y: i128 = scale_product(p.dy, dt);
        p.x = saturate(p.x as i128 + along_x);
        p.y = saturate(p.y as i128 + along_y);
    }

    /// Whether a step of `dt` ends inside the rectangle: the move that
    /// follows reflection and gravity carries the particle across no wall.
    pub open spec fn stays_inside(self, height: int, width: int, dt: int) -> bool {
        let q = self.reflected(height, width).accelerated(dt);
        &&& 0 <= q.y + scaled_product(q.dy as int, dt) <= height
        &&& 0 <= q.x + scaled_product(q.dx as int, dt) <= width
    }

    /// Reflection leaves the particle inside the rectangle and within the
    /// limits, and changes nothing of a position that is inside already.
    pub proof fn lemma_reflected_inside(self, height: int, width: int)
        requires
            self.within_limits(),
            0 <= height <= LIMIT,
            0 <= width <= LIMIT,
        ensures
            self.reflected(height, width).inside(height, width),
            self.reflected(height, width).within_limits(),
            self.inside(height, width) ==> self.reflected(height, width).y == self.y
                && self.reflected(height, width).x == self.x,
    {
        lemma_reflected_between_walls(self.y as int, height);
        lemma_reflected_between_walls(self.x as int, width);
    }

    /// The law of reflection: a particle at or beyond a wall leaves
    /// reflection with that velocity component negated, and a particle
    /// strictly between the walls keeps it. On an axis of length zero a
    /// particle at or below the origin reaches both walls, is turned twice
    /// and keeps its component: only there the first part does not hold.
    pub proof fn lemma_reflection(self, height: int, width: int)
        requires
            self.within_limits(),
            0 <= height <= LIMIT,
            0 <= width <= LIMIT,
        ensures
            (self.y <= 0 || self.y >= height) && (height > 0 || self.y > 0)
                ==> self.reflected(height, width).dy == -self.dy,
            0 < self.y < height || (height == 0 && self.y <= 0) ==> self.reflected(
                height,
                width,
            ).dy == self.dy,
            (self.x <= 0 || self.x >= width) && (width > 0 || self.x > 0) ==> self.reflected(
                height,
                width,
            ).dx == -self.dx,
            0 < self.x < width || (width == 0 && self.x <= 0) ==> self.reflected(
                height,
                width,
            ).dx == self.dx,
    {
        if self.y <= 0 || self.y >= height {
            if height > 0 || self.y > 0 {
                lemma_reflection_turns(self.y as int, self.dy as int, height);
            }
        }
        if self.x <= 0 || self.x >= width {
            if width > 0 || self.x > 0 {
                lemma_reflection_turns(self.x as int, self.dx as int, width);
            }
        }
    }

    /// Within the limits a whole step is exact, and saturation is all that
    /// keeps a component from its plain value: reflection by the two
    /// functions of one axis, gravity on the reflected vertical velocity,
    /// and the move by the velocity that gravity has left.
    pub proof fn lemma_stepped_exact(self, height: int, width: int, dt: int)
        requires
            self.within_limits(),
            0 <= height <= LIMIT,
            0 <= width <= LIMIT,
        ensures
            ({
                let r = self.reflected(height, width);
                let s = self.stepped(height, width, dt);
                &&& r.y == reflected_position(self.y as int, height)
                &&& r.x == reflected_position(self.x as int, width)
                &&& r.dy == reflected_velocity(self.y as int, self.dy as int, height)
                &&& r.dx == reflected_velocity(self.x as int, self.dx as int, width)
                &&& s.dy == saturated(r.dy - GRAVITY * dt)
                &&& s.dx == r.dx
                &&& s.y == saturated(r.y + scaled_product(s.dy as int, dt))
                &&& s.x == saturated(r.x + scaled_product(s.dx as int, dt))
            }),
    {
        self.lemma_reflected_inside(height, width);
    }

    /// A whole step leaves every component within the limits.
    pub proof fn lemma_stepped_within_limits(self, height: int, width: int, dt: int)
        requires
            self.within_limits(),
            0 <= height <= LIMIT,
            0 <= width <= LIMIT,
        ensures
            self.stepped(height, width, dt).within_limits(),
    {
        self.lemma_reflected_inside(height, width);
    }

    /// A step that carries the particle across no wall ends inside the
    /// rectangle.
    pub proof fn lemma_stepped_inside(self, height: int, width: int, dt: int)
        requires
            self.within_limits(),
            0 <= height <= LIMIT,
            0 <= width <= LIMIT,
            self.stays_inside(height, width, dt),
        ensures
            self.stepped(height, width, dt).inside(height, width),
    {
        self.lemma_reflected_inside(height, width);
    }

    /// A step of no duration ends where reflection has put the particle:
    /// inside the rectangle.
    pub proof fn lemma_stepped_zero_inside(self, height: int, width: int)
        requires
            self.within_limits(),
            0 <= height <= LIMIT,
            0 <= width <= LIMIT,
        ensures
            self.stepped(height, width, 0).inside(height, width),
            self.stepped(height, width, 0) == self.reflected(height, width),
    {
        self.lemma_reflected_inside(height, width);
        let q = self.reflected(height, width);
        assert(q.dy * 0 == 0);
        assert(q.dx * 0 == 0);
        assert(scaled_product(q.dy as int, 0) == 0);
        assert(scaled_product(q.dx as int, 0) == 0);
    }
}

} // verus!
