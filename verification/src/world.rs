//! The particle world: its state, its construction, one step of motion, the
//! density field and its gradient, and the read-out of positions and
//! velocities.

use vstd::prelude::*;
use crate::kernel::{MAX_RADIUS, MAX_WEIGHT, calculate_r, kernel_sum, lemma_kernel_sum_far,
    lemma_kernel_sum_isolated, poly6, query_range, squared_distance};
use crate::particle::Particle;
use crate::sampling::{sample_coordinate, starting_coordinate};
use crate::symmetry::Mirror;
use crate::units::LIMIT;

verus! {

/// Largest number of particles in one world.
pub const MAX_PARTICLES: usize = 100_000_000;

/// Step of the finite difference that approximates the gradient: a
/// thousandth of a length unit.
pub const EPSILON: i64 = 1;

/// The particle set with the rectangle it moves in and the support radius
/// of its density field.
pub struct ParticleWorld {
    height: i64,
    width: i64,
    particles: Vec<Particle>,
    grid: Vec<Vec<i64>>,
    smoothing_radius: i64,
}

/// What a world is, as mathematical values.
pub struct WorldView {
    pub height: int,
    pub width: int,
    pub smoothing_radius: int,
    pub particles: Seq<Particle>,
    pub grid: Seq<Seq<i64>>,
}

/// A grid of `rows` rows of `cols` cells, each cell zero.
pub open spec fn blank_grid(rows: nat, cols: nat) -> Seq<Seq<i64>> {
    Seq::new(rows, |i: int| Seq::new(cols, |j: int| 0i64))
}

/// The flat read-out of positions: for each particle in order its `x`, then
/// its `y` counted downward from the top edge.
pub open spec fn flat_positions(particles: Seq<Particle>, height: int) -> Seq<i64> {
    Seq::new(
        2 * particles.len(),
        |k: int|
            if k % 2 == 0 {
                particles[k / 2].x
            } else {
                (height - particles[k / 2].y) as i64
            },
    )
}

/// The flat read-out of velocities: for each particle in order its `dx`,
/// then its `dy` negated.
pub open spec fn flat_velocities(particles: Seq<Particle>) -> Seq<i64> {
    Seq::new(
        2 * particles.len(),
        |k: int|
            if k % 2 == 0 {
                particles[k / 2].dx
            } else {
                (-particles[k / 2].dy) as i64
            },
    )
}

impl WorldView {
    /// The bounds are not negative, the radius is positive, and every value
    /// is within the limits of the arithmetic.
    pub open spec fn valid(self) -> bool {
        &&& 0 <= self.height <= LIMIT
        &&& 0 <= self.width <= LIMIT
        &&& 0 < self.smoothing_radius <= MAX_RADIUS
        &&& self.particles.len() <= MAX_PARTICLES
        &&& forall|i: int| 0 <= i < self.particles.len() ==> (#[trigger] self.particles[i]).within_limits()
    }

    /// The world after one step of length `dt`: every particle stepped on
    /// its own, everything else as before.
    pub open spec fn ticked(self, dt: int) -> WorldView {
        WorldView {
            particles: Seq::new(
                self.particles.len(),
                |i: int| self.particles[i].stepped(self.height, self.width, dt),
            ),
            ..self
        }
    }

    /// The sum of the kernel weights of all particles at the point `(x, y)`.
    /// The density there is `4 / (pi * h^8)` times this sum, `h` being the
    /// smoothing radius.
    pub open spec fn density_sum(self, y: int, x: int) -> int {
        kernel_sum(self.particles, self.smoothing_radius, y, x)
    }

    /// The forward differences of the density sum at `(x, y)` over the step
    /// `EPSILON`, the vertical one first.
    pub open spec fn gradient_sum(self, y: int, x: int) -> (int, int) {
        (
            (self.density_sum(y + EPSILON, x) - self.density_sum(y, x)) / (EPSILON as int),
            (self.density_sum(y, x + EPSILON) - self.density_sum(y, x)) / (EPSILON as int),
        )
    }
}

impl WorldView {
    /// The world after the steps of the lengths `dts`, taken in order.
    pub open spec fn after_ticks(self, dts: Seq<int>) -> WorldView
        decreases dts.len(),
    {
        if dts.len() == 0 {
            self
        } else {
            self.after_ticks(dts.drop_last()).ticked(dts.last())
        }
    }

    /// Every particle is inside the rectangle.
    pub open spec fn all_inside(self) -> bool {
        forall|i: int|
            0 <= i < self.particles.len() ==> (#[trigger] self.particles[i]).inside(
                self.height,
                self.width,
            )
    }

    /// A step keeps the world valid and changes nothing but the particles'
    /// positions and velocities: the bounds, the smoothing radius, the grid
    /// and the number of particles stay.
    pub proof fn lemma_ticked_valid(self, dt: int)
        requires
            self.valid(),
        ensures
            self.ticked(dt).valid(),
            self.ticked(dt).height == self.height,
            self.ticked(dt).width == self.width,
            self.ticked(dt).smoothing_radius == self.smoothing_radius,
            self.ticked(dt).grid == self.grid,
            self.ticked(dt).particles.len() == self.particles.len(),
    {
        assert forall|i: int| 0 <= i < self.particles.len() implies (#[trigger] self.ticked(
            dt,
        ).particles[i]).within_limits() by {
            self.particles[i].lemma_stepped_within_limits(self.height, self.width, dt);
        }
    }

    /// Any sequence of steps keeps the world valid and leaves the bounds,
    /// the smoothing radius, the grid and the number of particles as they
    /// were made.
    pub proof fn lemma_after_ticks_valid(self, dts: Seq<int>)
        requires
            self.valid(),
        ensures
            self.after_ticks(dts).valid(),
            self.after_ticks(dts).height == self.height,
            self.after_ticks(dts).width == self.width,
            self.after_ticks(dts).smoothing_radius == self.smoothing_radius,
            self.after_ticks(dts).grid == self.grid,
            self.after_ticks(dts).particles.len() == self.particles.len(),
        decreases dts.len(),
    {
        if dts.len() > 0 {
            self.lemma_after_ticks_valid(dts.drop_last());
            self.after_ticks(dts.drop_last()).lemma_ticked_valid(dts.last());
        }
    }

    /// A step in which no particle is carried across a wall ends with every
    /// particle inside the rectangle. A step that does carry one across
    /// leaves it outside until the next step reflects it.
    pub proof fn lemma_ticked_inside(self, dt: int)
        requires
            self.valid(),
            forall|i: int|
                0 <= i < self.particles.len() ==> (#[trigger] self.particles[i]).stays_inside(
                    self.height,
                    self.width,
                    dt,
                ),
        ensures
            self.ticked(dt).all_inside(),
    {
        assert forall|i: int| 0 <= i < self.particles.len() implies (#[trigger] self.ticked(
            dt,
        ).particles[i]).inside(self.height, self.width) by {
            assert(self.particles[i].stays_inside(self.height, self.width, dt));
            self.particles[i].lemma_stepped_inside(self.height, self.width, dt);
        }
    }

    /// A step of no duration ends with every particle inside the rectangle.
    pub proof fn lemma_ticked_zero_inside(self)
        requires
            self.valid(),
        ensures
            self.ticked(0).all_inside(),
    {
        assert forall|i: int| 0 <= i < self.particles.len() implies (#[trigger] self.ticked(
            0,
        ).particles[i]).inside(self.height, self.width) by {
            self.particles[i].lemma_stepped_zero_inside(self.height, self.width);
        }
    }

    /// After any sequence of steps, the reflection that opens the next step
    /// puts every particle inside the rectangle: each step moves its
    /// particles from places inside.
    pub proof fn lemma_next_step_starts_inside(self, dts: Seq<int>, i: int)
        requires
            self.valid(),
            0 <= i < self.particles.len(),
        ensures
            i < self.after_ticks(dts).particles.len(),
            self.after_ticks(dts).particles[i].reflected(self.height, self.width).inside(
                self.height,
                self.width,
            ),
    {
        self.lemma_after_ticks_valid(dts);
        self.after_ticks(dts).particles[i].lemma_reflected_inside(self.height, self.width);
    }

    /// The density sum is zero at a point from which every particle is
    /// farther than the smoothing radius.
    pub proof fn lemma_density_far(self, y: int, x: int)
        requires
            forall|i: int|
                0 <= i < self.particles.len() ==> squared_distance(
                    (#[trigger] self.particles[i]).y as int,
                    self.particles[i].x as int,
                    y,
                    x,
                ) > self.smoothing_radius * self.smoothing_radius,
        ensures
            self.density_sum(y, x) == 0,
    {
        lemma_kernel_sum_far(self.particles, self.smoothing_radius, y, x);
    }

    /// At the place of a particle that has no other particle within the
    /// smoothing radius `h`, the density sum is `h^6`, so that the density
    /// is `4 / (pi * h^8) * h^6`.
    pub proof fn lemma_density_isolated(self, index: int)
        requires
            0 <= index < self.particles.len(),
            forall|i: int|
                0 <= i < self.particles.len() && i != index ==> squared_distance(
                    (#[trigger] self.particles[i]).y as int,
                    self.particles[i].x as int,
                    self.particles[index].y as int,
                    self.particles[index].x as int,
                ) > self.smoothing_radius * self.smoothing_radius,
        ensures
            self.density_sum(self.particles[index].y as int, self.particles[index].x as int)
                == self.smoothing_radius * self.smoothing_radius * self.smoothing_radius
                * self.smoothing_radius * self.smoothing_radius * self.smoothing_radius,
    {
        lemma_kernel_sum_isolated(self.particles, self.smoothing_radius, index);
    }

    /// At a point that a reflection leaves in place, in a world that the
    /// reflection maps onto itself, the forward difference along each
    /// reflected axis equals the difference taken backward. The slope of
    /// the density is zero there, and what the gradient holds is the error
    /// of the one-sided difference alone.
    pub proof fn lemma_gradient_at_centre(self, mirror: Mirror, y: int, x: int)
        requires
            mirror.symmetric(self.particles),
            mirror.image_y(y) == y,
            mirror.image_x(x) == x,
        ensures
            mirror.about_y.is_some() ==> self.gradient_sum(y, x).0 == self.density_sum(
                y - EPSILON,
                x,
            ) - self.density_sum(y, x),
            mirror.about_x.is_some() ==> self.gradient_sum(y, x).1 == self.density_sum(
                y,
                x - EPSILON,
            ) - self.density_sum(y, x),
    {
        mirror.lemma_field_symmetric(self.particles, self.smoothing_radius, y + EPSILON, x);
        mirror.lemma_field_symmetric(self.particles, self.smoothing_radius, y, x + EPSILON);
    }
}

impl View for ParticleWorld {
    type V = WorldView;

    closed spec fn view(&self) -> WorldView {
        WorldView {
            height: self.height as int,
            width: self.width as int,
            smoothing_radius: self.smoothing_radius as int,
            particles: self.particles@,
            grid: rows_of(self.grid),
        }
    }
}

/// The rows of a stored grid, as sequences.
pub open spec fn rows_of(grid: Vec<Vec<i64>>) -> Seq<Seq<i64>> {
    Seq::new(grid@.len(), |i: int| grid@[i]@)
}

/// Builds the blank placeholder grid.
fn make_grid(n: usize, m: usize) -> (grid: Vec<Vec<i64>>)
    ensures
        rows_of(grid) == blank_grid(n as nat, m as nat),
{
    let mut grid: Vec<Vec<i64>> = Vec::new();
    let mut i: usize = 0;
    while i < n
        invariant
            i <= n,
            grid@.len() == i,
            forall|r: int| 0 <= r < i ==> (#[trigger] grid@[r])@ == Seq::new(m as nat, |j: int| 0i64),
        decreases n - i,
    {
        let mut row: Vec<i64> = Vec::new();
        let mut j: usize = 0;
        while j < m
            invariant
                j <= m,
                row@.len() == j,
                forall|c: int| 0 <= c < j ==> row@[c] == 0,
            decreases m - j,
        {
            row.push(0);
            j += 1;
        }
        assert(row@ =~= Seq::new(m as nat, |j: int| 0i64));
        grid.push(row);
        i += 1;
    }
    assert(rows_of(grid) =~= blank_grid(n as nat, m as nat));
    grid
}

impl ParticleWorld {
    /// The state is valid.
    pub open spec fn wf(&self) -> bool {
        self@.valid()
    }

    /// A world of `amount_particles` particles at rest, each at a random
    /// place of the rectangle, with a blank grid of `n` rows and `m`
    /// columns. An axis of length zero puts every particle on its origin.
    pub fn new(
        height: i64,
        width: i64,
        amount_particles: usize,
        smoothing_radius: i64,
        n: usize,
        m: usize,
    ) -> (world: ParticleWorld)
        requires
            0 <= height <= LIMIT,
            0 <= width <= LIMIT,
            0 < smoothing_radius <= MAX_RADIUS,
            amount_particles <= MAX_PARTICLES,
        ensures
            world.wf(),
            world@.height == height,
            world@.width == width,
            world@.smoothing_radius == smoothing_radius,
            world@.grid == blank_grid(n as nat, m as nat),
            world@.particles.len() == amount_particles,
            forall|i: int|
                0 <= i < amount_particles ==> {
                    let p = #[trigger] world@.particles[i];
                    &&& starting_coordinate(p.y as int, height as int)
                    &&& starting_coordinate(p.x as int, width as int)
                    &&& p.dy == 0
                    &&& p.dx == 0
                },
    {
        let mut rng = rand::rng();
        let mut particles: Vec<Particle> = Vec::new();
        let mut i: usize = 0;
        while i < amount_particles
            invariant
                i <= amount_particles,
                0 <= height <= LIMIT,
                0 <= width <= LIMIT,
                particles@.len() == i,
                forall|k: int|
                    0 <= k < i ==> {
                        let p = #[trigger] particles@[k];
                        &&& starting_coordinate(p.y as int, height as int)
                        &&& starting_coordinate(p.x as int, width as int)
                        &&& p.dy == 0
                        &&& p.dx == 0
                    },
            decreases amount_particles - i,
        {
            let y: i64 = sample_coordinate(&mut rng, height);
            let x: i64 = sample_coordinate(&mut rng, width);
            particles.push(Particle::at_rest(y, x));
            i += 1;
        }
        ParticleWorld::with_particles(height, width, particles, smoothing_radius, n, m)
    }

    /// A world of the given particles, with a blank grid of `n` rows and
    /// `m` columns.
    pub fn with_particles(
        height: i64,
        width: i64,
        particles: Vec<Particle>,
        smoothing_radius: i64,
        n: usize,
        m: usize,
    ) -> (world: ParticleWorld)
        requires
            0 <= height <= LIMIT,
            0 <= width <= LIMIT,
            0 < smoothing_radius <= MAX_RADIUS,
            particles@.len() <= MAX_PARTICLES,
            forall|i: int| 0 <= i < particles@.len() ==> (#[trigger] particles@[i]).within_limits(),
        ensures
            world.wf(),
            world@.height == height,
            world@.width == width,
            world@.smoothing_radius == smoothing_radius,
            world@.particles == particles@,
            world@.grid == blank_grid(n as nat, m as nat),
    {
        let grid = make_grid(n, m);
        ParticleWorld { height, width, particles, grid, smoothing_radius }
    }

    /// The height of the rectangle.
    pub fn height(&self) -> (h: i64)
        ensures
            h == self@.height,
    {
        self.height
    }

    /// The width of the rectangle.
    pub fn width(&self) -> (w: i64)
        ensures
            w == self@.width,
    {
        self.width
    }

    /// The support radius of the density kernel.
    pub fn smoothing_radius(&self) -> (h: i64)
        ensures
            h == self@.smoothing_radius,
    {
        self.smoothing_radius
    }

    /// The number of particles.
    pub fn particle_count(&self) -> (n: usize)
        ensures
            n == self@.particles.len(),
    {
        self.particles.len()
    }

    /// The particle at `index`.
    pub fn particle(&self, index: usize) -> (p: Particle)
        requires
            index < self@.particles.len(),
        ensures
            p == self@.particles[index as int],
    {
        self.particles[index]
    }

    /// The number of rows of the grid, and the number of cells in its first
    /// row, or zero where it has no row.
    pub fn grid_dimensions(&self) -> (d: (usize, usize))
        ensures
            d.0 == self@.grid.len(),
            d.1 == if self@.grid.len() > 0 {
                self@.grid[0].len()
            } else {
                0
            },
    {
        if self.grid.len() > 0 {
            (self.grid.len(), self.grid[0].len())
        } else {
            (0, 0)
        }
    }

    /// The length that a read-out buffer must have: two values for each
    /// particle.
    pub fn buffer_len(&self) -> (len: usize)
        requires
            self.wf(),
        ensures
            len == 2 * self@.particles.len(),
    {
        2 * self.particles.len()
    }

    /// Advances the world by one step of length `dt`: each particle is
    /// reflected at the walls from where it stands, then accelerated by
    /// gravity, then moved.
    pub fn tick(&mut self, dt: i64)
        requires
            old(self).wf(),
            0 <= dt,
        ensures
            final(self).wf(),
            final(self)@ == old(self)@.ticked(dt as int),
    {
        let count: usize = self.particles.len();
        let mut i: usize = 0;
        while i < count
            invariant
                i <= count,
                count == old(self)@.particles.len(),
                self.particles@.len() == count,
                self.height == old(self).height,
                self.width == old(self).width,
                self.smoothing_radius == old(self).smoothing_radius,
                self.grid == old(self).grid,
                old(self).wf(),
                0 <= dt,
                forall|k: int|
                    0 <= k < i ==> self.particles@[k] == (#[trigger] old(self).particles@[k]).stepped(
                        self.height as int,
                        self.width as int,
                        dt as int,
                    ),
                forall|k: int|
                    0 <= k < i ==> (#[trigger] self.particles@[k]).within_limits(),
                forall|k: int| i <= k < count ==> self.particles@[k] == old(self).particles@[k],
            decreases count - i,
        {
            let mut p: Particle = self.particles[i];
            Particle::collission_detection(&mut p, self.height, self.width);
            Particle::apply_gravity(&mut p, dt);
            Particle::apply_velocity(&mut p, dt);
            self.particles[i] = p;
            i += 1;
        }
        assert(self@.particles =~= old(self)@.ticked(dt as int).particles);
    }

    /// The density sum at the point `(x, y)`, for query coordinates that
    /// may lie one step beyond the 64-bit range.
    fn density_at(&self, y: i128, x: i128) -> (sum: u128)
        requires
            self.wf(),
            query_range(y as int),
            query_range(x as int),
        ensures
            sum == self@.density_sum(y as int, x as int),
            sum <= self@.particles.len() * MAX_WEIGHT,
    {
        let mut density: u128 = 0;
        let count: usize = self.particles.len();
        let mut i: usize = 0;
        while i < count
            invariant
                i <= count,
                count == self.particles@.len(),
                self.wf(),
                query_range(y as int),
                query_range(x as int),
                density == kernel_sum(
                    self.particles@.take(i as int),
                    self.smoothing_radius as int,
                    y as int,
                    x as int,
                ),
                density <= i * MAX_WEIGHT,
            decreases count - i,
        {
            let p: Particle = self.particles[i];
            let dist: u128 = calculate_r(p.y, p.x, y, x);
            let influence: u128 = poly6(self.smoothing_radius, dist);
            proof {
                let before = self.particles@.take(i as int);
                let after = self.particles@.take(i + 1);
                assert(after.drop_last() =~= before);
                assert(after.last() == p);
                assert((i + 1) * MAX_WEIGHT == i * MAX_WEIGHT + MAX_WEIGHT) by (nonlinear_arith);
                assert(i * MAX_WEIGHT + MAX_WEIGHT <= 100_000_000 * MAX_WEIGHT) by (nonlinear_arith)
                    requires
                        i < 100_000_000,
                ;
            }
            density = density + influence;
            i += 1;
        }
        assert(self.particles@.take(count as int) =~= self.particles@);
        density
    }

    /// The density sum at the point `(x, y)`: the sum over all particles of
    /// the kernel's weight at the particle's distance from the point. The
    /// density is `4 / (pi * h^8)` times this sum.
    pub fn calculate_density(&self, y: i64, x: i64) -> (sum: u128)
        requires
            self.wf(),
        ensures
            sum == self@.density_sum(y as int, x as int),
    {
        self.density_at(y as i128, x as i128)
    }

    /// The forward differences of the density sum at `(x, y)`, the vertical
    /// one first: the sum one step further along the axis, less the sum at
    /// the point, over the step.
    pub fn calculate_gradient(&self, y: i64, x: i64) -> (gradient: (i128, i128))
        requires
            self.wf(),
        ensures
            gradient.0 == self@.gradient_sum(y as int, x as int).0,
            gradient.1 == self@.gradient_sum(y as int, x as int).1,
    {
        let step_size: i128 = EPSILON as i128;
        let density_here: u128 = self.density_at(y as i128, x as i128);
        let density_above: u128 = self.density_at(y as i128 + step_size, x as i128);
        let density_beside: u128 = self.density_at(y as i128, x as i128 + step_size);
        assert(self@.particles.len() * MAX_WEIGHT <= 100_000_000 * MAX_WEIGHT) by (nonlinear_arith)
            requires
                self@.particles.len() <= 100_000_000,
        ;
        let delta_y: i128 = density_above as i128 - density_here as i128;
        let delta_x: i128 = density_beside as i128 - density_here as i128;
        (delta_y / step_size, delta_x / step_size)
    }

    /// Writes the positions into `buf`, two values for each particle in
    /// order: `x`, then `y` counted downward from the top edge.
    pub fn positions(&self, buf: &mut [i64])
        requires
            self.wf(),
            old(buf)@.len() == 2 * self@.particles.len(),
        ensures
            final(buf)@ == flat_positions(self@.particles, self@.height),
            forall|i: int|
                0 <= i < self@.particles.len() ==> {
                    &&& final(buf)@[2 * i] == (#[trigger] self@.particles[i]).x
                    &&& final(buf)@[2 * i + 1] == self@.height - self@.particles[i].y
                },
    {
        let count: usize = self.particles.len();
        let mut i: usize = 0;
        while i < count
            invariant
                i <= count,
                count == self.particles@.len(),
                self.wf(),
                buf@.len() == 2 * count,
                forall|k: int|
                    0 <= k < 2 * i ==> buf@[k] == #[trigger] flat_positions(
                        self.particles@,
                        self.height as int,
                    )[k],
            decreases count - i,
        {
            let p: Particle = self.particles[i];
            buf[2 * i] = p.x;
            buf[2 * i + 1] = self.height - p.y;
            i += 1;
        }
        assert(buf@ =~= flat_positions(self@.particles, self@.height));
    }

    /// Writes the velocities into `buf`, two values for each particle in
    /// order: `dx`, then `dy` negated.
    pub fn velocities(&self, buf: &mut [i64])
        requires
            self.wf(),
            old(buf)@.len() == 2 * self@.particles.len(),
        ensures
            final(buf)@ == flat_velocities(self@.particles),
            forall|i: int|
                0 <= i < self@.particles.len() ==> {
                    &&& final(buf)@[2 * i] == (#[trigger] self@.particles[i]).dx
                    &&& final(buf)@[2 * i + 1] == -self@.particles[i].dy
                },
    {
        let count: usize = self.particles.len();
        let mut i: usize = 0;
        while i < count
            invariant
                i <= count,
                count == self.particles@.len(),
                self.wf(),
                buf@.len() == 2 * count,
                forall|k: int|
                    0 <= k < 2 * i ==> buf@[k] == #[trigger] flat_velocities(self.particles@)[k],
            decreases count - i,
        {
            let p: Particle = self.particles[i];
            buf[2 * i] = p.dx;
            buf[2 * i + 1] = -p.dy;
            i += 1;
        }
        assert(buf@ =~= flat_velocities(self@.particles));
    }
}

} // verus!
