use particle_world::particle::Particle;
use particle_world::sampling::sample_coordinate;
use particle_world::world::ParticleWorld;

fn moving(y: i64, x: i64, dy: i64, dx: i64) -> Particle {
    Particle { y, x, dy, dx }
}

fn single(p: Particle) -> ParticleWorld {
    ParticleWorld::with_particles(1000, 2000, vec![p], 5000, 0, 0)
}

fn inside(p: &Particle, height: i64, width: i64) -> bool {
    0 <= p.y && p.y <= height && 0 <= p.x && p.x <= width
}

#[test]
fn particle_world_initialisation() {
    let h = 1000;
    let w = 2000;
    let am = 3;
    let r = 5000;
    let world = ParticleWorld::new(h, w, am, r, 0, 0);
    assert_eq!(h, world.height());
    assert_eq!(w, world.width());
    assert_eq!(am, world.particle_count());
    assert_eq!(r, world.smoothing_radius());
}

#[test]
fn particles_within_boundaries() {
    let h = 1000;
    let w = 2000;
    let am = 10;
    let r = 5000;
    let world = ParticleWorld::new(h, w, am, r, 0, 0);
    for i in 0..world.particle_count() {
        let p = world.particle(i);
        assert!(0 <= p.y && p.y <= world.height());
        assert!(0 <= p.x && p.x <= world.width());
    }
    assert_eq!(world.smoothing_radius(), r);
}

#[test]
fn new_particles_start_below_the_far_walls_and_at_rest() {
    let world = ParticleWorld::new(3, 2, 500, 1, 0, 0);
    assert_eq!(world.particle_count(), 500);
    for i in 0..500 {
        let p = world.particle(i);
        assert!(0 <= p.y && p.y < 3);
        assert!(0 <= p.x && p.x < 2);
        assert_eq!(p.dy, 0);
        assert_eq!(p.dx, 0);
    }
}

#[test]
fn new_particles_on_an_axis_of_length_one_start_at_the_origin() {
    let world = ParticleWorld::new(1, 1, 50, 1, 0, 0);
    for i in 0..50 {
        assert_eq!(world.particle(i), moving(0, 0, 0, 0));
    }
}

#[test]
fn new_spreads_particles_over_the_rectangle() {
    let world = ParticleWorld::new(1_000_000, 1_000_000, 200, 5000, 0, 0);
    let first = world.particle(0);
    let mut differs = false;
    for i in 1..200 {
        let p = world.particle(i);
        if p.y != first.y || p.x != first.x {
            differs = true;
        }
    }
    assert!(differs);
}

#[test]
fn new_accepts_an_empty_world() {
    let mut world = ParticleWorld::new(1000, 2000, 0, 5000, 0, 0);
    assert_eq!(world.particle_count(), 0);
    assert_eq!(world.buffer_len(), 0);
    world.tick(16);
    assert_eq!(world.particle_count(), 0);
    let mut buf: Vec<i64> = vec![];
    world.positions(&mut buf);
    world.velocities(&mut buf);
    assert!(buf.is_empty());
    assert_eq!(world.calculate_density(0, 0), 0);
}

#[test]
fn new_accepts_a_rectangle_without_area() {
    let mut world = ParticleWorld::new(0, 0, 4, 5000, 0, 0);
    assert_eq!(world.particle_count(), 4);
    for i in 0..4 {
        assert_eq!(world.particle(i), moving(0, 0, 0, 0));
    }
    world.tick(16);
    for i in 0..4 {
        // Both walls are reached: the velocity is turned twice, then
        // gravity acts and the particle moves.
        assert_eq!(world.particle(i), moving(-153, 0, -9600, 0));
    }
}

#[test]
fn new_accepts_a_line_of_no_height() {
    let world = ParticleWorld::new(0, 2000, 30, 5000, 0, 0);
    for i in 0..30 {
        let p = world.particle(i);
        assert_eq!(p.y, 0);
        assert!(0 <= p.x && p.x < 2000);
    }
}

#[test]
fn new_builds_a_blank_grid() {
    let world = ParticleWorld::new(1000, 2000, 1, 5000, 3, 4);
    assert_eq!(world.grid_dimensions(), (3, 4));
    let none = ParticleWorld::new(1000, 2000, 1, 5000, 0, 4);
    assert_eq!(none.grid_dimensions(), (0, 0));
    let narrow = ParticleWorld::new(1000, 2000, 1, 5000, 2, 0);
    assert_eq!(narrow.grid_dimensions(), (2, 0));
}

#[test]
fn sample_coordinate_stays_below_the_bound() {
    let mut rng = rand::rng();
    for _ in 0..1000 {
        let v = sample_coordinate(&mut rng, 7);
        assert!(0 <= v && v < 7);
    }
    assert_eq!(sample_coordinate(&mut rng, 1), 0);
    assert_eq!(sample_coordinate(&mut rng, 0), 0);
    assert_eq!(sample_coordinate(&mut rng, -5), 0);
}

#[test]
fn sample_coordinate_reaches_every_value() {
    let mut rng = rand::rng();
    let mut seen = [false; 4];
    for _ in 0..10_000 {
        seen[sample_coordinate(&mut rng, 4) as usize] = true;
    }
    assert_eq!(seen, [true, true, true, true]);
}

#[test]
fn with_particles_keeps_the_particles_in_order() {
    let world = ParticleWorld::with_particles(
        1000,
        2000,
        vec![moving(1, 2, 3, 4), moving(5, 6, 7, 8)],
        5000,
        2,
        2,
    );
    assert_eq!(world.particle_count(), 2);
    assert_eq!(world.particle(0), moving(1, 2, 3, 4));
    assert_eq!(world.particle(1), moving(5, 6, 7, 8));
    assert_eq!(world.height(), 1000);
    assert_eq!(world.width(), 2000);
    assert_eq!(world.smoothing_radius(), 5000);
    assert_eq!(world.grid_dimensions(), (2, 2));
    assert_eq!(world.buffer_len(), 4);
}

#[test]
fn tick_lets_a_particle_fall() {
    let mut world = single(moving(500, 1000, 0, 0));
    world.tick(16);
    assert_eq!(world.particle(0), moving(347, 1000, -9600, 0));
    world.tick(16);
    assert_eq!(world.particle(0), moving(40, 1000, -19200, 0));
}

#[test]
fn tick_moves_before_it_reflects_again() {
    // The third step carries the particle below the floor; only the fourth
    // step puts it back and turns it.
    let mut world = single(moving(40, 1000, -19200, 0));
    world.tick(16);
    assert_eq!(world.particle(0), moving(-420, 1000, -28800, 0));
    world.tick(16);
    assert_eq!(world.particle(0), moving(307, 1000, 19200, 0));
}

#[test]
fn tick_reflects_then_accelerates_then_moves() {
    let mut world = single(moving(1200, 2500, 1000, 3000));
    world.tick(100);
    // reflected: (1000, 2000, -1000, -3000); gravity: dy = -61000;
    // moved: y = 1000 - 6100, x = 2000 - 300
    assert_eq!(world.particle(0), moving(-5100, 1700, -61000, -3000));
}

#[test]
fn tick_of_no_duration_only_reflects() {
    let mut world = single(moving(-50, 2600, -10, 20));
    world.tick(0);
    assert_eq!(world.particle(0), moving(0, 2000, 10, -20));
    world.tick(0);
    assert_eq!(world.particle(0), moving(0, 2000, -10, 20));
}

#[test]
fn tick_treats_every_particle_on_its_own() {
    let mut world = ParticleWorld::with_particles(
        1000,
        2000,
        vec![moving(500, 1000, 0, 0), moving(-1, 1000, -500, 250), moving(500, 1000, 0, 0)],
        5000,
        0,
        0,
    );
    world.tick(16);
    assert_eq!(world.particle(0), moving(347, 1000, -9600, 0));
    assert_eq!(world.particle(1), moving(-145, 1004, -9100, 250));
    assert_eq!(world.particle(2), moving(347, 1000, -9600, 0));
    assert_eq!(world.particle_count(), 3);
    assert_eq!(world.height(), 1000);
    assert_eq!(world.width(), 2000);
    assert_eq!(world.smoothing_radius(), 5000);
}

#[test]
fn tick_with_a_huge_step_stops_at_the_limit() {
    let limit: i64 = 1_000_000_000_000_000_000;
    let mut world = single(moving(500, 1000, 0, 1));
    world.tick(i64::MAX);
    assert_eq!(world.particle(0), moving(-limit, 9_223_372_036_855_775, -limit, 1));
    world.tick(i64::MAX);
    assert_eq!(world.particle(0), moving(-limit, -9_223_372_036_852_775, -limit, -1));
}

#[test]
fn a_thousand_ticks_keep_every_step_starting_inside() {
    let height = 1000;
    let width = 2000;
    let mut world = ParticleWorld::new(height, width, 10, 5000, 0, 0);
    for i in 0..10 {
        assert!(inside(&world.particle(i), height, width));
    }
    for _ in 0..1000 {
        world.tick(16);
        assert_eq!(world.particle_count(), 10);
        for i in 0..10 {
            let mut p = world.particle(i);
            assert!(0 <= p.x && p.x <= width);
            Particle::collission_detection(&mut p, height, width);
            assert!(inside(&p, height, width));
        }
    }
}

#[test]
fn a_thousand_ticks_of_no_duration_keep_every_particle_inside() {
    let height = 1000;
    let width = 2000;
    let mut world = ParticleWorld::with_particles(
        height,
        width,
        vec![moving(-700, 900, -40, 3), moving(400, 2600, 8, 900), moving(500, 500, 1, 1)],
        5000,
        0,
        0,
    );
    for _ in 0..1000 {
        world.tick(0);
        for i in 0..3 {
            assert!(inside(&world.particle(i), height, width));
        }
    }
}

#[test]
fn a_resting_particle_on_the_floor_leaves_and_returns() {
    let mut world = single(moving(0, 1000, 0, 0));
    let mut left_the_rectangle = false;
    for _ in 0..50 {
        world.tick(16);
        if world.particle(0).y < 0 {
            left_the_rectangle = true;
        }
    }
    assert!(left_the_rectangle);
}

#[test]
fn positions_flip_the_vertical_axis() {
    let world = single(moving(300, 1250, -7, 9));
    let mut buf = vec![0i64; world.buffer_len()];
    world.positions(&mut buf);
    assert_eq!(buf, vec![1250, 700]);
}

#[test]
fn velocities_flip_the_vertical_axis() {
    let world = single(moving(300, 1250, -7, 9));
    let mut buf = vec![0i64; world.buffer_len()];
    world.velocities(&mut buf);
    assert_eq!(buf, vec![9, 7]);
}

#[test]
fn read_out_interleaves_the_particles_in_order() {
    let world = ParticleWorld::with_particles(
        1000,
        2000,
        vec![moving(0, 0, 1, 2), moving(1000, 2000, -3, -4), moving(-420, 2100, 5, -6)],
        5000,
        0,
        0,
    );
    let mut buf = vec![77i64; 6];
    world.positions(&mut buf);
    assert_eq!(buf, vec![0, 1000, 2000, 0, 2100, 1420]);
    world.velocities(&mut buf);
    assert_eq!(buf, vec![2, -1, -4, 3, -6, -5]);
}

#[test]
fn read_out_at_the_limits() {
    let limit: i64 = 1_000_000_000_000_000_000;
    let world = ParticleWorld::with_particles(
        limit,
        limit,
        vec![moving(-limit, -limit, -limit, limit), moving(limit, limit, limit, -limit)],
        5000,
        0,
        0,
    );
    let mut buf = vec![0i64; world.buffer_len()];
    world.positions(&mut buf);
    assert_eq!(buf, vec![-limit, 2 * limit, limit, 0]);
    world.velocities(&mut buf);
    assert_eq!(buf, vec![limit, limit, -limit, -limit]);
}

#[test]
fn read_out_follows_a_tick() {
    let mut world = single(moving(500, 1000, 0, 2500));
    world.tick(16);
    let mut buf = vec![0i64; 2];
    world.positions(&mut buf);
    assert_eq!(buf, vec![1040, 653]);
    world.velocities(&mut buf);
    assert_eq!(buf, vec![2500, 9600]);
}
