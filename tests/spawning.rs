use ballpit::{
    arena_bodies, balls_at, balls_due, spawn_over_frames, random_positions, spawn, spawn_a_ball, spawn_ball,
    world_from, Body, BodyKind, Collider, MeshShape, Rgb, SpawnBallState, SpawnTimer,
    SurfaceMaterial, Vec3, BALLS_PER_WAVE, INITIAL_BALLS, SPAWN_INTERVAL_NS, UNIT,
};

const MS: u64 = 1_000_000;

fn in_region(p: &Vec3) -> bool {
    (0..5 * UNIT).contains(&p.x) && (0..200 * UNIT).contains(&p.y) && (0..5 * UNIT).contains(&p.z)
}

fn is_ball(b: &Body) -> bool {
    *b == spawn_a_ball(b.position) && in_region(&b.position)
}

#[test]
fn ball_helper_has_fixed_shape_at_given_position() {
    let p = Vec3 { x: 1_500_000, y: 42_000_000, z: 3_250_000 };
    let b = spawn_a_ball(p);
    assert_eq!(b.mesh, MeshShape::Capsule { radius: 1_000_000, depth: 0 });
    assert_eq!(b.color, Rgb { r: 800_000, g: 700_000, b: 600_000 });
    assert_eq!(b.position, p);
    assert_eq!(b.kind, BodyKind::Dynamic);
    assert_eq!(
        b.material,
        Some(SurfaceMaterial { restitution: 1_000_000, friction: 0, density: 1_000_000 })
    );
    assert_eq!(b.collider, Collider::Sphere { radius: 1_000_000 });
}

#[test]
fn arena_has_four_walls_and_a_floor() {
    let a = arena_bodies();
    assert_eq!(a.len(), 5);
    assert!(a.iter().all(|b| b.kind == BodyKind::Static && b.material.is_none()));
    assert!(a.iter().all(|b| b.color == Rgb { r: 300_000, g: 500_000, b: 300_000 }));
    let xs: Vec<Vec3> = a.iter().map(|b| b.position).collect();
    assert_eq!(
        xs,
        vec![
            Vec3 { x: 125 * UNIT, y: 0, z: 0 },
            Vec3 { x: -125 * UNIT, y: 0, z: 0 },
            Vec3 { x: 0, y: 0, z: 125 * UNIT },
            Vec3 { x: 0, y: 0, z: -125 * UNIT },
            Vec3 { x: 0, y: 0, z: 0 },
        ]
    );
    assert_eq!(a[0].mesh, MeshShape::Cuboid { size: Vec3 { x: 1_000, y: 25 * UNIT, z: 250 * UNIT } });
    assert_eq!(
        a[0].collider,
        Collider::Cuboid { half_extents: Vec3 { x: 500, y: 12_500_000, z: 125 * UNIT } }
    );
    assert_eq!(a[3].mesh, MeshShape::Cuboid { size: Vec3 { x: 250 * UNIT, y: 25 * UNIT, z: 1_000 } });
    assert_eq!(
        a[3].collider,
        Collider::Cuboid { half_extents: Vec3 { x: 125 * UNIT, y: 12_500_000, z: 500 } }
    );
    assert_eq!(a[4].mesh, MeshShape::Plane { side: 250 * UNIT });
    assert_eq!(
        a[4].collider,
        Collider::Cuboid { half_extents: Vec3 { x: 125 * UNIT, y: 1_000, z: 125 * UNIT } }
    );
}

#[test]
fn bootstrap_makes_five_static_bodies_and_two_thousand_balls() {
    let w = spawn();
    assert_eq!(w.bodies.len(), 2005);
    assert_eq!(INITIAL_BALLS, 2000);
    assert_eq!(w.bodies.iter().filter(|b| b.kind == BodyKind::Static).count(), 5);
    assert_eq!(w.bodies.iter().filter(|b| b.kind == BodyKind::Dynamic).count(), 2000);
    assert_eq!(w.bodies[..5].to_vec(), arena_bodies());
    assert!(w.bodies[5..].iter().all(is_ball));
    assert_eq!(w.light.position, Vec3 { x: 4 * UNIT, y: 25 * UNIT, z: 4 * UNIT });
    assert_eq!(w.light.intensity, 3500 * UNIT);
    assert_eq!(w.light.range, 500 * UNIT);
    assert!(w.light.shadows);
    assert_eq!(w.camera.position, Vec3 { x: -2 * UNIT, y: 2_500_000, z: 5 * UNIT });
    assert_eq!(w.camera.target, Vec3 { x: 0, y: 0, z: 0 });
    assert_eq!(w.camera.up, Vec3 { x: 0, y: UNIT, z: 0 });
    assert!(w.camera.free_fly);
}

#[test]
fn bootstrap_twice_gives_two_whole_scenes() {
    let first = spawn();
    let second = spawn();
    assert_eq!(first.bodies.len(), 2005);
    assert_eq!(second.bodies.len(), 2005);
    assert_ne!(first.bodies[5..].to_vec(), second.bodies[5..].to_vec());
}

#[test]
fn drawn_positions_stay_in_region_and_vary() {
    let ps = random_positions(2000);
    assert_eq!(ps.len(), 2000);
    assert!(ps.iter().all(in_region));
    assert!(ps.iter().any(|p| p.x != 0));
    assert!(ps.iter().any(|p| p.y > 5 * UNIT));
    assert!(ps.iter().any(|p| p.z != 0));
    assert!(ps.iter().any(|p| p.x != ps[0].x));
}

#[test]
fn world_from_chosen_positions() {
    let ps = vec![Vec3 { x: 0, y: 0, z: 0 }, Vec3 { x: 4_999_999, y: 199_999_999, z: 1 }];
    let w = world_from(&ps);
    assert_eq!(w.bodies.len(), 7);
    assert_eq!(w.bodies[5], spawn_a_ball(ps[0]));
    assert_eq!(w.bodies[6], spawn_a_ball(ps[1]));
    assert_eq!(balls_at(&ps), w.bodies[5..].to_vec());
    assert_eq!(balls_at(&Vec::new()), Vec::new());
}

#[test]
fn one_second_of_frames_fires_once() {
    let mut state = Some(SpawnBallState::default());
    let mut counts = Vec::new();
    for _ in 0..4 {
        counts.push(balls_due(&mut state, 250 * MS));
    }
    assert_eq!(counts, vec![0, 0, 0, 20]);
    assert_eq!(state.as_ref().unwrap().timer.elapsed_ns(), 0);
}

#[test]
fn two_and_a_half_seconds_fire_twice() {
    let mut state = Some(SpawnBallState::new());
    let mut spawned = 0;
    let mut fires = 0;
    for _ in 0..10 {
        let balls = spawn_ball(&mut state, 250 * MS);
        assert!(balls.len() == 0 || balls.len() == BALLS_PER_WAVE);
        assert!(balls.iter().all(is_ball));
        if !balls.is_empty() {
            fires += 1;
        }
        spawned += balls.len();
    }
    assert_eq!(fires, 2);
    assert_eq!(spawned, 40);
    assert_eq!(state.as_ref().unwrap().timer.elapsed_ns(), 500 * MS);
}

#[test]
fn one_long_frame_fires_one_wave() {
    let mut state = Some(SpawnBallState::new());
    assert_eq!(spawn_ball(&mut state, 2500 * MS).len(), 20);
    assert_eq!(state.as_ref().unwrap().timer.elapsed_ns(), 500 * MS);
}

#[test]
fn paused_spawner_does_nothing() {
    let mut state = Some(SpawnBallState::new());
    balls_due(&mut state, 300 * MS);
    state.as_mut().unwrap().timer.pause();
    for _ in 0..10 {
        assert!(spawn_ball(&mut state, 700 * MS).is_empty());
    }
    assert_eq!(state.as_ref().unwrap().timer.elapsed_ns(), 300 * MS);
    assert!(state.as_ref().unwrap().timer.paused());
    state.as_mut().unwrap().timer.unpause();
    assert_eq!(balls_due(&mut state, 700 * MS), 20);
}

#[test]
fn absent_state_does_nothing() {
    let mut state: Option<SpawnBallState> = None;
    for _ in 0..5 {
        assert_eq!(balls_due(&mut state, SPAWN_INTERVAL_NS), 0);
        assert!(spawn_ball(&mut state, SPAWN_INTERVAL_NS).is_empty());
    }
    assert!(state.is_none());
}

#[test]
fn timer_counts_completed_intervals() {
    let mut t = SpawnTimer::new(SPAWN_INTERVAL_NS);
    assert_eq!(t.duration_ns(), 1_000_000_000);
    assert_eq!(t.tick(999 * MS), 0);
    assert_eq!(t.elapsed_ns(), 999 * MS);
    assert_eq!(t.tick(MS), 1);
    assert_eq!(t.elapsed_ns(), 0);
    assert_eq!(t.tick(3700 * MS), 3);
    assert_eq!(t.elapsed_ns(), 700 * MS);
    assert_eq!(t.tick(0), 0);
    assert_eq!(t.elapsed_ns(), 700 * MS);
    assert_eq!(t.tick(u64::MAX), u64::MAX / 1_000_000_000 + 1);
}

#[test]
fn run_of_frames_fires_when_time_crosses_each_second() {
    let mut state = Some(SpawnBallState::default());
    let frames = vec![400 * MS, 700 * MS, 900 * MS, 500 * MS];
    let mut counts = Vec::new();
    for d in &frames {
        counts.push(spawn_ball(&mut state, *d).len());
    }
    assert_eq!(counts, vec![0, 20, 20, 0]);
    let timer = &state.as_ref().unwrap().timer;
    assert_eq!(timer.elapsed_ns(), 500 * MS);
    assert_eq!(timer.duration_ns(), SPAWN_INTERVAL_NS);
    assert!(!timer.paused());

    let mut again = Some(SpawnBallState::default());
    let balls = spawn_over_frames(&mut again, &frames);
    assert_eq!(balls.len(), 40);
    assert!(balls.iter().all(is_ball));
    assert_eq!(again.as_ref().unwrap().timer.elapsed_ns(), 500 * MS);
}

#[test]
fn run_of_frames_while_paused_or_absent_drops_nothing() {
    let mut state = Some(SpawnBallState::new());
    state.as_mut().unwrap().timer.pause();
    let frames = vec![SPAWN_INTERVAL_NS; 12];
    assert!(spawn_over_frames(&mut state, &frames).is_empty());
    assert_eq!(state.as_ref().unwrap().timer.elapsed_ns(), 0);
    let mut absent: Option<SpawnBallState> = None;
    assert!(spawn_over_frames(&mut absent, &frames).is_empty());
    assert!(absent.is_none());
}
