//! Falling-ball sandbox: a repeating spawn timer, the bodies that make up the
//! arena, and the periodic spawner that drops new balls into it.
//!
//! Quantities are fixed point: one whole unit (a metre, or 1.0 of a colour
//! channel) is `UNIT` millionths.
mod sampling;
mod scene;
mod spawner;
mod timer;

pub use scene::{
    arena, arena_bodies, balls_at, ball_at, collider_fits_mesh, in_spawn_region, is_spawned_ball, scene_camera,
    scene_light, spawn_a_ball, is_world_with, world_from, Body, BodyKind, Collider, LightSource,
    MeshShape, Rgb, SurfaceMaterial, Vec3, Viewpoint, World, INITIAL_BALLS, UNIT,
};
pub use sampling::random_positions;
pub use spawner::{
    balls_due, frame_lengths, fresh_timer, lemma_absent_state_spawns_nothing, lemma_paused_spawns_nothing,
    lemma_spawn_cadence, spawn, spawn_ball, spawn_over_frames, spawn_run, spawn_step, state_view, total,
    SpawnBallState, BALLS_PER_WAVE, SPAWN_INTERVAL_NS,
};
pub use timer::{SpawnTimer, TimerView};
