use crate::sampling::random_positions;
use crate::scene::{
    arena, balls_at, ball_at, collider_fits_mesh, in_spawn_region, is_spawned_ball, scene_camera, scene_light,
    world_from, Body, Vec3, World, INITIAL_BALLS,
};
use crate::timer::{SpawnTimer, TimerView};
use vstd::arithmetic::div_mod::lemma_fundamental_div_mod_converse;
use vstd::prelude::*;

verus! {

/// How many balls each completed interval drops.
pub const BALLS_PER_WAVE: usize = 20;

/// The spawner's interval: one second, in nanoseconds.
pub const SPAWN_INTERVAL_NS: u64 = 1000000000;

/// The spawner's state: the timer that paces the waves of balls.
pub struct SpawnBallState {
    pub timer: SpawnTimer,
}

/// A fresh spawn timer: a one-second interval, nothing accumulated, running.
pub open spec fn fresh_timer() -> TimerView {
    TimerView { duration: SPAWN_INTERVAL_NS as nat, elapsed: 0, paused: false }
}

impl SpawnBallState {
    pub fn new() -> (r: SpawnBallState)
        ensures
            r.timer@ == fresh_timer(),
    {
        SpawnBallState { timer: SpawnTimer::new(SPAWN_INTERVAL_NS) }
    }
}

impl Default for SpawnBallState {
    fn default() -> (r: SpawnBallState)
        ensures
            r.timer@ == fresh_timer(),
    {
        SpawnBallState::new()
    }
}

/// The timer of the spawner's state, where there is a state.
pub open spec fn state_view(s: Option<SpawnBallState>) -> Option<TimerView> {
    match s {
        Some(st) => Some(st.timer@),
        None => None,
    }
}

/// One frame of the spawner: with no state nothing happens; otherwise the timer
/// advances by `delta`, and a wave is due when an interval completed.
/// Gives the state after the frame and the number of balls to drop.
pub open spec fn spawn_step(s: Option<TimerView>, delta: nat) -> (Option<TimerView>, nat) {
    match s {
        None => (None, 0),
        Some(t) => (
            Some(t.ticked(delta)),
            if t.times_finished(delta) > 0 {
                BALLS_PER_WAVE as nat
            } else {
                0
            },
        ),
    }
}

/// The spawner over a run of frames with the given deltas: the state after the
/// last frame and the balls dropped in all of them.
pub open spec fn spawn_run(s: Option<TimerView>, deltas: Seq<nat>) -> (Option<TimerView>, nat)
    decreases deltas.len(),
{
    if deltas.len() == 0 {
        (s, 0)
    } else {
        let before = spawn_run(s, deltas.drop_last());
        let after = spawn_step(before.0, deltas.last());
        (after.0, before.1 + after.1)
    }
}

pub open spec fn total(deltas: Seq<nat>) -> nat
    decreases deltas.len(),
{
    if deltas.len() == 0 {
        0
    } else {
        total(deltas.drop_last()) + deltas.last()
    }
}

/// Advances the spawner by one frame of `delta_ns` nanoseconds and returns how
/// many balls are due: a wave when the timer completed an interval, none when
/// it is paused, has not completed one, or there is no state.
pub fn balls_due(state: &mut Option<SpawnBallState>, delta_ns: u64) -> (n: usize)
    ensures
        state_view(*final(state)) == spawn_step(state_view(*old(state)), delta_ns as nat).0,
        n == spawn_step(state_view(*old(state)), delta_ns as nat).1,
{
    match state {
        None => 0,
        Some(s) => {
            if s.timer.paused() {
                return 0;
            }
            let finished = s.timer.tick(delta_ns);
            if finished > 0 {
                BALLS_PER_WAVE
            } else {
                0
            }
        },
    }
}

/// Runs one frame of the spawner and returns the balls it drops, each at a
/// fresh random position in the spawn region.
pub fn spawn_ball(state: &mut Option<SpawnBallState>, delta_ns: u64) -> (r: Vec<Body>)
    ensures
        state_view(*final(state)) == spawn_step(state_view(*old(state)), delta_ns as nat).0,
        r@.len() == spawn_step(state_view(*old(state)), delta_ns as nat).1,
        forall|i: int| 0 <= i < r@.len() ==> is_spawned_ball(#[trigger] r@[i]),
{
    let n = balls_due(state, delta_ns);
    if n == 0 {
        return Vec::new();
    }
    let positions = random_positions(n);
    let r = balls_at(&positions);
    assert forall|i: int| 0 <= i < r@.len() implies is_spawned_ball(#[trigger] r@[i]) by {
        assert(r@[i] == ball_at(positions@[i]));
        assert(in_spawn_region(positions@[i]));
    }
    r
}

/// The frame lengths of a run, as naturals.
pub open spec fn frame_lengths(deltas: Seq<u64>) -> Seq<nat> {
    deltas.map_values(|d: u64| d as nat)
}

/// Runs the spawner over consecutive frames of the given lengths and returns
/// every ball it dropped, in order: the state and the count are those of
/// `spawn_run` over the same frames.
pub fn spawn_over_frames(state: &mut Option<SpawnBallState>, deltas: &Vec<u64>) -> (r: Vec<Body>)
    ensures
        state_view(*final(state)) == spawn_run(state_view(*old(state)), frame_lengths(deltas@)).0,
        r@.len() == spawn_run(state_view(*old(state)), frame_lengths(deltas@)).1,
        forall|i: int| 0 <= i < r@.len() ==> is_spawned_ball(#[trigger] r@[i]),
{
    let ghost start = state_view(*state);
    let mut r: Vec<Body> = Vec::new();
    let mut i: usize = 0;
    while i < deltas.len()
        invariant
            i <= deltas@.len(),
            state_view(*state) == spawn_run(start, frame_lengths(deltas@.subrange(0, i as int))).0,
            r@.len() == spawn_run(start, frame_lengths(deltas@.subrange(0, i as int))).1,
            forall|j: int| 0 <= j < r@.len() ==> is_spawned_ball(#[trigger] r@[j]),
        decreases deltas@.len() - i,
    {
        let ghost before = r@;
        let mut wave = spawn_ball(state, deltas[i]);
        let ghost wave_view = wave@;
        r.append(&mut wave);
        proof {
            let prefix = frame_lengths(deltas@.subrange(0, i + 1));
            assert(prefix.drop_last() =~= frame_lengths(deltas@.subrange(0, i as int)));
            assert(prefix.last() == deltas@[i as int] as nat);
            assert forall|j: int| 0 <= j < r@.len() implies is_spawned_ball(#[trigger] r@[j]) by {
                if j < before.len() {
                    assert(r@[j] == before[j]);
                } else {
                    assert(r@[j] == wave_view[j - before.len()]);
                }
            }
        }
        i = i + 1;
    }
    assert(deltas@.subrange(0, i as int) =~= deltas@);
    r
}

/// Builds the start-up scene: the five static bodies of the arena, then
/// `INITIAL_BALLS` balls at random positions in the spawn region, a light and a
/// free-flying camera. It keeps no state, so each call gives a whole new scene.
pub fn spawn() -> (w: World)
    ensures
        w.bodies@.len() == 5 + INITIAL_BALLS,
        w.bodies@.subrange(0, 5) == arena(),
        forall|i: int| 5 <= i < w.bodies@.len() ==> is_spawned_ball(#[trigger] w.bodies@[i]),
        forall|i: int| 0 <= i < w.bodies@.len() ==> collider_fits_mesh(#[trigger] w.bodies@[i]),
        w.light == scene_light(),
        w.camera == scene_camera(),
{
    let positions = random_positions(INITIAL_BALLS);
    let w = world_from(&positions);
    let ghost balls = positions@.map_values(|p: Vec3| ball_at(p));
    assert(w.bodies@.subrange(0, 5) =~= arena());
    assert forall|i: int| 5 <= i < w.bodies@.len() implies is_spawned_ball(#[trigger] w.bodies@[i]) by {
        assert(w.bodies@[i] == balls[i - 5]);
        assert(in_spawn_region(positions@[i - 5]));
    }
    assert forall|i: int| 0 <= i < w.bodies@.len() implies collider_fits_mesh(#[trigger] w.bodies@[i]) by {
        if i < 5 {
            assert(w.bodies@[i] == arena()[i]);
            assert(collider_fits_mesh(arena()[i]));
        } else {
            assert(w.bodies@[i] == balls[i - 5]);
        }
    }
    w
}

/// Over frames that each last at most one interval, a running spawner drops one
/// wave for every whole interval in the time that has passed, and keeps the
/// remainder in its accumulator.
pub proof fn lemma_spawn_cadence(t: TimerView, deltas: Seq<nat>)
    requires
        t.valid(),
        !t.paused,
        forall|i: int| 0 <= i < deltas.len() ==> #[trigger] deltas[i] <= t.duration,
    ensures
        spawn_run(Some(t), deltas) == (
            Some(TimerView { elapsed: (t.elapsed + total(deltas)) % t.duration, ..t }),
            (BALLS_PER_WAVE * ((t.elapsed + total(deltas)) / t.duration)) as nat,
        ),
    decreases deltas.len(),
{
    if deltas.len() == 0 {
        lemma_fundamental_div_mod_converse(t.elapsed as int, t.duration as int, 0, t.elapsed as int);
    } else {
        let init = deltas.drop_last();
        let d = deltas.last() as int;
        assert forall|i: int| 0 <= i < init.len() implies #[trigger] init[i] <= t.duration by {
            assert(init[i] == deltas[i]);
        }
        lemma_spawn_cadence(t, init);
        let dur = t.duration as int;
        let sum = (t.elapsed + total(init)) as int;
        let q = sum / dur;
        let e = sum % dur;
        vstd::arithmetic::div_mod::lemma_fundamental_div_mod(sum as int, dur);
        assert(0 <= e < dur);
        assert(d <= dur) by {
            assert(deltas[deltas.len() - 1] <= t.duration);
        }
        assert(total(deltas) == total(init) + d);
        if e + d < dur {
            assert(sum + d == q * dur + (e + d)) by (nonlinear_arith)
                requires
                    sum == dur * q + e,
            ;
            lemma_fundamental_div_mod_converse(sum + d, dur, q, e + d);
            lemma_fundamental_div_mod_converse(e + d, dur, 0, e + d);
        } else {
            assert(sum + d == (q + 1) * dur + (e + d - dur)) by (nonlinear_arith)
                requires
                    sum == dur * q + e,
            ;
            lemma_fundamental_div_mod_converse(sum + d, dur, q + 1, e + d - dur);
            lemma_fundamental_div_mod_converse(e + d, dur, 1, e + d - dur);
            assert(BALLS_PER_WAVE * q + BALLS_PER_WAVE == BALLS_PER_WAVE * (q + 1)) by (nonlinear_arith);
        }
    }
}

/// A paused spawner drops nothing and its accumulator stays where it was,
/// however many frames pass.
pub proof fn lemma_paused_spawns_nothing(t: TimerView, deltas: Seq<nat>)
    requires
        t.paused,
    ensures
        spawn_run(Some(t), deltas) == (Some(t), 0nat),
    decreases deltas.len(),
{
    if deltas.len() > 0 {
        lemma_paused_spawns_nothing(t, deltas.drop_last());
    }
}

/// Without a state the spawner drops nothing, however many frames pass.
pub proof fn lemma_absent_state_spawns_nothing(deltas: Seq<nat>)
    ensures
        spawn_run(None, deltas) == (None::<TimerView>, 0nat),
    decreases deltas.len(),
{
    if deltas.len() > 0 {
        lemma_absent_state_spawns_nothing(deltas.drop_last());
    }
}

} // verus!
