//! One frame of the simulation: every rule once, in a fixed order.

use crate::collision::{
    collect_star, collect_star_spec, enemy_player_collision, enemy_player_collision_spec,
};
use crate::geometry::Viewport;
use crate::movement::{
    constrain_player, constrain_player_spec, enemy_movement, enemy_movement_spec, inside,
    player_movement, player_movement_spec, update_enemy_movement, update_enemy_movement_spec,
};
use crate::protocol::{
    ends_run, game_over_text, handle_game_over, handle_game_over_spec, score_text, update_score,
    update_score_spec,
};
use crate::spawning::{
    spawn_enemy_over_time, spawn_enemy_over_time_spec, spawn_star_over_time,
    spawn_star_over_time_spec,
};
use crate::timer::{ticked, SpawnEmemyTimer, StarSpawnTimer};
use crate::world::{PressedKeys, World, WorldView, PLAYER_SIZE};
use vstd::prelude::*;

verus! {

/// The world after the star timer has advanced by `delta` nanoseconds.
pub open spec fn update_spawn_star_timer_spec(w: WorldView, delta: u64) -> WorldView {
    WorldView {
        star_spawn_timer: StarSpawnTimer { timer: ticked(w.star_spawn_timer.timer, delta) },
        ..w
    }
}

/// Advances the star timer by the time of one frame.
pub fn update_spawn_star_timer(world: &mut World, delta: u64)
    ensures
        final(world)@ == update_spawn_star_timer_spec(old(world)@, delta),
{
    world.star_spawn_timer.timer.tick(delta);
}

/// The world after the enemy timer has advanced by `delta` nanoseconds.
pub open spec fn update_enemy_spawn_timer_spec(w: WorldView, delta: u64) -> WorldView {
    WorldView {
        enemy_spawn_timer: SpawnEmemyTimer { timer: ticked(w.enemy_spawn_timer.timer, delta) },
        ..w
    }
}

/// Advances the enemy timer by the time of one frame.
pub fn update_enemy_spawn_timer(world: &mut World, delta: u64)
    ensures
        final(world)@ == update_enemy_spawn_timer_spec(old(world)@, delta),
{
    world.enemy_spawn_timer.timer.tick(delta);
}

/// The numbers that one frame may draw: two for a new star, four for a new
/// enemy.
pub struct FrameDraws {
    pub star_x: u32,
    pub star_y: u32,
    pub enemy_x: u32,
    pub enemy_y: u32,
    pub enemy_dx: u32,
    pub enemy_dy: u32,
}

/// What one frame reports.
#[derive(Debug)]
pub struct FrameReport {
    /// The score report, when the score has changed.
    pub score: Option<String>,
    /// The final report, when the run ends in this frame; it is also the
    /// request to stop.
    pub game_over: Option<String>,
}

/// The world after timers, spawning, movement and the edge rules of one frame.
pub open spec fn frame_moved_spec(
    w: WorldView,
    keys: PressedKeys,
    delta: u64,
    viewport: Viewport,
    d: FrameDraws,
) -> WorldView {
    let w = update_spawn_star_timer_spec(w, delta);
    let w = update_enemy_spawn_timer_spec(w, delta);
    let w = spawn_star_over_time_spec(w, viewport, d.star_x, d.star_y);
    let w = spawn_enemy_over_time_spec(w, viewport, d.enemy_x, d.enemy_y, d.enemy_dx, d.enemy_dy);
    let w = player_movement_spec(w, keys, delta);
    let w = constrain_player_spec(w, viewport);
    let w = enemy_movement_spec(w, delta);
    update_enemy_movement_spec(w, viewport)
}

/// The world after the collision rules of one frame: stars are collected
/// first, so that a signal of the same frame carries the score with them.
pub open spec fn frame_collided_spec(
    w: WorldView,
    keys: PressedKeys,
    delta: u64,
    viewport: Viewport,
    d: FrameDraws,
) -> WorldView {
    enemy_player_collision_spec(collect_star_spec(frame_moved_spec(w, keys, delta, viewport, d)))
}

/// The world at the end of one frame.
pub open spec fn frame_spec(
    w: WorldView,
    keys: PressedKeys,
    delta: u64,
    viewport: Viewport,
    d: FrameDraws,
) -> WorldView {
    handle_game_over_spec(update_score_spec(frame_collided_spec(w, keys, delta, viewport, d)))
}

/// The text of an optional report.
pub open spec fn text_of(report: Option<String>) -> Option<Seq<char>> {
    match report {
        Some(s) => Some(s@),
        None => None,
    }
}

/// The score report of a frame whose collisions left the world `w`.
pub open spec fn frame_score_report(w: WorldView) -> Option<Seq<char>> {
    if w.score.value != w.reported_score {
        Some(score_text(w.score.value))
    } else {
        None
    }
}

/// The final report of a frame whose collisions left the world `w`.
pub open spec fn frame_game_over_report(w: WorldView) -> Option<Seq<char>> {
    if ends_run(w) {
        Some(game_over_text(w.pending.unwrap().score))
    } else {
        None
    }
}

/// Whether `world` and `report` are what one frame makes of `w` with the
/// draws `d`.
pub open spec fn frame_result(
    w: WorldView,
    keys: PressedKeys,
    delta: u64,
    viewport: Viewport,
    d: FrameDraws,
    world: WorldView,
    report: FrameReport,
) -> bool {
    let collided = frame_collided_spec(w, keys, delta, viewport, d);
    &&& world == frame_spec(w, keys, delta, viewport, d)
    &&& text_of(report.score) == frame_score_report(collided)
    &&& text_of(report.game_over) == frame_game_over_report(collided)
}

/// The stars that the timed spawning adds in a frame of `delta` nanoseconds.
pub open spec fn stars_spawned(w: WorldView, delta: u64) -> int {
    if ticked(w.star_spawn_timer.timer, delta).finished {
        1
    } else {
        0
    }
}

/// Runs one frame: both timers, timed spawning, player movement and
/// containment, enemy movement and the edge test, collection, the fatal
/// test, score reporting and the game-over protocol.
pub fn frame(world: &mut World, keys: PressedKeys, delta: u64, viewport: Viewport) -> (report:
    FrameReport)
    requires
        old(world)@.wf(),
        old(world)@.movable(),
        viewport.valid(),
        old(world).score.value + old(world).stars.len() + 1 <= u32::MAX,
    ensures
        exists|d: FrameDraws| #[trigger]
            frame_result(old(world)@, keys, delta, viewport, d, final(world)@, report),
        final(world)@.wf(),
        final(world).score.value >= old(world).score.value,
        final(world).score.value - old(world).score.value == old(world).stars.len()
            + stars_spawned(old(world)@, delta) - final(world).stars.len(),
        (viewport.width >= PLAYER_SIZE && viewport.height >= PLAYER_SIZE) ==> (final(world).player
            matches Some(p) ==> inside(p.position, PLAYER_SIZE as int / 2, viewport)),
        final(world).pending.is_none(),
{
    update_spawn_star_timer(world, delta);
    update_enemy_spawn_timer(world, delta);
    let ghost w2 = world@;
    spawn_star_over_time(world, viewport);
    let ghost w3 = world@;
    let ghost (star_x, star_y) = choose|fx: u32, fy: u32|
        w3 == #[trigger] spawn_star_over_time_spec(w2, viewport, fx, fy);
    spawn_enemy_over_time(world, viewport);
    let ghost w4 = world@;
    let ghost (enemy_x, enemy_y, enemy_dx, enemy_dy) = choose|
        fx: u32,
        fy: u32,
        dx: u32,
        dy: u32,
    |
        w4 == #[trigger] spawn_enemy_over_time_spec(w3, viewport, fx, fy, dx, dy);
    let ghost d = FrameDraws { star_x, star_y, enemy_x, enemy_y, enemy_dx, enemy_dy };
    player_movement(world, keys, delta);
    constrain_player(world, viewport);
    enemy_movement(world, delta);
    update_enemy_movement(world, viewport);
    assert(world@ == frame_moved_spec(old(world)@, keys, delta, viewport, d));
    collect_star(world);
    enemy_player_collision(world);
    let score = update_score(world);
    let game_over = handle_game_over(world);
    let report = FrameReport { score, game_over };
    assert(frame_result(old(world)@, keys, delta, viewport, d, world@, report));
    report
}

} // verus!
