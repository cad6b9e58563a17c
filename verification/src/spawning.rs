//! The rules that place the player, the enemies and the stars: once when the
//! world is set up, and one more each time a spawn timer is ready.

use crate::geometry::{in_range, spawn_coordinate, spawn_coordinate_spec, Vec2, Viewport};
use crate::movement::inside;
use crate::world::{
    direction_valid, Enemy, Player, Star, World, WorldView, ENEMIES_COUNT, ENEMY_SIZE, STAR_COUNT,
    STAR_SIZE,
};
use vstd::prelude::*;

verus! {

/// Draws one number with `rand::random::<u32>()`, which samples the thread's
/// generator uniformly over all of `u32`. The number stands for the fraction
/// `f / 2^32` in `[0, 1)`. Nothing is claimed of the value: each call may
/// return any `u32`.
#[verifier::external_body]
fn draw_fraction() -> (f: u32) {
    rand::random::<u32>()
}

/// The star that the two drawn fractions place in the viewport.
pub open spec fn star_at_spec(viewport: Viewport, fx: u32, fy: u32) -> Star {
    Star {
        position: Vec2 {
            x: spawn_coordinate_spec(viewport.width as int, STAR_SIZE as int, fx as int) as i64,
            y: spawn_coordinate_spec(viewport.height as int, STAR_SIZE as int, fy as int) as i64,
        },
    }
}

/// Places a star from two drawn fractions, one for each axis.
pub fn star_at(viewport: Viewport, fx: u32, fy: u32) -> (s: Star)
    requires
        viewport.valid(),
    ensures
        s == star_at_spec(viewport, fx, fy),
        (viewport.width >= STAR_SIZE && viewport.height >= STAR_SIZE) ==> inside(
            s.position,
            STAR_SIZE as int / 2,
            viewport,
        ),
{
    let x: i64 = spawn_coordinate(viewport.width, STAR_SIZE, fx);
    let y: i64 = spawn_coordinate(viewport.height, STAR_SIZE, fy);
    Star { position: Vec2 { x, y } }
}

/// The enemy that four drawn fractions make: two place it in the viewport,
/// two are its direction as they are, so neither component is negative.
pub open spec fn enemy_at_spec(viewport: Viewport, fx: u32, fy: u32, dx: u32, dy: u32) -> Enemy {
    Enemy {
        position: Vec2 {
            x: spawn_coordinate_spec(viewport.width as int, ENEMY_SIZE as int, fx as int) as i64,
            y: spawn_coordinate_spec(viewport.height as int, ENEMY_SIZE as int, fy as int) as i64,
        },
        direction: Vec2 { x: dx as i64, y: dy as i64 },
    }
}

/// Makes an enemy from four drawn fractions: position, then direction.
pub fn enemy_at(viewport: Viewport, fx: u32, fy: u32, dx: u32, dy: u32) -> (e: Enemy)
    requires
        viewport.valid(),
    ensures
        e == enemy_at_spec(viewport, fx, fy, dx, dy),
        direction_valid(e.direction),
        e.direction.x >= 0 && e.direction.y >= 0,
        in_range(e.position),
        (viewport.width >= ENEMY_SIZE && viewport.height >= ENEMY_SIZE) ==> inside(
            e.position,
            ENEMY_SIZE as int / 2,
            viewport,
        ),
{
    let x: i64 = spawn_coordinate(viewport.width, ENEMY_SIZE, fx);
    let y: i64 = spawn_coordinate(viewport.height, ENEMY_SIZE, fy);
    Enemy { position: Vec2 { x, y }, direction: Vec2 { x: dx as i64, y: dy as i64 } }
}

/// The world with the player at the centre of the viewport.
pub open spec fn spawn_players_spec(w: WorldView, viewport: Viewport) -> WorldView {
    WorldView {
        player: Some(
            Player {
                position: Vec2 {
                    x: (viewport.width / 2) as i64,
                    y: (viewport.height / 2) as i64,
                },
            },
        ),
        ..w
    }
}

/// Places the player at the centre of the viewport.
pub fn spawn_players(world: &mut World, viewport: Viewport)
    requires
        viewport.valid(),
    ensures
        final(world)@ == spawn_players_spec(old(world)@, viewport),
{
    world.player = Some(
        Player { position: Vec2 { x: viewport.width / 2, y: viewport.height / 2 } },
    );
}

/// The world with the first stars added: star `i` is placed by the draws
/// `2 * i` and `2 * i + 1`.
pub open spec fn spawn_stars_spec(w: WorldView, viewport: Viewport, draws: Seq<u32>) -> WorldView {
    WorldView {
        stars: w.stars + Seq::new(
            STAR_COUNT as nat,
            |i: int| star_at_spec(viewport, draws[2 * i], draws[2 * i + 1]),
        ),
        ..w
    }
}

/// Adds the first stars at drawn positions. The result is the one that
/// `spawn_stars_spec` gives for the numbers that were drawn.
pub fn spawn_stars(world: &mut World, viewport: Viewport)
    requires
        viewport.valid(),
    ensures
        exists|draws: Seq<u32>|
            draws.len() == 2 * STAR_COUNT && final(world)@ == #[trigger] spawn_stars_spec(
                old(world)@,
                viewport,
                draws,
            ),
{
    let ghost mut draws: Seq<u32> = Seq::empty();
    let mut i: u32 = 0;
    while i < STAR_COUNT
        invariant
            i <= STAR_COUNT,
            viewport.valid(),
            draws.len() == 2 * i,
            world@ == (WorldView {
                stars: old(world)@.stars + Seq::new(
                    i as nat,
                    |k: int| star_at_spec(viewport, draws[2 * k], draws[2 * k + 1]),
                ),
                ..old(world)@
            }),
        decreases STAR_COUNT - i,
    {
        let fx: u32 = draw_fraction();
        let fy: u32 = draw_fraction();
        proof {
            draws = draws.push(fx).push(fy);
        }
        world.stars.push(star_at(viewport, fx, fy));
        i = i + 1;
        assert(world@.stars =~= old(world)@.stars + Seq::new(
            i as nat,
            |k: int| star_at_spec(viewport, draws[2 * k], draws[2 * k + 1]),
        ));
    }
    assert(world@ == spawn_stars_spec(old(world)@, viewport, draws));
}

/// The world with the first enemies added: enemy `i` is made from the draws
/// `4 * i` to `4 * i + 3`.
pub open spec fn spawn_enemies_spec(w: WorldView, viewport: Viewport, draws: Seq<u32>) -> WorldView {
    WorldView {
        enemies: w.enemies + Seq::new(
            ENEMIES_COUNT as nat,
            |i: int|
                enemy_at_spec(
                    viewport,
                    draws[4 * i],
                    draws[4 * i + 1],
                    draws[4 * i + 2],
                    draws[4 * i + 3],
                ),
        ),
        ..w
    }
}

/// Adds the first enemies at drawn positions with drawn directions. The
/// result is the one that `spawn_enemies_spec` gives for the numbers that
/// were drawn.
pub fn spawn_enemies(world: &mut World, viewport: Viewport)
    requires
        viewport.valid(),
        old(world)@.wf(),
    ensures
        exists|draws: Seq<u32>|
            draws.len() == 4 * ENEMIES_COUNT && final(world)@ == #[trigger] spawn_enemies_spec(
                old(world)@,
                viewport,
                draws,
            ),
        final(world)@.wf(),
{
    let ghost mut draws: Seq<u32> = Seq::empty();
    let mut i: usize = 0;
    while i < ENEMIES_COUNT
        invariant
            i <= ENEMIES_COUNT,
            viewport.valid(),
            draws.len() == 4 * i,
            world@.wf(),
            world@ == (WorldView {
                enemies: old(world)@.enemies + Seq::new(
                    i as nat,
                    |k: int|
                        enemy_at_spec(
                            viewport,
                            draws[4 * k],
                            draws[4 * k + 1],
                            draws[4 * k + 2],
                            draws[4 * k + 3],
                        ),
                ),
                ..old(world)@
            }),
        decreases ENEMIES_COUNT - i,
    {
        let fx: u32 = draw_fraction();
        let fy: u32 = draw_fraction();
        let dx: u32 = draw_fraction();
        let dy: u32 = draw_fraction();
        proof {
            draws = draws.push(fx).push(fy).push(dx).push(dy);
        }
        let ghost before = world@;
        world.enemies.push(enemy_at(viewport, fx, fy, dx, dy));
        i = i + 1;
        assert(world@.enemies =~= old(world)@.enemies + Seq::new(
            i as nat,
            |k: int|
                enemy_at_spec(
                    viewport,
                    draws[4 * k],
                    draws[4 * k + 1],
                    draws[4 * k + 2],
                    draws[4 * k + 3],
                ),
        ));
        assert(world@.enemies =~= before.enemies.push(world@.enemies.last()));
    }
    assert(world@ == spawn_enemies_spec(old(world)@, viewport, draws));
}

/// The world after the timed spawning of stars: where the star timer is
/// ready, one more star, placed by the two draws; otherwise nothing changes.
pub open spec fn spawn_star_over_time_spec(
    w: WorldView,
    viewport: Viewport,
    fx: u32,
    fy: u32,
) -> WorldView {
    if w.star_spawn_timer.timer.finished {
        WorldView { stars: w.stars.push(star_at_spec(viewport, fx, fy)), ..w }
    } else {
        w
    }
}

/// Adds one star at a drawn position when the star timer is ready.
pub fn spawn_star_over_time(world: &mut World, viewport: Viewport)
    requires
        viewport.valid(),
    ensures
        exists|fx: u32, fy: u32|
            final(world)@ == #[trigger] spawn_star_over_time_spec(old(world)@, viewport, fx, fy),
{
    if world.star_spawn_timer.timer.finished() {
        let fx: u32 = draw_fraction();
        let fy: u32 = draw_fraction();
        world.stars.push(star_at(viewport, fx, fy));
        assert(world@ == spawn_star_over_time_spec(old(world)@, viewport, fx, fy));
    } else {
        assert(world@ == spawn_star_over_time_spec(old(world)@, viewport, 0, 0));
    }
}

/// The world after the timed spawning of enemies: where the enemy timer is
/// ready, one more enemy, made from the four draws; otherwise nothing changes.
pub open spec fn spawn_enemy_over_time_spec(
    w: WorldView,
    viewport: Viewport,
    fx: u32,
    fy: u32,
    dx: u32,
    dy: u32,
) -> WorldView {
    if w.enemy_spawn_timer.timer.finished {
        WorldView { enemies: w.enemies.push(enemy_at_spec(viewport, fx, fy, dx, dy)), ..w }
    } else {
        w
    }
}

/// Adds one enemy at a drawn position with a drawn direction when the enemy
/// timer is ready.
pub fn spawn_enemy_over_time(world: &mut World, viewport: Viewport)
    requires
        viewport.valid(),
        old(world)@.wf(),
    ensures
        exists|fx: u32, fy: u32, dx: u32, dy: u32|
            final(world)@ == #[trigger] spawn_enemy_over_time_spec(
                old(world)@,
                viewport,
                fx,
                fy,
                dx,
                dy,
            ),
        final(world)@.wf(),
        old(world)@.enemies_in_range() ==> final(world)@.enemies_in_range(),
{
    if world.enemy_spawn_timer.timer.finished() {
        let fx: u32 = draw_fraction();
        let fy: u32 = draw_fraction();
        let dx: u32 = draw_fraction();
        let dy: u32 = draw_fraction();
        world.enemies.push(enemy_at(viewport, fx, fy, dx, dy));
        assert(world@ == spawn_enemy_over_time_spec(old(world)@, viewport, fx, fy, dx, dy));
        assert(world@.enemies =~= old(world)@.enemies.push(world@.enemies.last()));
    } else {
        assert(world@ == spawn_enemy_over_time_spec(old(world)@, viewport, 0, 0, 0, 0));
    }
}

} // verus!
