//! The proximity rules: contact with an enemy ends the run, contact with a
//! star collects it.

use crate::geometry::{within_reach, within_reach_spec, Vec2};
use crate::world::{Enemy, GameOver, Score, Star, World, WorldView};
use vstd::prelude::*;

verus! {

/// Largest distance between centres at which the player touches an enemy:
/// half the player's size plus half an enemy's.
pub const ENEMY_REACH: i64 = 64000;

/// Largest distance between centres at which the player touches a star:
/// half the player's size plus half a star's.
pub const STAR_REACH: i64 = 47000;

/// Whether some enemy stands within reach of the position `p`.
pub open spec fn any_enemy_touches(p: Vec2, enemies: Seq<Enemy>) -> bool {
    exists|i: int|
        0 <= i < enemies.len() && within_reach_spec(
            p,
            (#[trigger] enemies[i]).position,
            ENEMY_REACH as int,
        )
}

/// The world after the fatal test: where a live player touches an enemy the
/// player is gone and one signal with the current score waits; otherwise
/// nothing changes.
pub open spec fn enemy_player_collision_spec(w: WorldView) -> WorldView {
    match w.player {
        Some(p) => if any_enemy_touches(p.position, w.enemies) {
            WorldView { player: None, pending: Some(GameOver { score: w.score.value }), ..w }
        } else {
            w
        },
        None => w,
    }
}

/// Whether some enemy stands within reach of the position `p`.
pub fn touches_any_enemy(p: Vec2, enemies: &Vec<Enemy>) -> (hit: bool)
    ensures
        hit == any_enemy_touches(p, enemies@),
{
    let n: usize = enemies.len();
    let mut i: usize = 0;
    while i < n
        invariant
            i <= n,
            n == enemies.len(),
            forall|k: int|
                0 <= k < i ==> !within_reach_spec(
                    p,
                    (#[trigger] enemies@[k]).position,
                    ENEMY_REACH as int,
                ),
        decreases n - i,
    {
        if within_reach(p, enemies[i].position, ENEMY_REACH) {
            assert(within_reach_spec(p, enemies@[i as int].position, ENEMY_REACH as int));
            return true;
        }
        i = i + 1;
    }
    false
}

/// Removes the player and leaves one game-over signal where the player
/// touches an enemy, however many enemies it touches.
pub fn enemy_player_collision(world: &mut World)
    ensures
        final(world)@ == enemy_player_collision_spec(old(world)@),
{
    if let Some(p) = world.player {
        if touches_any_enemy(p.position, &world.enemies) {
            world.player = None;
            world.pending = Some(GameOver { score: world.score.value });
        }
    }
}

/// The test that a star passes when it lies beyond the reach of `p`.
pub open spec fn beyond_reach(p: Vec2) -> spec_fn(Star) -> bool {
    |s: Star| !within_reach_spec(p, s.position, STAR_REACH as int)
}

/// The stars that stay when the player stands at `p`: those beyond reach, in
/// their order.
pub open spec fn uncollected(stars: Seq<Star>, p: Vec2) -> Seq<Star> {
    stars.filter(beyond_reach(p))
}

/// The world after collection: a live player removes every star within
/// reach and scores one point for each; without a player nothing changes.
pub open spec fn collect_star_spec(w: WorldView) -> WorldView {
    match w.player {
        Some(p) => WorldView {
            stars: uncollected(w.stars, p.position),
            score: Score {
                value: (w.score.value + w.stars.len() - uncollected(
                    w.stars,
                    p.position,
                ).len()) as u32,
            },
            ..w
        },
        None => w,
    }
}

/// Collects every star within reach of the player, one point each.
pub fn collect_star(world: &mut World)
    requires
        old(world).score.value + old(world).stars.len() <= u32::MAX,
    ensures
        final(world)@ == collect_star_spec(old(world)@),
        final(world).score.value >= old(world).score.value,
        final(world).score.value - old(world).score.value == old(world).stars.len() - final(world).stars.len(),
{
    if let Some(p) = world.player {
        let mut kept: Vec<Star> = Vec::new();
        let mut gained: u32 = 0;
        let n: usize = world.stars.len();
        let mut i: usize = 0;
        while i < n
            invariant
                i <= n,
                n == world.stars.len(),
                *world == *old(world),
                world.score.value + n <= u32::MAX,
                kept@ == uncollected(world.stars@.take(i as int), p.position),
                gained + kept.len() == i,
            decreases n - i,
        {
            let s: Star = world.stars[i];
            proof {
                reveal(Seq::filter);
                assert(world.stars@.take(i + 1).drop_last() =~= world.stars@.take(i as int));
            }
            if within_reach(p.position, s.position, STAR_REACH) {
                gained = gained + 1;
            } else {
                kept.push(s);
            }
            i = i + 1;
        }
        assert(world.stars@.take(n as int) =~= world.stars@);
        world.stars = kept;
        world.score.value = world.score.value + gained;
    }
}

} // verus!
