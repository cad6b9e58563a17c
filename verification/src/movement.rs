//! The rules that move the player and the enemies, hold the player inside
//! the viewport and turn enemies round at its edges.

use crate::geometry::{
    clamp_axis, clamp_axis_spec, displacement, displacement_spec, in_range, outside_axis, Vec2,
    Viewport, FRACTION_DIAGONAL, FRACTION_ONE, SPEED_LIMIT,
};
use crate::world::{
    direction_valid, Enemy, Player, PressedKeys, World, WorldView, ENEMY_SIZE, ENEMY_SPEED,
    PLAYER_SIZE, PLAYER_SPEED,
};
use vstd::prelude::*;

verus! {

/// The signed unit that a pair of opposite keys asks for: 1, -1, or 0 when
/// both or neither are held.
pub open spec fn key_axis(positive: bool, negative: bool) -> int {
    (if positive { 1int } else { 0int }) - (if negative { 1int } else { 0int })
}

/// A length with the sign of `sign`.
pub open spec fn signed(sign: int, length: i64) -> i64 {
    if sign > 0 {
        length
    } else if sign < 0 {
        (-length) as i64
    } else {
        0
    }
}

/// The direction that the held keys ask for, brought to unit length: along
/// one axis a full unit, along a diagonal the diagonal unit on both axes.
pub open spec fn player_direction_spec(keys: PressedKeys) -> Vec2 {
    let sx = key_axis(keys.right, keys.left);
    let sy = key_axis(keys.up, keys.down);
    let unit = if sx != 0 && sy != 0 { FRACTION_DIAGONAL } else { FRACTION_ONE };
    Vec2 { x: signed(sx, unit), y: signed(sy, unit) }
}

/// Computes the direction that the held keys ask for. Its length never
/// exceeds one unit, so a diagonal is no faster than an axis.
pub fn player_direction(keys: PressedKeys) -> (d: Vec2)
    ensures
        d == player_direction_spec(keys),
        direction_valid(d),
        d.x * d.x + d.y * d.y <= FRACTION_ONE * FRACTION_ONE,
{
    let mut sx: i64 = 0;
    let mut sy: i64 = 0;
    if keys.up {
        sy = sy + 1;
    }
    if keys.down {
        sy = sy - 1;
    }
    if keys.left {
        sx = sx - 1;
    }
    if keys.right {
        sx = sx + 1;
    }
    let unit: i64 = if sx != 0 && sy != 0 { FRACTION_DIAGONAL } else { FRACTION_ONE };
    let x: i64 = if sx > 0 { unit } else if sx < 0 { -unit } else { 0 };
    let y: i64 = if sy > 0 { unit } else if sy < 0 { -unit } else { 0 };
    let d = Vec2 { x, y };
    assert(d.x * d.x + d.y * d.y <= 4294967296 * 4294967296) by (nonlinear_arith)
        requires
            (d.x == 0 && (d.y == 4294967296 || d.y == -4294967296 || d.y == 0)) || (d.y == 0 && (
            d.x == 4294967296 || d.x == -4294967296)) || ((d.x == 3037000499 || d.x
                == -3037000499) && (d.y == 3037000499 || d.y == -3037000499)),
    ;
    d
}

/// A position after travelling along `direction` at `speed` for `delta`
/// nanoseconds.
pub open spec fn moved(position: Vec2, direction: Vec2, speed: int, delta: u64) -> Vec2 {
    Vec2 {
        x: (position.x + displacement_spec(direction.x as int, speed, delta as int)) as i64,
        y: (position.y + displacement_spec(direction.y as int, speed, delta as int)) as i64,
    }
}

/// Moves a position along `direction` at `speed` for `delta` nanoseconds.
pub fn travel(position: Vec2, direction: Vec2, speed: i64, delta: u64) -> (p: Vec2)
    requires
        in_range(position),
        direction_valid(direction),
        0 <= speed <= SPEED_LIMIT,
    ensures
        p == moved(position, direction, speed as int, delta),
        p.x == position.x + displacement_spec(direction.x as int, speed as int, delta as int),
        p.y == position.y + displacement_spec(direction.y as int, speed as int, delta as int),
{
    let dx: i64 = displacement(direction.x, speed, delta);
    let dy: i64 = displacement(direction.y, speed, delta);
    Vec2 { x: position.x + dx, y: position.y + dy }
}

/// The world after the player has moved: a live player travels along the
/// direction of the held keys; without a player nothing changes.
pub open spec fn player_movement_spec(w: WorldView, keys: PressedKeys, delta: u64) -> WorldView {
    match w.player {
        Some(p) => WorldView {
            player: Some(
                Player {
                    position: moved(
                        p.position,
                        player_direction_spec(keys),
                        PLAYER_SPEED as int,
                        delta,
                    ),
                },
            ),
            ..w
        },
        None => w,
    }
}

/// Moves the player along the held keys for `delta` nanoseconds.
pub fn player_movement(world: &mut World, keys: PressedKeys, delta: u64)
    requires
        old(world).player matches Some(p) ==> in_range(p.position),
    ensures
        final(world)@ == player_movement_spec(old(world)@, keys, delta),
{
    if let Some(p) = world.player {
        let direction = player_direction(keys);
        let position = travel(p.position, direction, PLAYER_SPEED, delta);
        world.player = Some(Player { position });
    }
}

/// A position held inside the margins of the viewport, each axis by itself.
pub open spec fn contained(position: Vec2, half: int, viewport: Viewport) -> Vec2 {
    Vec2 {
        x: clamp_axis_spec(position.x as int, half, viewport.width as int) as i64,
        y: clamp_axis_spec(position.y as int, half, viewport.height as int) as i64,
    }
}

/// Whether a position lies inside the margins of the viewport.
pub open spec fn inside(position: Vec2, half: int, viewport: Viewport) -> bool {
    half <= position.x <= viewport.width - half && half <= position.y <= viewport.height - half
}

/// The world after the player has been held inside the viewport.
pub open spec fn constrain_player_spec(w: WorldView, viewport: Viewport) -> WorldView {
    match w.player {
        Some(p) => WorldView {
            player: Some(
                Player { position: contained(p.position, PLAYER_SIZE as int / 2, viewport) },
            ),
            ..w
        },
        None => w,
    }
}

/// Holds the player inside the viewport: a hard stop at each edge.
pub fn constrain_player(world: &mut World, viewport: Viewport)
    requires
        viewport.valid(),
    ensures
        final(world)@ == constrain_player_spec(old(world)@, viewport),
        final(world).player matches Some(p) ==> in_range(p.position),
        (viewport.width >= PLAYER_SIZE && viewport.height >= PLAYER_SIZE) ==> (final(world).player
            matches Some(p) ==> inside(p.position, PLAYER_SIZE as int / 2, viewport)),
{
    if let Some(p) = world.player {
        let half: i64 = PLAYER_SIZE / 2;
        let x: i64 = clamp_axis(p.position.x, half, viewport.width);
        let y: i64 = clamp_axis(p.position.y, half, viewport.height);
        world.player = Some(Player { position: Vec2 { x, y } });
    }
}

/// An enemy after travelling along its own direction.
pub open spec fn moved_enemy(e: Enemy, delta: u64) -> Enemy {
    Enemy { position: moved(e.position, e.direction, ENEMY_SPEED as int, delta), direction: e.direction }
}

/// The world after every enemy has moved.
pub open spec fn enemy_movement_spec(w: WorldView, delta: u64) -> WorldView {
    WorldView { enemies: Seq::new(w.enemies.len(), |i: int| moved_enemy(w.enemies[i], delta)), ..w }
}

/// Moves every enemy along its direction for `delta` nanoseconds. Directions
/// stay as they are.
pub fn enemy_movement(world: &mut World, delta: u64)
    requires
        old(world)@.wf(),
        forall|i: int|
            0 <= i < old(world).enemies.len() ==> in_range(#[trigger] old(world).enemies[i].position),
    ensures
        final(world)@ == enemy_movement_spec(old(world)@, delta),
        final(world)@.wf(),
{
    let mut next: Vec<Enemy> = Vec::new();
    let n: usize = world.enemies.len();
    let mut i: usize = 0;
    while i < n
        invariant
            i <= n,
            n == world.enemies.len(),
            *world == *old(world),
            world@.wf(),
            forall|k: int|
                0 <= k < world.enemies.len() ==> in_range(#[trigger] world.enemies[k].position),
            next.len() == i,
            forall|k: int| 0 <= k < i ==> next[k] == moved_enemy(world.enemies[k], delta),
        decreases n - i,
    {
        let e: Enemy = world.enemies[i];
        assert(direction_valid(world@.enemies[i as int].direction));
        let position = travel(e.position, e.direction, ENEMY_SPEED, delta);
        next.push(Enemy { position, direction: e.direction });
        i = i + 1;
    }
    world.enemies = next;
    assert(world@.enemies =~= enemy_movement_spec(old(world)@, delta).enemies);
}

/// One direction component after the edge test on its axis: the sign flips
/// exactly when the coordinate lies outside the margins.
pub open spec fn bounced_axis(direction: int, value: int, half: int, extent: int) -> int {
    if outside_axis(value, half, extent) {
        -direction
    } else {
        direction
    }
}

/// An enemy after the edge test: each axis is tested by itself, and the
/// position stays as it is.
pub open spec fn bounced(e: Enemy, viewport: Viewport) -> Enemy {
    Enemy {
        position: e.position,
        direction: Vec2 {
            x: bounced_axis(
                e.direction.x as int,
                e.position.x as int,
                ENEMY_SIZE as int / 2,
                viewport.width as int,
            ) as i64,
            y: bounced_axis(
                e.direction.y as int,
                e.position.y as int,
                ENEMY_SIZE as int / 2,
                viewport.height as int,
            ) as i64,
        },
    }
}

/// The world after every enemy has been tested against the edges.
pub open spec fn update_enemy_movement_spec(w: WorldView, viewport: Viewport) -> WorldView {
    WorldView { enemies: Seq::new(w.enemies.len(), |i: int| bounced(w.enemies[i], viewport)), ..w }
}

/// Turns one enemy round on each axis on which it has left the margins.
pub fn bounce(e: Enemy, viewport: Viewport) -> (r: Enemy)
    requires
        viewport.valid(),
        direction_valid(e.direction),
    ensures
        r == bounced(e, viewport),
        direction_valid(r.direction),
{
    let half: i64 = ENEMY_SIZE / 2;
    let mut direction = e.direction;
    if e.position.x > viewport.width - half || e.position.x < half {
        direction.x = -direction.x;
    }
    if e.position.y > viewport.height - half || e.position.y < half {
        direction.y = -direction.y;
    }
    Enemy { position: e.position, direction }
}

/// Turns every enemy round on each axis on which it has left the margins.
pub fn update_enemy_movement(world: &mut World, viewport: Viewport)
    requires
        viewport.valid(),
        old(world)@.wf(),
    ensures
        final(world)@ == update_enemy_movement_spec(old(world)@, viewport),
        final(world)@.wf(),
{
    let mut next: Vec<Enemy> = Vec::new();
    let n: usize = world.enemies.len();
    let mut i: usize = 0;
    while i < n
        invariant
            i <= n,
            n == world.enemies.len(),
            *world == *old(world),
            world@.wf(),
            viewport.valid(),
            next.len() == i,
            forall|k: int| 0 <= k < i ==> next[k] == bounced(world.enemies[k], viewport),
            forall|k: int| 0 <= k < i ==> direction_valid(#[trigger] next[k].direction),
        decreases n - i,
    {
        let e: Enemy = world.enemies[i];
        assert(direction_valid(world@.enemies[i as int].direction));
        let r = bounce(e, viewport);
        next.push(r);
        i = i + 1;
    }
    world.enemies = next;
    assert(world@.enemies =~= update_enemy_movement_spec(old(world)@, viewport).enemies);
}

} // verus!
