use star_chase::collision::{collect_star, enemy_player_collision, touches_any_enemy};
use star_chase::geometry::{
    clamp_axis, displacement, spawn_coordinate, within_reach, Vec2, Viewport, FRACTION_DIAGONAL,
    FRACTION_ONE,
};
use star_chase::movement::{
    bounce, constrain_player, enemy_movement, player_direction, player_movement, travel,
    update_enemy_movement,
};
use star_chase::world::{
    Enemy, GameOver, Player, PressedKeys, RunState, Score, Star, World, ENEMY_SPEED, PLAYER_SPEED,
};

const HALF: i64 = 2147483648;

fn viewport() -> Viewport {
    Viewport { width: 800_000, height: 600_000 }
}

fn keys(up: bool, down: bool, left: bool, right: bool) -> PressedKeys {
    PressedKeys { up, down, left, right }
}

fn world_with_player(x: i64, y: i64) -> World {
    let mut world = World::new();
    world.player = Some(Player { position: Vec2 { x, y } });
    world
}

fn star(x: i64, y: i64) -> Star {
    Star { position: Vec2 { x, y } }
}

fn enemy(x: i64, y: i64, dx: i64, dy: i64) -> Enemy {
    Enemy { position: Vec2 { x, y }, direction: Vec2 { x: dx, y: dy } }
}

#[test]
fn new_world_is_empty_and_running() {
    let world = World::new();
    assert!(world.player.is_none());
    assert!(world.enemies.is_empty());
    assert!(world.stars.is_empty());
    assert_eq!(world.score, Score { value: 0 });
    assert_eq!(Score::default().value, 0);
    assert_eq!(world.pending, None);
    assert_eq!(world.state, RunState::Running);
    assert!(world.is_well_formed());
    assert!(world.is_movable());
}

#[test]
fn player_moves_right_then_stops_at_the_edge() {
    let mut world = world_with_player(400_000, 300_000);
    player_movement(&mut world, keys(false, false, false, true), 1_000_000_000);
    assert_eq!(world.player, Some(Player { position: Vec2 { x: 900_000, y: 300_000 } }));
    constrain_player(&mut world, viewport());
    assert_eq!(world.player, Some(Player { position: Vec2 { x: 768_000, y: 300_000 } }));
}

#[test]
fn player_is_held_at_every_edge() {
    let mut world = world_with_player(-5_000, 700_000);
    constrain_player(&mut world, viewport());
    assert_eq!(world.player, Some(Player { position: Vec2 { x: 32_000, y: 568_000 } }));
    let mut inside = world_with_player(32_000, 568_000);
    constrain_player(&mut inside, viewport());
    assert_eq!(inside.player, Some(Player { position: Vec2 { x: 32_000, y: 568_000 } }));
}

#[test]
fn clamp_axis_tests_the_upper_bound_first() {
    assert_eq!(clamp_axis(900_000, 32_000, 800_000), 768_000);
    assert_eq!(clamp_axis(10, 32_000, 800_000), 32_000);
    assert_eq!(clamp_axis(400_000, 32_000, 800_000), 400_000);
    assert_eq!(clamp_axis(20_000, 32_000, 40_000), 8_000);
}

#[test]
fn movement_without_a_player_changes_nothing() {
    let mut world = World::new();
    player_movement(&mut world, keys(true, false, false, true), 1_000_000_000);
    constrain_player(&mut world, viewport());
    collect_star(&mut world);
    enemy_player_collision(&mut world);
    assert!(world.player.is_none());
    assert_eq!(world.score.value, 0);
    assert_eq!(world.pending, None);
}

#[test]
fn key_directions_have_unit_length() {
    assert_eq!(player_direction(keys(false, false, false, false)), Vec2 { x: 0, y: 0 });
    assert_eq!(player_direction(keys(true, false, false, false)), Vec2 { x: 0, y: FRACTION_ONE });
    assert_eq!(player_direction(keys(false, true, false, false)), Vec2 { x: 0, y: -FRACTION_ONE });
    assert_eq!(player_direction(keys(false, false, true, false)), Vec2 { x: -FRACTION_ONE, y: 0 });
    assert_eq!(player_direction(keys(true, true, false, true)), Vec2 { x: FRACTION_ONE, y: 0 });
    assert_eq!(player_direction(keys(true, true, true, true)), Vec2 { x: 0, y: 0 });
    let d = player_direction(keys(true, false, true, false));
    assert_eq!(d, Vec2 { x: -FRACTION_DIAGONAL, y: FRACTION_DIAGONAL });
    assert_eq!(FRACTION_DIAGONAL, 3037000499);
    let one = (FRACTION_ONE as i128) * (FRACTION_ONE as i128);
    let diag = FRACTION_DIAGONAL as i128;
    assert!(2 * diag * diag <= one);
    assert!(2 * (diag + 1) * (diag + 1) > one);
}

#[test]
fn diagonal_movement_is_no_faster() {
    let mut world = world_with_player(400_000, 300_000);
    player_movement(&mut world, keys(true, false, false, true), 1_000_000_000);
    assert_eq!(world.player, Some(Player { position: Vec2 { x: 753_553, y: 653_553 } }));
}

#[test]
fn displacement_rounds_toward_zero() {
    assert_eq!(displacement(FRACTION_ONE, PLAYER_SPEED, 1_000_000_000), 500_000);
    assert_eq!(displacement(-FRACTION_ONE, PLAYER_SPEED, 1_000_000_000), -500_000);
    assert_eq!(displacement(HALF, ENEMY_SPEED, 16_000_000), 1_600);
    assert_eq!(displacement(1, 1, 1_000_000_000), 0);
    assert_eq!(displacement(-1, 1, 1_000_000_000), 0);
    assert_eq!(displacement(FRACTION_ONE, 3, 500_000_000), 1);
    assert_eq!(displacement(-FRACTION_ONE, 3, 500_000_000), -1);
    assert_eq!(displacement(FRACTION_ONE, PLAYER_SPEED, 0), 0);
    assert_eq!(displacement(FRACTION_ONE, 1048576, u64::MAX), 19342813113834066);
}

#[test]
fn travel_adds_the_displacement_on_both_axes() {
    let p = travel(
        Vec2 { x: 100_000, y: 200_000 },
        Vec2 { x: HALF, y: -HALF },
        ENEMY_SPEED,
        1_000_000_000,
    );
    assert_eq!(p, Vec2 { x: 200_000, y: 100_000 });
}

#[test]
fn enemies_move_along_their_direction() {
    let mut world = World::new();
    world.enemies.push(enemy(100_000, 100_000, HALF, HALF));
    world.enemies.push(enemy(700_000, 500_000, -FRACTION_ONE, 0));
    enemy_movement(&mut world, 500_000_000);
    assert_eq!(world.enemies, vec![
        enemy(150_000, 150_000, HALF, HALF),
        enemy(600_000, 500_000, -FRACTION_ONE, 0),
    ]);
}

#[test]
fn enemy_left_of_the_margin_turns_round() {
    let mut world = World::new();
    world.enemies.push(enemy(10_000, 300_000, HALF, HALF));
    update_enemy_movement(&mut world, viewport());
    assert_eq!(world.enemies, vec![enemy(10_000, 300_000, -HALF, HALF)]);
}

#[test]
fn bounce_tests_each_axis_by_itself() {
    let v = viewport();
    assert_eq!(bounce(enemy(400_000, 300_000, HALF, HALF), v), enemy(400_000, 300_000, HALF, HALF));
    assert_eq!(bounce(enemy(32_000, 568_000, HALF, HALF), v), enemy(32_000, 568_000, HALF, HALF));
    assert_eq!(bounce(enemy(768_001, 300_000, HALF, 7), v), enemy(768_001, 300_000, -HALF, 7));
    assert_eq!(bounce(enemy(400_000, 31_999, HALF, 7), v), enemy(400_000, 31_999, HALF, -7));
    assert_eq!(bounce(enemy(900_000, 700_000, -5, 7), v), enemy(900_000, 700_000, 5, -7));
    assert_eq!(
        bounce(bounce(enemy(900_000, 700_000, -5, 7), v), v),
        enemy(900_000, 700_000, -5, 7)
    );
}

#[test]
fn enemy_overshoots_before_it_turns() {
    let mut world = World::new();
    world.enemies.push(enemy(760_000, 300_000, FRACTION_ONE, 0));
    enemy_movement(&mut world, 100_000_000);
    update_enemy_movement(&mut world, viewport());
    assert_eq!(world.enemies, vec![enemy(780_000, 300_000, -FRACTION_ONE, 0)]);
}

#[test]
fn reach_is_measured_by_euclidean_distance() {
    let origin = Vec2 { x: 0, y: 0 };
    assert!(within_reach(origin, Vec2 { x: 3, y: 4 }, 5));
    assert!(!within_reach(origin, Vec2 { x: 3, y: 4 }, 4));
    assert!(within_reach(origin, Vec2 { x: -47_000, y: 0 }, 47_000));
    assert!(!within_reach(origin, Vec2 { x: 40_000, y: 40_000 }, 47_000));
    assert!(within_reach(origin, origin, 0));
    assert!(!within_reach(
        Vec2 { x: i64::MIN, y: i64::MIN },
        Vec2 { x: i64::MAX, y: i64::MAX },
        64_000
    ));
}

#[test]
fn collecting_removes_only_the_touched_star() {
    let mut world = world_with_player(400_000, 300_000);
    world.stars.push(star(100_000, 100_000));
    world.stars.push(star(410_000, 310_000));
    world.stars.push(star(700_000, 500_000));
    collect_star(&mut world);
    assert_eq!(world.stars, vec![star(100_000, 100_000), star(700_000, 500_000)]);
    assert_eq!(world.score.value, 1);
    collect_star(&mut world);
    assert_eq!(world.stars, vec![star(100_000, 100_000), star(700_000, 500_000)]);
    assert_eq!(world.score.value, 1);
}

#[test]
fn several_stars_are_collected_at_once() {
    let mut world = world_with_player(400_000, 300_000);
    world.score = Score { value: 5 };
    world.stars.push(star(400_000, 347_000));
    world.stars.push(star(400_000, 347_001));
    world.stars.push(star(353_000, 300_000));
    world.stars.push(star(400_000, 300_000));
    collect_star(&mut world);
    assert_eq!(world.stars, vec![star(400_000, 347_001)]);
    assert_eq!(world.score.value, 8);
}

#[test]
fn fatal_collision_leaves_one_signal() {
    let mut world = world_with_player(400_000, 300_000);
    world.score = Score { value: 3 };
    world.enemies.push(enemy(100_000, 100_000, 1, 1));
    world.enemies.push(enemy(420_000, 300_000, 1, 1));
    world.enemies.push(enemy(400_000, 364_000, 1, 1));
    enemy_player_collision(&mut world);
    assert_eq!(world.player, None);
    assert_eq!(world.pending, Some(GameOver { score: 3 }));
    assert_eq!(world.enemies.len(), 3);
    world.pending = None;
    enemy_player_collision(&mut world);
    assert_eq!(world.pending, None);
}

#[test]
fn enemy_beyond_reach_is_harmless() {
    let mut world = world_with_player(400_000, 300_000);
    world.enemies.push(enemy(400_000, 364_001, 1, 1));
    enemy_player_collision(&mut world);
    assert_eq!(world.player, Some(Player { position: Vec2 { x: 400_000, y: 300_000 } }));
    assert_eq!(world.pending, None);
    assert!(!touches_any_enemy(Vec2 { x: 400_000, y: 300_000 }, &world.enemies));
    assert!(touches_any_enemy(Vec2 { x: 400_000, y: 300_001 }, &world.enemies));
}

#[test]
fn spawn_coordinate_scales_the_fraction() {
    assert_eq!(spawn_coordinate(800_000, 64_000, 0), 32_000);
    assert_eq!(spawn_coordinate(800_000, 64_000, 2147483648), 400_000);
    assert_eq!(spawn_coordinate(800_000, 64_000, u32::MAX), 767_999);
    assert_eq!(spawn_coordinate(600_000, 30_000, 1073741824), 157_500);
    assert_eq!(spawn_coordinate(64_000, 64_000, u32::MAX), 32_000);
    assert_eq!(spawn_coordinate(10_000, 30_000, 2147483648), 5_000);
    assert_eq!(spawn_coordinate(10_000, 30_000, 1), 15_000);
}

#[test]
fn bad_worlds_are_told_apart() {
    let mut world = World::new();
    world.enemies.push(enemy(0, 0, FRACTION_ONE, -FRACTION_ONE));
    assert!(world.is_well_formed());
    world.enemies.push(enemy(0, 0, FRACTION_ONE + 1, 0));
    assert!(!world.is_well_formed());
    let mut far = world_with_player(i64::MAX, 0);
    assert!(!far.is_movable());
    far.player = None;
    assert!(far.is_movable());
    far.enemies.push(enemy(0, i64::MIN, 0, 0));
    assert!(!far.is_movable());
    assert!(viewport().is_valid());
    assert!(!Viewport { width: 0, height: 600_000 }.is_valid());
}
