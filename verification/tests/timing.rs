use star_chase::frame::{frame, update_enemy_spawn_timer, update_spawn_star_timer};
use star_chase::geometry::{Vec2, Viewport};
use star_chase::protocol::{
    decimal_text, exit_game, game_over_report, handle_game_over, score_report, update_score,
};
use star_chase::spawning::{
    enemy_at, spawn_enemies, spawn_enemy_over_time, spawn_players, spawn_star_over_time,
    spawn_stars, star_at,
};
use star_chase::timer::{
    SpawnEmemyTimer, StarSpawnTimer, Timer, ENEMY_SPAWN_INTERVAL, STAR_SPAWN_INTERVAL,
};
use star_chase::world::{
    Enemy, GameOver, Player, PressedKeys, RunState, Score, Star, World, ENEMIES_COUNT, STAR_COUNT,
};

fn viewport() -> Viewport {
    Viewport { width: 800_000, height: 600_000 }
}

fn no_keys() -> PressedKeys {
    PressedKeys { up: false, down: false, left: false, right: false }
}

#[test]
fn timer_is_ready_on_the_third_short_tick() {
    let mut t = Timer::from_nanos(1_000_000_000);
    t.tick(400_000_000);
    assert!(!t.finished());
    t.tick(400_000_000);
    assert!(!t.finished());
    t.tick(400_000_000);
    assert!(t.finished());
    assert_eq!(t.elapsed, 200_000_000);
    assert_eq!(t.times_finished, 1);
    t.tick(400_000_000);
    assert!(!t.finished());
    assert_eq!(t.times_finished, 0);
    t.tick(400_000_000);
    assert!(t.finished());
    assert_eq!(t.elapsed, 0);
}

#[test]
fn timer_counts_every_period_of_a_long_tick() {
    let mut t = Timer::from_nanos(1_000_000_000);
    t.tick(3_500_000_000);
    assert!(t.finished());
    assert_eq!(t.times_finished, 3);
    assert_eq!(t.elapsed, 500_000_000);
    let mut near = Timer { interval: u64::MAX, elapsed: u64::MAX - 1, finished: false, times_finished: 0 };
    near.tick(u64::MAX);
    assert!(near.finished());
    assert_eq!(near.times_finished, 1);
    assert_eq!(near.elapsed, u64::MAX - 1);
    near.tick(0);
    assert!(!near.finished());
}

#[test]
fn timer_without_interval_is_always_ready() {
    let mut t = Timer::from_nanos(0);
    assert!(!t.finished());
    t.tick(0);
    assert!(t.finished());
    assert_eq!(t.elapsed, 0);
    assert_eq!(t.times_finished, u32::MAX);
    t.tick(17);
    assert_eq!(t, Timer { interval: 0, elapsed: 0, finished: true, times_finished: u32::MAX });
}

#[test]
fn timer_cuts_the_count_of_periods_to_32_bits() {
    let mut t = Timer::from_nanos(1);
    t.tick(4294967296 + 5);
    assert!(t.finished());
    assert_eq!(t.times_finished, 5);
    assert_eq!(t.elapsed, 0);
    let mut late = Timer { interval: 10, elapsed: 25, finished: false, times_finished: 0 };
    late.tick(7);
    assert_eq!(late, Timer { interval: 10, elapsed: 2, finished: true, times_finished: 3 });
}

#[test]
fn default_timers_have_their_intervals() {
    let s = StarSpawnTimer::default();
    assert_eq!(s.timer, Timer { interval: 1_000_000_000, elapsed: 0, finished: false, times_finished: 0 });
    let e = SpawnEmemyTimer::default();
    assert_eq!(e.timer, Timer { interval: 5_000_000_000, elapsed: 0, finished: false, times_finished: 0 });
    assert_eq!(STAR_SPAWN_INTERVAL, 1_000_000_000);
    assert_eq!(ENEMY_SPAWN_INTERVAL, 5_000_000_000);
}

#[test]
fn the_two_timers_tick_by_themselves() {
    let mut world = World::new();
    update_spawn_star_timer(&mut world, 1_200_000_000);
    assert!(world.star_spawn_timer.timer.finished());
    assert_eq!(world.enemy_spawn_timer.timer.elapsed, 0);
    update_enemy_spawn_timer(&mut world, 1_200_000_000);
    assert!(!world.enemy_spawn_timer.timer.finished());
    assert_eq!(world.enemy_spawn_timer.timer.elapsed, 1_200_000_000);
    assert_eq!(world.star_spawn_timer.timer.elapsed, 200_000_000);
}

#[test]
fn decimal_text_writes_every_digit() {
    assert_eq!(decimal_text(0), "0");
    assert_eq!(decimal_text(7), "7");
    assert_eq!(decimal_text(10), "10");
    assert_eq!(decimal_text(1234567890), "1234567890");
    assert_eq!(decimal_text(u32::MAX), "4294967295");
    assert_eq!(score_report(42), "Score is 42");
    assert_eq!(game_over_report(0), "Game Over! Score: 0");
}

#[test]
fn score_is_reported_only_when_it_changes() {
    let mut world = World::new();
    assert_eq!(update_score(&mut world), None);
    world.player = Some(Player { position: Vec2 { x: 400_000, y: 300_000 } });
    world.stars.push(Star { position: Vec2 { x: 400_000, y: 300_000 } });
    star_chase::collision::collect_star(&mut world);
    assert_eq!(update_score(&mut world), Some(String::from("Score is 1")));
    assert_eq!(update_score(&mut world), None);
    assert_eq!(world.reported_score, 1);
}

#[test]
fn game_over_is_handled_once() {
    let mut world = World::new();
    assert_eq!(handle_game_over(&mut world), None);
    assert_eq!(world.state, RunState::Running);
    world.pending = Some(GameOver { score: 12 });
    assert_eq!(handle_game_over(&mut world), Some(String::from("Game Over! Score: 12")));
    assert_eq!(world.state, RunState::Over);
    assert_eq!(world.pending, None);
    assert_eq!(handle_game_over(&mut world), None);
    world.pending = Some(GameOver { score: 13 });
    assert_eq!(handle_game_over(&mut world), None);
    assert_eq!(world.state, RunState::Over);
    assert_eq!(world.pending, None);
}

#[test]
fn quit_key_asks_to_stop() {
    assert!(exit_game(true));
    assert!(!exit_game(false));
}

#[test]
fn star_and_enemy_are_placed_by_their_draws() {
    let v = viewport();
    assert_eq!(star_at(v, 0, 0), Star { position: Vec2 { x: 15_000, y: 15_000 } });
    assert_eq!(
        star_at(v, 2147483648, u32::MAX),
        Star { position: Vec2 { x: 400_000, y: 584_999 } }
    );
    assert_eq!(
        enemy_at(v, 2147483648, 0, 5, u32::MAX),
        Enemy {
            position: Vec2 { x: 400_000, y: 32_000 },
            direction: Vec2 { x: 5, y: 4294967295 },
        }
    );
}

#[test]
fn player_starts_at_the_centre() {
    let mut world = World::new();
    spawn_players(&mut world, viewport());
    assert_eq!(world.player, Some(Player { position: Vec2 { x: 400_000, y: 300_000 } }));
}

#[test]
fn first_spawn_places_everything_inside() {
    let mut world = World::new();
    spawn_enemies(&mut world, viewport());
    spawn_stars(&mut world, viewport());
    assert_eq!(world.enemies.len(), ENEMIES_COUNT);
    assert_eq!(world.stars.len(), STAR_COUNT as usize);
    assert_eq!(ENEMIES_COUNT, 4);
    assert_eq!(STAR_COUNT, 10);
    for e in world.enemies.iter() {
        assert!(32_000 <= e.position.x && e.position.x <= 768_000);
        assert!(32_000 <= e.position.y && e.position.y <= 568_000);
        assert!(0 <= e.direction.x && e.direction.x < 4294967296);
        assert!(0 <= e.direction.y && e.direction.y < 4294967296);
    }
    for s in world.stars.iter() {
        assert!(15_000 <= s.position.x && s.position.x <= 785_000);
        assert!(15_000 <= s.position.y && s.position.y <= 585_000);
    }
    assert!(world.is_well_formed());
    assert!(world.is_movable());
}

#[test]
fn timed_spawn_waits_for_its_timer() {
    let mut world = World::new();
    spawn_star_over_time(&mut world, viewport());
    spawn_enemy_over_time(&mut world, viewport());
    assert!(world.stars.is_empty());
    assert!(world.enemies.is_empty());
    update_spawn_star_timer(&mut world, 1_000_000_000);
    spawn_star_over_time(&mut world, viewport());
    spawn_enemy_over_time(&mut world, viewport());
    assert_eq!(world.stars.len(), 1);
    assert!(world.enemies.is_empty());
    update_enemy_spawn_timer(&mut world, 5_000_000_000);
    spawn_enemy_over_time(&mut world, viewport());
    assert_eq!(world.enemies.len(), 1);
}

#[test]
fn draws_spread_over_the_viewport() {
    let mut world = World::new();
    let mut k = 0;
    while k < 20 {
        spawn_stars(&mut world, viewport());
        k += 1;
    }
    let first = world.stars[0];
    assert!(world.stars.iter().any(|s| s.position != first.position));
}

#[test]
fn frame_runs_the_rules_in_order() {
    let mut world = World::new();
    world.player = Some(Player { position: Vec2 { x: 400_000, y: 300_000 } });
    world.stars.push(Star { position: Vec2 { x: 500_000, y: 300_000 } });
    let keys = PressedKeys { up: false, down: false, left: false, right: true };
    let report = frame(&mut world, keys, 200_000_000, viewport());
    assert_eq!(world.player, Some(Player { position: Vec2 { x: 500_000, y: 300_000 } }));
    assert!(world.stars.is_empty());
    assert_eq!(world.score, Score { value: 1 });
    assert_eq!(report.score, Some(String::from("Score is 1")));
    assert_eq!(report.game_over, None);
    assert_eq!(world.star_spawn_timer.timer.elapsed, 200_000_000);
    assert_eq!(world.enemy_spawn_timer.timer.elapsed, 200_000_000);
    let again = frame(&mut world, no_keys(), 0, viewport());
    assert_eq!(again.score, None);
    assert_eq!(again.game_over, None);
    assert_eq!(world.score.value, 1);
}

#[test]
fn stars_of_the_fatal_frame_count_in_the_final_score() {
    let mut world = World::new();
    world.player = Some(Player { position: Vec2 { x: 400_000, y: 300_000 } });
    world.stars.push(Star { position: Vec2 { x: 400_000, y: 300_000 } });
    let first = frame(&mut world, no_keys(), 0, viewport());
    assert_eq!(first.score, Some(String::from("Score is 1")));
    world.stars.push(Star { position: Vec2 { x: 410_000, y: 300_000 } });
    world.enemies.push(Enemy {
        position: Vec2 { x: 400_000, y: 330_000 },
        direction: Vec2 { x: 0, y: 0 },
    });
    world.enemies.push(Enemy {
        position: Vec2 { x: 400_000, y: 270_000 },
        direction: Vec2 { x: 0, y: 0 },
    });
    let last = frame(&mut world, no_keys(), 0, viewport());
    assert_eq!(last.score, Some(String::from("Score is 2")));
    assert_eq!(last.game_over, Some(String::from("Game Over! Score: 2")));
    assert_eq!(world.player, None);
    assert_eq!(world.state, RunState::Over);
    assert_eq!(world.pending, None);
    let after = frame(&mut world, no_keys(), 0, viewport());
    assert_eq!(after.score, None);
    assert_eq!(after.game_over, None);
    assert_eq!(world.score.value, 2);
}

#[test]
fn frame_spawns_when_a_timer_is_ready() {
    let mut world = World::new();
    let mut k = 0;
    while k < 5 {
        frame(&mut world, no_keys(), 1_000_000_000, viewport());
        k += 1;
    }
    assert_eq!(world.stars.len(), 5);
    assert_eq!(world.enemies.len(), 1);
    assert_eq!(world.score.value, 0);
}

#[test]
fn frame_keeps_the_player_inside() {
    let mut world = World::new();
    world.player = Some(Player { position: Vec2 { x: 400_000, y: 300_000 } });
    let keys = PressedKeys { up: true, down: false, left: true, right: false };
    let mut score = 0;
    let mut k = 0;
    while k < 10 {
        frame(&mut world, keys, 300_000_000, viewport());
        assert!(world.score.value >= score);
        score = world.score.value;
        k += 1;
    }
    if let Some(p) = world.player {
        assert_eq!(p.position, Vec2 { x: 32_000, y: 568_000 });
    }
}
