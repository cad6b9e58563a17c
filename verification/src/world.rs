//! The entities of the game and the state that every rule works on.

use crate::geometry::{in_range, Vec2, COORD_LIMIT, FRACTION_ONE};
use crate::timer::{
    fresh, SpawnEmemyTimer, StarSpawnTimer, ENEMY_SPAWN_INTERVAL, STAR_SPAWN_INTERVAL,
};
use vstd::prelude::*;

verus! {

/// Side of the player's square, in length units.
pub const PLAYER_SIZE: i64 = 64000;

/// Side of an enemy's square, in length units.
pub const ENEMY_SIZE: i64 = 64000;

/// Side of a star's square, in length units.
pub const STAR_SIZE: i64 = 30000;

/// Length units that the player covers per second.
pub const PLAYER_SPEED: i64 = 500000;

/// Length units that an enemy with a unit direction covers per second.
pub const ENEMY_SPEED: i64 = 200000;

/// Enemies placed when the world is set up.
pub const ENEMIES_COUNT: usize = 4;

/// Stars placed when the world is set up.
pub const STAR_COUNT: u32 = 10;

/// The avatar that the keys steer.
#[derive(Clone, Copy, Debug, PartialEq, Eq, Structural)]
pub struct Player {
    pub position: Vec2,
}

/// A roaming enemy; contact with the player ends the run.
#[derive(Clone, Copy, Debug, PartialEq, Eq, Structural)]
pub struct Enemy {
    pub position: Vec2,
    /// Travel per unit of speed, in fraction units; only the signs ever change.
    pub direction: Vec2,
}

/// A star that the player collects for one point.
#[derive(Clone, Copy, Debug, PartialEq, Eq, Structural)]
pub struct Star {
    pub position: Vec2,
}

/// The number of stars collected so far.
#[derive(Clone, Copy, Debug, PartialEq, Eq, Structural)]
pub struct Score {
    pub value: u32,
}

impl Default for Score {
    fn default() -> (s: Score)
        ensures
            s.value == 0,
    {
        Score { value: 0 }
    }
}

/// The signal that a fatal collision leaves behind, with the score at that moment.
#[derive(Clone, Copy, Debug, PartialEq, Eq, Structural)]
pub struct GameOver {
    pub score: u32,
}

/// Whether the run still goes on.
#[derive(Clone, Copy, Debug, PartialEq, Eq, Structural)]
pub enum RunState {
    Running,
    Over,
}

/// The directional keys that are held down during a frame.
#[derive(Clone, Copy, Debug, PartialEq, Eq, Structural)]
pub struct PressedKeys {
    pub up: bool,
    pub down: bool,
    pub left: bool,
    pub right: bool,
}

/// Everything the rules read and change.
#[derive(Debug)]
pub struct World {
    /// The player, until a fatal collision removes it.
    pub player: Option<Player>,
    pub enemies: Vec<Enemy>,
    pub stars: Vec<Star>,
    pub score: Score,
    pub star_spawn_timer: StarSpawnTimer,
    pub enemy_spawn_timer: SpawnEmemyTimer,
    /// The game-over signal that waits to be handled, if any.
    pub pending: Option<GameOver>,
    pub state: RunState,
    /// The score as it was last reported.
    pub reported_score: u32,
}

/// The mathematical value of a `World`: its vectors as sequences.
pub struct WorldView {
    pub player: Option<Player>,
    pub enemies: Seq<Enemy>,
    pub stars: Seq<Star>,
    pub score: Score,
    pub star_spawn_timer: StarSpawnTimer,
    pub enemy_spawn_timer: SpawnEmemyTimer,
    pub pending: Option<GameOver>,
    pub state: RunState,
    pub reported_score: u32,
}

impl View for World {
    type V = WorldView;

    open spec fn view(&self) -> WorldView {
        WorldView {
            player: self.player,
            enemies: self.enemies@,
            stars: self.stars@,
            score: self.score,
            star_spawn_timer: self.star_spawn_timer,
            enemy_spawn_timer: self.enemy_spawn_timer,
            pending: self.pending,
            state: self.state,
            reported_score: self.reported_score,
        }
    }
}

/// Both direction components lie within one unit.
pub open spec fn direction_valid(d: Vec2) -> bool {
    -FRACTION_ONE <= d.x <= FRACTION_ONE && -FRACTION_ONE <= d.y <= FRACTION_ONE
}

impl WorldView {
    /// Every enemy's direction is valid.
    pub open spec fn wf(self) -> bool {
        forall|i: int|
            0 <= i < self.enemies.len() ==> direction_valid(#[trigger] self.enemies[i].direction)
    }

    /// Every enemy stands within the coordinate limit.
    pub open spec fn enemies_in_range(self) -> bool {
        forall|i: int|
            0 <= i < self.enemies.len() ==> in_range(#[trigger] self.enemies[i].position)
    }

    /// The player and every enemy stand within the coordinate limit.
    pub open spec fn movable(self) -> bool {
        &&& self.player matches Some(p) ==> in_range(p.position)
        &&& self.enemies_in_range()
    }
}

/// Whether both coordinates of `p` lie within the coordinate limit.
pub fn is_in_range(p: Vec2) -> (ok: bool)
    ensures
        ok == in_range(p),
{
    -COORD_LIMIT <= p.x && p.x <= COORD_LIMIT && -COORD_LIMIT <= p.y && p.y <= COORD_LIMIT
}

/// Whether both direction components lie within one unit.
pub fn is_direction_valid(d: Vec2) -> (ok: bool)
    ensures
        ok == direction_valid(d),
{
    -FRACTION_ONE <= d.x && d.x <= FRACTION_ONE && -FRACTION_ONE <= d.y && d.y <= FRACTION_ONE
}

impl World {
    /// Whether every enemy's direction is valid.
    pub fn is_well_formed(&self) -> (ok: bool)
        ensures
            ok == self@.wf(),
    {
        let n: usize = self.enemies.len();
        let mut i: usize = 0;
        while i < n
            invariant
                i <= n,
                n == self.enemies.len(),
                forall|k: int| 0 <= k < i ==> direction_valid(#[trigger] self.enemies@[k].direction),
            decreases n - i,
        {
            if !is_direction_valid(self.enemies[i].direction) {
                assert(!direction_valid(self@.enemies[i as int].direction));
                return false;
            }
            i = i + 1;
        }
        true
    }

    /// Whether the player and every enemy stand within the coordinate limit.
    pub fn is_movable(&self) -> (ok: bool)
        ensures
            ok == self@.movable(),
    {
        if let Some(p) = self.player {
            if !is_in_range(p.position) {
                return false;
            }
        }
        let n: usize = self.enemies.len();
        let mut i: usize = 0;
        while i < n
            invariant
                i <= n,
                n == self.enemies.len(),
                forall|k: int| 0 <= k < i ==> in_range(#[trigger] self.enemies@[k].position),
            decreases n - i,
        {
            if !is_in_range(self.enemies[i].position) {
                assert(!in_range(self@.enemies[i as int].position));
                return false;
            }
            i = i + 1;
        }
        true
    }

    /// An empty running world: no player yet, no enemies, no stars, score 0
    /// and both timers at the start of their period.
    pub fn new() -> (w: World)
        ensures
            w@.player.is_none(),
            w@.enemies.len() == 0,
            w@.stars.len() == 0,
            w@.score.value == 0,
            w@.star_spawn_timer.timer == fresh(STAR_SPAWN_INTERVAL),
            w@.enemy_spawn_timer.timer == fresh(ENEMY_SPAWN_INTERVAL),
            w@.pending.is_none(),
            w@.state == RunState::Running,
            w@.reported_score == 0,
            w@.wf(),
            w@.movable(),
    {
        World {
            player: None,
            enemies: Vec::new(),
            stars: Vec::new(),
            score: Score::default(),
            star_spawn_timer: StarSpawnTimer::default(),
            enemy_spawn_timer: SpawnEmemyTimer::default(),
            pending: None,
            state: RunState::Running,
            reported_score: 0,
        }
    }
}

} // verus!
