//! The entity registry: the records of the player, the enemies and the
//! projectiles, the shared timers, and the world that holds them.
//!
//! The world holds at most one player, the live enemies and projectiles in
//! insertion order, the process-wide timers, the high-level game state, and
//! the experience rewards waiting for the progression step. Each system is a
//! method of `World` whose effect is stated as a spec function of
//! `WorldView`.
use vstd::prelude::*;

use crate::controls::GameState;
use crate::geometry::{div_toward_zero, Pos};
use crate::killable::Killable;
use crate::progression::{lvl_exp, Player, PlayerGetExpEvent};
use crate::timer::{Timer, TimerMode};

verus! {

pub const ENEMY_HP: i32 = 3;

pub const ENEMY_DAMAGE: i32 = 1;

pub const ENEMY_KILL_EXP: u32 = 15;

/// Enemy speed in world units per second.
pub const ENEMY_SPEED: i32 = 30;

/// Half extent of the box an enemy touches the player with.
pub const ENEMY_HALF_EXTENT: i32 = 175;

/// Half extent of the 25 by 25 unit box around an enemy that projectiles
/// hit.
pub const ENEMY_HIT_HALF_EXTENT: i32 = 12_500;

pub const BULLET_DAMAGE: i32 = 2;

/// Projectile speed in world units per second.
pub const BULLET_SPEED: i32 = 50;

pub const BULLET_HALF_EXTENT: i32 = 10_000;

pub const PLAYER_HP: i32 = 10;

/// Player speed in world units per second.
pub const PLAYER_SPEED: i32 = 100;

/// A projectile farther than this from the player is removed.
pub const DESPAWN_BULLET_DISTANCE: i64 = 2_000_000;

pub const ENEMY_SPAWN_PERIOD: u64 = 500_000;

pub const SHOOTING_COOLDOWN: u64 = 1_000_000;

pub const INVINCIBILITY_WINDOW: u64 = 1_000_000;

/// Dodge-roll speed in world units per second.
pub const DODGE_SPEED: i32 = 500;

pub const DODGE_DURATION: u64 = 300_000;

/// A heading (`x`, `y`, a direction in thousandths) and a speed in world
/// units per second.
#[derive(Clone, Copy, Debug, PartialEq, Eq, Structural)]
pub struct Velocity {
    pub x: i32,
    pub y: i32,
    pub speed: i32,
}

/// What makes an entity hostile: its contact damage and the experience its
/// death is worth.
#[derive(Clone, Copy, Debug, PartialEq, Eq, Structural)]
pub struct Enemy {
    pub damage: i32,
    pub kill_exp: u32,
}

#[derive(Clone, Copy, Debug, PartialEq, Eq, Structural)]
pub struct Bullet {
    pub damage: i32,
}

/// A moving entity; `auto_despawn` asks for removal once it is too far from
/// the player.
#[derive(Clone, Copy, Debug, PartialEq, Eq, Structural)]
pub struct Movable {
    pub auto_despawn: bool,
}

/// The size of a sprite, in thousandths of a world unit.
#[derive(Clone, Copy, Debug, PartialEq, Eq, Structural)]
pub struct SpriteSize(pub Pos);

/// Contact damage for the player.
#[derive(Clone, Copy, Debug, PartialEq, Eq, Structural)]
pub struct PlayerGetDamageEvent {
    pub damage: i32,
}

/// A projectile's damage and where it landed, for a floating damage number.
#[derive(Clone, Copy, Debug, PartialEq, Eq, Structural)]
pub struct EventDamageHintSpawn {
    pub damage: i32,
    pub position: Pos,
}

#[derive(Clone, Copy, Debug, PartialEq, Eq, Structural)]
pub struct EnemyEntity {
    pub pos: Pos,
    pub half_extent: Pos,
    pub velocity: Velocity,
    pub killable: Killable,
    pub enemy: Enemy,
}

#[derive(Clone, Copy, Debug, PartialEq, Eq, Structural)]
pub struct BulletEntity {
    pub pos: Pos,
    pub half_extent: Pos,
    pub velocity: Velocity,
    pub bullet: Bullet,
    pub movable: Movable,
}

#[derive(Clone, Copy, Debug, PartialEq, Eq, Structural)]
pub struct PlayerEntity {
    pub pos: Pos,
    pub half_extent: Pos,
    /// The direction the player faces, in thousandths.
    pub facing: Pos,
    pub killable: Killable,
    pub player: Player,
    pub dodge: Option<DodgeRoll>,
}

/// A dodge roll under way: a fast dash along `direction` until the timer
/// runs out.
#[derive(Clone, Copy, Debug, PartialEq, Eq, Structural)]
pub struct DodgeRoll {
    pub timer: Timer,
    pub direction: Pos,
}

/// The timers that the systems share.
#[derive(Clone, Copy, Debug, PartialEq, Eq, Structural)]
pub struct GameData {
    pub enemy_spawn_timer: Timer,
    pub player_shooting_timer: Timer,
    pub player_godmod_timer: Timer,
}

pub open spec fn initial_game_data() -> GameData {
    GameData {
        enemy_spawn_timer: Timer {
            duration: ENEMY_SPAWN_PERIOD,
            elapsed: 0,
            mode: TimerMode::Repeating,
            finished: false,
        },
        player_shooting_timer: Timer {
            duration: SHOOTING_COOLDOWN,
            elapsed: 0,
            mode: TimerMode::Once,
            finished: false,
        },
        player_godmod_timer: Timer {
            duration: INVINCIBILITY_WINDOW,
            elapsed: 0,
            mode: TimerMode::Once,
            finished: false,
        },
    }
}

impl Default for GameData {
    fn default() -> (r: GameData)
        ensures
            r == initial_game_data(),
    {
        GameData {
            enemy_spawn_timer: Timer::from_micros(ENEMY_SPAWN_PERIOD, TimerMode::Repeating),
            player_shooting_timer: Timer::from_micros(SHOOTING_COOLDOWN, TimerMode::Once),
            player_godmod_timer: Timer::from_micros(INVINCIBILITY_WINDOW, TimerMode::Once),
        }
    }
}

pub struct World {
    pub player: Option<PlayerEntity>,
    pub enemies: Vec<EnemyEntity>,
    pub bullets: Vec<BulletEntity>,
    pub game_data: GameData,
    pub state: GameState,
    pub pending_exp: Vec<PlayerGetExpEvent>,
}

pub struct WorldView {
    pub player: Option<PlayerEntity>,
    pub enemies: Seq<EnemyEntity>,
    pub bullets: Seq<BulletEntity>,
    pub game_data: GameData,
    pub state: GameState,
    pub pending_exp: Seq<PlayerGetExpEvent>,
}

impl View for World {
    type V = WorldView;

    open spec fn view(&self) -> WorldView {
        WorldView {
            player: self.player,
            enemies: self.enemies@,
            bullets: self.bullets@,
            game_data: self.game_data,
            state: self.state,
            pending_exp: self.pending_exp@,
        }
    }
}

/// A fresh enemy at `pos`.
pub open spec fn new_enemy(pos: Pos) -> EnemyEntity {
    EnemyEntity {
        pos,
        half_extent: Pos { x: ENEMY_HALF_EXTENT, y: ENEMY_HALF_EXTENT },
        velocity: Velocity { x: 500, y: 500, speed: ENEMY_SPEED },
        killable: Killable { hp: ENEMY_HP, god_mode: false, hp_max: ENEMY_HP },
        enemy: Enemy { damage: ENEMY_DAMAGE, kill_exp: ENEMY_KILL_EXP },
    }
}

/// A fresh projectile fired by the player from `pos` along `dir`.
pub open spec fn new_bullet(pos: Pos, dir: Pos) -> BulletEntity {
    BulletEntity {
        pos,
        half_extent: Pos { x: BULLET_HALF_EXTENT, y: BULLET_HALF_EXTENT },
        velocity: Velocity { x: dir.x, y: dir.y, speed: BULLET_SPEED },
        bullet: Bullet { damage: BULLET_DAMAGE },
        movable: Movable { auto_despawn: true },
    }
}

/// A fresh player at the origin, facing up, whose sprite has the given size
/// and is drawn at a quarter of it.
pub open spec fn new_player(sprite: SpriteSize) -> PlayerEntity {
    PlayerEntity {
        pos: Pos { x: 0, y: 0 },
        half_extent: Pos {
            x: div_toward_zero(sprite.0.x as int, 8) as i32,
            y: div_toward_zero(sprite.0.y as int, 8) as i32,
        },
        facing: Pos { x: 0, y: 1000 },
        killable: Killable { hp: PLAYER_HP, god_mode: false, hp_max: PLAYER_HP },
        player: Player { exp: 0, next_lvl_exp: lvl_exp(1), lvl: 1 },
        dodge: None,
    }
}

pub fn make_enemy(pos: Pos) -> (r: EnemyEntity)
    ensures
        r == new_enemy(pos),
{
    EnemyEntity {
        pos,
        half_extent: Pos { x: ENEMY_HALF_EXTENT, y: ENEMY_HALF_EXTENT },
        velocity: Velocity { x: 500, y: 500, speed: ENEMY_SPEED },
        killable: Killable::new(ENEMY_HP, ENEMY_HP, false),
        enemy: Enemy { damage: ENEMY_DAMAGE, kill_exp: ENEMY_KILL_EXP },
    }
}

pub fn make_bullet(pos: Pos, dir: Pos) -> (r: BulletEntity)
    ensures
        r == new_bullet(pos, dir),
{
    BulletEntity {
        pos,
        half_extent: Pos { x: BULLET_HALF_EXTENT, y: BULLET_HALF_EXTENT },
        velocity: Velocity { x: dir.x, y: dir.y, speed: BULLET_SPEED },
        bullet: Bullet { damage: BULLET_DAMAGE },
        movable: Movable { auto_despawn: true },
    }
}

pub fn make_player(sprite: SpriteSize) -> (r: PlayerEntity)
    ensures
        r == new_player(sprite),
{
    PlayerEntity {
        pos: Pos { x: 0, y: 0 },
        half_extent: Pos { x: sprite.0.x / 8, y: sprite.0.y / 8 },
        facing: Pos { x: 0, y: 1000 },
        killable: Killable::new(PLAYER_HP, PLAYER_HP, false),
        player: Player::new(),
        dodge: None,
    }
}

impl World {
    /// An empty world in the given state, with fresh timers.
    pub fn new(state: GameState) -> (r: World)
        ensures
            r@ == (WorldView {
                player: None,
                enemies: Seq::empty(),
                bullets: Seq::empty(),
                game_data: initial_game_data(),
                state,
                pending_exp: Seq::empty(),
            }),
    {
        World {
            player: None,
            enemies: Vec::new(),
            bullets: Vec::new(),
            game_data: GameData::default(),
            state,
            pending_exp: Vec::new(),
        }
    }
}

} // verus!
