//! The simulation core of a top-down survivor shooter: a player moves and
//! fires at waves of enemies that spawn around it and chase it, gains
//! experience from kills and levels up, and loses health on contact, with an
//! invincibility window after each hit.
//!
//! Coordinates are fixed-point integers (thousandths of a world unit) and
//! durations are microseconds, so every rule is stated and proved exactly.
pub mod combat;
pub mod controls;
pub mod entities;
pub mod geometry;
pub mod killable;
pub mod laws;
pub mod movement;
pub mod progression;
pub mod reaper;
pub mod spawner;
pub mod timer;
pub mod world;

pub use controls::{Actions, GameControl, GameState, KeyboardState, Mouse, MouseButtons};
pub use entities::{
    Bullet, BulletEntity, DodgeRoll, Enemy, EnemyEntity, EventDamageHintSpawn, GameData, Movable,
    PlayerEntity, PlayerGetDamageEvent, SpriteSize, Velocity, World,
};
pub use geometry::Pos;
pub use killable::{HealthBarComponent, Killable};
pub use progression::{Player, PlayerGetExpEvent};
pub use timer::{Timer, TimerMode};
pub use world::{TickInput, TickReport};
