//! Spawning, movement, dodge rolls, turning and firing.
use vstd::prelude::*;

use crate::entities::{
    make_bullet, make_enemy, new_bullet, new_enemy, BulletEntity, DodgeRoll, EnemyEntity,
    GameData, PlayerEntity, Velocity, World, WorldView, DODGE_DURATION, DODGE_SPEED,
    PLAYER_SPEED,
};
use crate::geometry::{advance, advanced, direction_toward, offset, offset_by, unit_toward, Pos};
use crate::timer::{Timer, TimerMode};

verus! {

/// `e` after heading for `target` at its own speed for `delta`
/// microseconds.
pub open spec fn moved_enemy(e: EnemyEntity, target: Pos, delta: u64) -> EnemyEntity {
    let d = unit_toward(e.pos, target);
    EnemyEntity {
        pos: advanced(e.pos, d, e.velocity.speed, delta),
        velocity: Velocity { x: d.x, y: d.y, ..e.velocity },
        ..e
    }
}

/// `b` after travelling along its fixed heading for `delta` microseconds.
pub open spec fn moved_bullet(b: BulletEntity, delta: u64) -> BulletEntity {
    BulletEntity {
        pos: advanced(b.pos, Pos { x: b.velocity.x, y: b.velocity.y }, b.velocity.speed, delta),
        ..b
    }
}

impl WorldView {
    /// Ticks the spawn timer; when it completes and a player exists, one
    /// fresh enemy appears at `spawn_offset` from the player.
    pub open spec fn after_spawn(self, delta: u64, spawn_offset: Pos) -> WorldView {
        let timer = self.game_data.enemy_spawn_timer.ticked(delta);
        WorldView {
            game_data: GameData { enemy_spawn_timer: timer, ..self.game_data },
            enemies: if timer.finished && self.player is Some {
                self.enemies.push(new_enemy(offset_by(self.player->0.pos, spawn_offset)))
            } else {
                self.enemies
            },
            ..self
        }
    }

    /// Each enemy turns toward the player and moves at its own speed; with
    /// no player nothing moves.
    pub open spec fn after_enemy_move(self, delta: u64) -> WorldView {
        if self.player is Some {
            let target = self.player->0.pos;
            WorldView {
                enemies: self.enemies.map_values(|e: EnemyEntity| moved_enemy(e, target, delta)),
                ..self
            }
        } else {
            self
        }
    }

    /// Each projectile travels along its fixed heading.
    pub open spec fn after_bullet_move(self, delta: u64) -> WorldView {
        WorldView {
            bullets: self.bullets.map_values(|b: BulletEntity| moved_bullet(b, delta)),
            ..self
        }
    }

    /// The player moves along the movement intent at the player's speed.
    pub open spec fn after_player_move(self, delta: u64, movement: Option<Pos>) -> WorldView {
        if self.player is Some && movement is Some {
            let p = self.player->0;
            WorldView {
                player: Some(
                    PlayerEntity { pos: advanced(p.pos, movement->0, PLAYER_SPEED, delta), ..p },
                ),
                ..self
            }
        } else {
            self
        }
    }

    /// A roll under way ticks its timer and, unless that finishes it, dashes
    /// the player along its direction; without a roll, a dodge intent starts
    /// one.
    pub open spec fn after_dodge(self, delta: u64, intent: Option<Pos>) -> WorldView {
        if self.player is Some {
            let p = self.player->0;
            let q = if p.dodge is Some {
                let roll = p.dodge->0;
                let t = roll.timer.ticked(delta);
                if t.finished {
                    PlayerEntity { dodge: None, ..p }
                } else {
                    PlayerEntity {
                        pos: advanced(p.pos, roll.direction, DODGE_SPEED, delta),
                        dodge: Some(DodgeRoll { timer: t, ..roll }),
                        ..p
                    }
                }
            } else if intent is Some {
                PlayerEntity {
                    dodge: Some(
                        DodgeRoll {
                            timer: Timer {
                                duration: DODGE_DURATION,
                                elapsed: 0,
                                mode: TimerMode::Once,
                                finished: false,
                            },
                            direction: intent->0,
                        },
                    ),
                    ..p
                }
            } else {
                p
            };
            WorldView { player: Some(q), ..self }
        } else {
            self
        }
    }

    /// The player turns to face `target`, unless it stands on it.
    pub open spec fn after_turn(self, target: Pos) -> WorldView {
        if self.player is Some && self.player->0.pos != target {
            let p = self.player->0;
            WorldView {
                player: Some(PlayerEntity { facing: unit_toward(p.pos, target), ..p }),
                ..self
            }
        } else {
            self
        }
    }

    /// Ticks the shooting cooldown; once it has run out, a fire intent with a
    /// player present restarts it and adds one projectile at the player,
    /// heading for `target`.
    pub open spec fn after_fire(self, delta: u64, fire: bool, target: Pos) -> WorldView {
        let timer = self.game_data.player_shooting_timer.ticked(delta);
        if self.player is Some && timer.finished && fire {
            let p = self.player->0;
            WorldView {
                game_data: GameData { player_shooting_timer: timer.restarted(), ..self.game_data },
                bullets: self.bullets.push(new_bullet(p.pos, unit_toward(p.pos, target))),
                ..self
            }
        } else {
            WorldView {
                game_data: GameData { player_shooting_timer: timer, ..self.game_data },
                ..self
            }
        }
    }
}

impl World {
    /// Ticks the spawn timer; when it completes and a player exists, adds
    /// one fresh enemy at `spawn_offset` from the player.
    pub fn enemy_spawn_system(&mut self, delta: u64, spawn_offset: Pos)
        ensures
            final(self)@ == old(self)@.after_spawn(delta, spawn_offset),
    {
        self.game_data.enemy_spawn_timer.tick(delta);
        if self.game_data.enemy_spawn_timer.finished() {
            if let Some(p) = &self.player {
                let pos = offset(p.pos, spawn_offset);
                self.enemies.push(make_enemy(pos));
            }
        }
    }

    /// Turns each enemy toward the player and moves it; nothing moves when
    /// there is no player.
    pub fn enemy_move_system(&mut self, delta: u64)
        ensures
            final(self)@ == old(self)@.after_enemy_move(delta),
    {
        let target = match &self.player {
            Some(p) => p.pos,
            None => {
                return ;
            },
        };
        let mut moved: Vec<EnemyEntity> = Vec::new();
        let mut i: usize = 0;
        while i < self.enemies.len()
            invariant
                0 <= i <= self.enemies@.len(),
                self@ == old(self)@,
                moved@.len() == i,
                forall|j: int| 0 <= j < i ==> moved@[j] == moved_enemy(self.enemies@[j], target, delta),
            decreases self.enemies@.len() - i,
        {
            let e = self.enemies[i];
            let d = direction_toward(e.pos, target);
            let pos = advance(e.pos, d, e.velocity.speed, delta);
            moved.push(
                EnemyEntity { pos, velocity: Velocity { x: d.x, y: d.y, ..e.velocity }, ..e },
            );
            i = i + 1;
        }
        assert(moved@ =~= old(self)@.enemies.map_values(
            |e: EnemyEntity| moved_enemy(e, target, delta),
        ));
        self.enemies = moved;
    }

    /// Moves each projectile along its heading.
    pub fn movable_system(&mut self, delta: u64)
        ensures
            final(self)@ == old(self)@.after_bullet_move(delta),
    {
        let mut moved: Vec<BulletEntity> = Vec::new();
        let mut i: usize = 0;
        while i < self.bullets.len()
            invariant
                0 <= i <= self.bullets@.len(),
                self@ == old(self)@,
                moved@.len() == i,
                forall|j: int| 0 <= j < i ==> moved@[j] == moved_bullet(self.bullets@[j], delta),
            decreases self.bullets@.len() - i,
        {
            let b = self.bullets[i];
            let pos = advance(b.pos, Pos { x: b.velocity.x, y: b.velocity.y }, b.velocity.speed, delta);
            moved.push(BulletEntity { pos, ..b });
            i = i + 1;
        }
        assert(moved@ =~= old(self)@.bullets.map_values(|b: BulletEntity| moved_bullet(b, delta)));
        self.bullets = moved;
    }

    /// Moves the player along `movement` at the player's speed.
    pub fn move_player(&mut self, delta: u64, movement: Option<Pos>)
        ensures
            final(self)@ == old(self)@.after_player_move(delta, movement),
    {
        if let Some(m) = movement {
            if let Some(p) = &mut self.player {
                p.pos = advance(p.pos, m, PLAYER_SPEED, delta);
            }
        }
    }

    /// Dodge rolls: see `WorldView::after_dodge`.
    pub fn dodge_roll_system(&mut self, delta: u64, intent: Option<Pos>)
        ensures
            final(self)@ == old(self)@.after_dodge(delta, intent),
    {
        if let Some(p) = &mut self.player {
            match p.dodge {
                Some(roll) => {
                    let mut t = roll.timer;
                    t.tick(delta);
                    if t.finished() {
                        p.dodge = None;
                    } else {
                        p.pos = advance(p.pos, roll.direction, DODGE_SPEED, delta);
                        p.dodge = Some(DodgeRoll { timer: t, direction: roll.direction });
                    }
                },
                None => {
                    if let Some(d) = intent {
                        p.dodge = Some(
                            DodgeRoll {
                                timer: Timer::from_micros(DODGE_DURATION, TimerMode::Once),
                                direction: d,
                            },
                        );
                    }
                },
            }
        }
    }

    /// Turns the player to face `target`; a target on the player keeps the
    /// old heading.
    pub fn turn_player(&mut self, target: Pos)
        ensures
            final(self)@ == old(self)@.after_turn(target),
    {
        if let Some(p) = &mut self.player {
            if p.pos != target {
                p.facing = direction_toward(p.pos, target);
            }
        }
    }

    /// Ticks the shooting cooldown; when it has run out, the player exists
    /// and `fire` is asked for, restarts it and fires one projectile from the
    /// player toward `target`.
    pub fn player_fire_system(&mut self, delta: u64, fire: bool, target: Pos)
        ensures
            final(self)@ == old(self)@.after_fire(delta, fire, target),
    {
        self.game_data.player_shooting_timer.tick(delta);
        if let Some(p) = &self.player {
            if self.game_data.player_shooting_timer.finished() && fire {
                self.game_data.player_shooting_timer.reset();
                let dir = direction_toward(p.pos, target);
                let b = make_bullet(p.pos, dir);
                self.bullets.push(b);
            }
        }
    }
}

} // verus!
