//! One simulation tick, and the game-state transitions that create and clear
//! the scene.
use vstd::prelude::*;

use crate::controls::GameState;
use crate::entities::{
    make_player, new_player, EventDamageHintSpawn, PlayerGetDamageEvent, SpriteSize, World,
    WorldView,
};
use crate::geometry::Pos;
use crate::progression::PlayerGetExpEvent;
use crate::spawner::{in_spawn_ring, spawn_offset};

verus! {

/// What one tick asks of the world: elapsed time, the movement intent, the
/// fire intent and the pointer's world position.
#[derive(Clone, Copy, Debug, PartialEq, Eq, Structural)]
pub struct TickInput {
    pub delta: u64,
    pub movement: Option<Pos>,
    pub dodge: Option<Pos>,
    pub fire: bool,
    pub cursor: Pos,
}

/// What one tick tells the collaborators.
pub struct TickReport {
    pub player_damage: Option<PlayerGetDamageEvent>,
    pub damage_hints: Vec<EventDamageHintSpawn>,
    pub exp_events: Vec<PlayerGetExpEvent>,
}

impl WorldView {
    /// Leaving the game-over screen clears the scene (the player and the
    /// projectiles); entering `Playing` creates the player if there is none.
    /// Asking for the current state changes nothing.
    pub open spec fn after_state_change(self, next: GameState, sprite: SpriteSize) -> WorldView {
        if next == self.state {
            self
        } else {
            let cleared = if self.state == GameState::Gameover {
                WorldView { player: None, bullets: Seq::empty(), ..self }
            } else {
                self
            };
            let entered = WorldView { state: next, ..cleared };
            if next == GameState::Playing && entered.player is None {
                WorldView { player: Some(new_player(sprite)), ..entered }
            } else {
                entered
            }
        }
    }

    /// The first half of a tick: spawning, the player's movement, dodge roll
    /// and heading, enemy and projectile movement, and firing.
    pub open spec fn after_movement(self, input: TickInput, spawn_offset: Pos) -> WorldView {
        let delta = input.delta;
        let spawned = self.after_spawn(delta, spawn_offset);
        let walked = spawned.after_player_move(delta, input.movement).after_dodge(
            delta,
            input.dodge,
        ).after_turn(input.cursor);
        let moved = walked.after_enemy_move(delta).after_bullet_move(delta);
        moved.after_fire(delta, input.fire, input.cursor)
    }

    /// One simulation tick, only while `Playing`: spawning, the player's
    /// movement, dodge roll and heading, enemy and projectile movement, firing, contact
    /// damage, projectile hits, the player's damage and experience, and the
    /// removal of the dead and the distant. Yields the world, the player's
    /// damage event, the damage hints and the new experience events.
    pub open spec fn after_tick(self, input: TickInput, spawn_offset: Pos) -> (
        WorldView,
        Option<PlayerGetDamageEvent>,
        Seq<EventDamageHintSpawn>,
        Seq<PlayerGetExpEvent>,
    ) {
        if self.state != GameState::Playing {
            (self, None, Seq::empty(), Seq::empty())
        } else {
            let delta = input.delta;
            let moved = self.after_movement(input, spawn_offset);
            let contact = moved.after_contact(delta);
            let hits = contact.0.after_bullet_hits();
            let reaped = hits.0.after_damage(contact.1).after_exp().after_reap();
            (reaped.0, contact.1, hits.1, reaped.1)
        }
    }
}

impl World {
    /// Creates the player unless one exists.
    pub fn spawn_player(&mut self, sprite: SpriteSize)
        ensures
            final(self)@ == (if old(self).player is None {
                WorldView { player: Some(new_player(sprite)), ..old(self)@ }
            } else {
                old(self)@
            }),
    {
        if self.player.is_none() {
            self.player = Some(make_player(sprite));
        }
    }

    /// Clears the scene when the game-over screen is left: the player and
    /// every projectile go.
    pub fn cleanup_gameover(&mut self)
        ensures
            final(self)@ == (WorldView { player: None, bullets: Seq::empty(), ..old(self)@ }),
    {
        self.player = None;
        self.bullets = Vec::new();
    }

    /// Moves to the state `next`; see `WorldView::after_state_change`.
    pub fn set_state(&mut self, next: GameState, sprite: SpriteSize)
        ensures
            final(self)@ == old(self)@.after_state_change(next, sprite),
    {
        if next == self.state {
            return ;
        }
        if self.state == GameState::Gameover {
            self.cleanup_gameover();
        }
        self.state = next;
        if next == GameState::Playing {
            self.spawn_player(sprite);
        }
    }

    /// One simulation tick with the given spawn offset; see
    /// `WorldView::after_tick`.
    pub fn tick(&mut self, input: &TickInput, spawn_offset: Pos) -> (r: TickReport)
        ensures
            (final(self)@, r.player_damage, r.damage_hints@, r.exp_events@) == old(
                self,
            )@.after_tick(*input, spawn_offset),
    {
        if self.state != GameState::Playing {
            return TickReport {
                player_damage: None,
                damage_hints: Vec::new(),
                exp_events: Vec::new(),
            };
        }
        let delta = input.delta;
        self.enemy_spawn_system(delta, spawn_offset);
        self.move_player(delta, input.movement);
        self.dodge_roll_system(delta, input.dodge);
        self.turn_player(input.cursor);
        self.enemy_move_system(delta);
        self.movable_system(delta);
        self.player_fire_system(delta, input.fire, input.cursor);
        let player_damage = self.player_damage_system(delta);
        let damage_hints = self.player_bullet_hit_system();
        self.get_player_damage_event(player_damage);
        self.get_player_exp_event();
        let exp_events = self.despawn_system();
        TickReport { player_damage, damage_hints, exp_events }
    }

    /// One simulation tick that draws its own spawn offset: the world
    /// evolves as `tick` says for some offset of the spawn ring.
    pub fn update(&mut self, input: &TickInput) -> (r: TickReport)
        ensures
            exists|off: Pos|
                #[trigger] in_spawn_ring(off) && (
                    final(self)@,
                    r.player_damage,
                    r.damage_hints@,
                    r.exp_events@,
                ) == old(self)@.after_tick(*input, off),
    {
        let off = spawn_offset();
        self.tick(input, off)
    }
}

} // verus!
