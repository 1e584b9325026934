//! Removal of dead enemies, which pays their experience, and of projectiles
//! that strayed too far from the player.
use vstd::prelude::*;

use crate::entities::{
    BulletEntity, EnemyEntity, World, WorldView, DESPAWN_BULLET_DISTANCE,
};
use crate::geometry::{dist_sq, distance_sq, Pos};
use crate::progression::PlayerGetExpEvent;

verus! {

pub open spec fn is_alive(e: EnemyEntity) -> bool {
    e.killable.hp > 0
}

pub open spec fn is_dead(e: EnemyEntity) -> bool {
    e.killable.hp <= 0
}

pub open spec fn reward(e: EnemyEntity) -> PlayerGetExpEvent {
    PlayerGetExpEvent { exp: e.enemy.kill_exp }
}

pub open spec fn alive_enemy() -> spec_fn(EnemyEntity) -> bool {
    |e: EnemyEntity| is_alive(e)
}

pub open spec fn dead_enemy() -> spec_fn(EnemyEntity) -> bool {
    |e: EnemyEntity| is_dead(e)
}

pub open spec fn reward_of() -> spec_fn(EnemyEntity) -> PlayerGetExpEvent {
    |e: EnemyEntity| reward(e)
}

/// One experience event for each dead enemy of `es`, in storage order.
pub open spec fn rewards(es: Seq<EnemyEntity>) -> Seq<PlayerGetExpEvent> {
    es.filter(dead_enemy()).map_values(reward_of())
}

/// The projectile asks for removal and is farther than the despawn distance
/// from `center`.
pub open spec fn too_far(b: BulletEntity, center: Pos) -> bool {
    b.movable.auto_despawn && dist_sq(b.pos, center) > DESPAWN_BULLET_DISTANCE
        * DESPAWN_BULLET_DISTANCE
}

pub open spec fn in_range(center: Pos) -> spec_fn(BulletEntity) -> bool {
    |b: BulletEntity| !too_far(b, center)
}

impl WorldView {
    /// Dead enemies leave, each queueing its reward; with a player present,
    /// projectiles too far from it leave as well.
    pub open spec fn after_reap(self) -> (WorldView, Seq<PlayerGetExpEvent>) {
        let events = rewards(self.enemies);
        (
            WorldView {
                enemies: self.enemies.filter(alive_enemy()),
                bullets: if self.player is Some {
                    self.bullets.filter(in_range(self.player->0.pos))
                } else {
                    self.bullets
                },
                pending_exp: self.pending_exp + events,
                ..self
            },
            events,
        )
    }
}

impl World {
    /// Removes dead enemies, queueing one experience event for each, and,
    /// with a player present, the projectiles too far from it: see
    /// `WorldView::after_reap`. Returns the new experience events.
    pub fn despawn_system(&mut self) -> (r: Vec<PlayerGetExpEvent>)
        ensures
            (final(self)@, r@) == old(self)@.after_reap(),
    {
        if let Some(p) = &self.player {
            let c = p.pos;
            let mut kept: Vec<BulletEntity> = Vec::new();
            let mut i: usize = 0;
            while i < self.bullets.len()
                invariant
                    0 <= i <= self.bullets@.len(),
                    self@ == old(self)@,
                    kept@ == self.bullets@.take(i as int).filter(in_range(c)),
                decreases self.bullets@.len() - i,
            {
                let b = self.bullets[i];
                proof {
                    assert(self.bullets@.take(i as int + 1) == self.bullets@.take(i as int).push(b));
                    self.bullets@.take(i as int).lemma_filter_push(b, in_range(c));
                }
                let limit = DESPAWN_BULLET_DISTANCE as i128;
                let far = b.movable.auto_despawn && distance_sq(b.pos, c) > limit * limit;
                if !far {
                    kept.push(b);
                }
                i = i + 1;
            }
            assert(self.bullets@.take(self.bullets@.len() as int) == self.bullets@);
            self.bullets = kept;
        }
        let mut alive: Vec<EnemyEntity> = Vec::new();
        let mut events: Vec<PlayerGetExpEvent> = Vec::new();
        let ghost mid = self@;
        let mut i: usize = 0;
        while i < self.enemies.len()
            invariant
                0 <= i <= self.enemies@.len(),
                self@ == mid,
                mid.enemies == old(self)@.enemies,
                alive@ == self.enemies@.take(i as int).filter(alive_enemy()),
                events@ == self.enemies@.take(i as int).filter(dead_enemy()).map_values(reward_of()),
            decreases self.enemies@.len() - i,
        {
            let e = self.enemies[i];
            proof {
                let t = self.enemies@.take(i as int);
                assert(self.enemies@.take(i as int + 1) == t.push(e));
                t.lemma_filter_push(e, alive_enemy());
                t.lemma_filter_push(e, dead_enemy());
                assert(t.filter(dead_enemy()).push(e).map_values(reward_of()) =~= t.filter(
                    dead_enemy(),
                ).map_values(reward_of()).push(reward(e)));
            }
            if e.killable.hp > 0 {
                alive.push(e);
            } else {
                events.push(PlayerGetExpEvent { exp: e.enemy.kill_exp });
            }
            i = i + 1;
        }
        assert(self.enemies@.take(self.enemies@.len() as int) == self.enemies@);
        self.enemies = alive;
        let ghost before = self.pending_exp@;
        let mut j: usize = 0;
        while j < events.len()
            invariant
                0 <= j <= events@.len(),
                self.pending_exp@ == before + events@.take(j as int),
                before == old(self)@.pending_exp,
                self.enemies@ == old(self)@.enemies.filter(alive_enemy()),
                events@ == rewards(old(self)@.enemies),
                self.player == mid.player,
                self.bullets@ == mid.bullets,
                self.game_data == mid.game_data,
                self.state == mid.state,
            decreases events@.len() - j,
        {
            self.pending_exp.push(events[j]);
            assert(events@.take(j as int + 1) == events@.take(j as int).push(events@[j as int]));
            j = j + 1;
        }
        assert(events@.take(events@.len() as int) == events@);
        events
    }
}

} // verus!
