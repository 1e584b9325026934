//! Contact damage to the player, projectile hits on enemies, and the
//! player's damage and experience.
use vstd::prelude::*;

use crate::controls::GameState;
use crate::entities::{
    BulletEntity, EnemyEntity, EventDamageHintSpawn, GameData, PlayerEntity,
    PlayerGetDamageEvent, World, WorldView, ENEMY_HIT_HALF_EXTENT,
};
use crate::geometry::{boxes_overlap, overlaps, Pos};
use crate::killable::Killable;
use crate::progression::gained_all;

verus! {

/// The enemy's box touches the player's box.
pub open spec fn touches(e: EnemyEntity, p: PlayerEntity) -> bool {
    boxes_overlap(e.pos, e.half_extent, p.pos, p.half_extent)
}

/// `k` is the first enemy of `es`, in storage order, that touches `p`.
pub open spec fn is_first_contact(es: Seq<EnemyEntity>, p: PlayerEntity, k: int) -> bool {
    &&& 0 <= k < es.len()
    &&& touches(es[k], p)
    &&& forall|j: int| 0 <= j < k ==> !touches(#[trigger] es[j], p)
}

pub open spec fn any_contact(es: Seq<EnemyEntity>, p: PlayerEntity) -> bool {
    exists|k: int| 0 <= k < es.len() && touches(#[trigger] es[k], p)
}

pub open spec fn first_contact(es: Seq<EnemyEntity>, p: PlayerEntity) -> int {
    choose|k: int| is_first_contact(es, p, k)
}

/// The projectile's box touches the fixed hit box around the enemy.
pub open spec fn strikes(b: BulletEntity, e: EnemyEntity) -> bool {
    let hit_box = Pos { x: ENEMY_HIT_HALF_EXTENT, y: ENEMY_HIT_HALF_EXTENT };
    boxes_overlap(b.pos, b.half_extent, e.pos, hit_box)
}

/// `k` is the first enemy of `es`, in storage order, that `b` strikes.
pub open spec fn is_first_strike(b: BulletEntity, es: Seq<EnemyEntity>, k: int) -> bool {
    &&& 0 <= k < es.len()
    &&& strikes(b, es[k])
    &&& forall|j: int| 0 <= j < k ==> !strikes(b, #[trigger] es[j])
}

pub open spec fn any_strike(b: BulletEntity, es: Seq<EnemyEntity>) -> bool {
    exists|k: int| 0 <= k < es.len() && strikes(b, #[trigger] es[k])
}

pub open spec fn first_strike(b: BulletEntity, es: Seq<EnemyEntity>) -> int {
    choose|k: int| is_first_strike(b, es, k)
}

/// `e` after taking the projectile's damage.
pub open spec fn struck(e: EnemyEntity, b: BulletEntity) -> EnemyEntity {
    EnemyEntity {
        killable: e.killable.after_hit(b.bullet.damage),
        ..e
    }
}

/// One projectile against the enemies: when it strikes one, the first such
/// enemy takes its damage, the projectile is used up and a damage hint is
/// emitted at the enemy; otherwise the projectile survives.
pub open spec fn resolve_bullet(
    state: (Seq<EnemyEntity>, Seq<BulletEntity>, Seq<EventDamageHintSpawn>),
    b: BulletEntity,
) -> (Seq<EnemyEntity>, Seq<BulletEntity>, Seq<EventDamageHintSpawn>) {
    let es = state.0;
    if any_strike(b, es) {
        let k = first_strike(b, es);
        (
            es.update(k, struck(es[k], b)),
            state.1,
            state.2.push(EventDamageHintSpawn { damage: b.bullet.damage, position: es[k].pos }),
        )
    } else {
        (es, state.1.push(b), state.2)
    }
}

/// The projectiles of `bullets`, in order, against `enemies`: the enemies
/// after the hits, the surviving projectiles and the damage hints.
pub open spec fn resolve_hits(bullets: Seq<BulletEntity>, enemies: Seq<EnemyEntity>) -> (
    Seq<EnemyEntity>,
    Seq<BulletEntity>,
    Seq<EventDamageHintSpawn>,
)
    decreases bullets.len(),
{
    if bullets.len() == 0 {
        (enemies, Seq::empty(), Seq::empty())
    } else {
        resolve_bullet(resolve_hits(bullets.drop_last(), enemies), bullets.last())
    }
}

impl WorldView {
    /// Ticks the invincibility timer; a player that is not in god mode, whose
    /// timer has run out and whom an enemy touches takes the first such
    /// enemy's contact damage, and the timer restarts.
    pub open spec fn after_contact(self, delta: u64) -> (WorldView, Option<PlayerGetDamageEvent>) {
        let timer = self.game_data.player_godmod_timer.ticked(delta);
        let ticked = WorldView {
            game_data: GameData { player_godmod_timer: timer, ..self.game_data },
            ..self
        };
        if self.player is Some && !self.player->0.killable.god_mode && timer.finished && any_contact(
            self.enemies,
            self.player->0,
        ) {
            let k = first_contact(self.enemies, self.player->0);
            (
                WorldView {
                    game_data: GameData { player_godmod_timer: timer.restarted(), ..self.game_data },
                    ..self
                },
                Some(PlayerGetDamageEvent { damage: self.enemies[k].enemy.damage }),
            )
        } else {
            (ticked, None)
        }
    }

    /// Projectile hits; see `resolve_hits`.
    pub open spec fn after_bullet_hits(self) -> (WorldView, Seq<EventDamageHintSpawn>) {
        let r = resolve_hits(self.bullets, self.enemies);
        (WorldView { enemies: r.0, bullets: r.1, ..self }, r.2)
    }

    /// The player takes the damage; a player at zero hit points or below
    /// ends the game.
    pub open spec fn after_damage(self, ev: Option<PlayerGetDamageEvent>) -> WorldView {
        if self.player is Some {
            let p = self.player->0;
            let k = if ev is Some {
                p.killable.after_hit(ev->0.damage)
            } else {
                p.killable
            };
            WorldView {
                player: Some(PlayerEntity { killable: k, ..p }),
                state: if k.hp <= 0 { GameState::Gameover } else { self.state },
                ..self
            }
        } else {
            self
        }
    }

    /// The player gains the pending experience; the queue is emptied.
    pub open spec fn after_exp(self) -> WorldView {
        WorldView {
            player: if self.player is Some {
                Some(
                    PlayerEntity {
                        player: gained_all(self.player->0.player, self.pending_exp),
                        ..self.player->0
                    },
                )
            } else {
                None
            },
            pending_exp: Seq::empty(),
            ..self
        }
    }
}

pub proof fn lemma_first_contact(es: Seq<EnemyEntity>, p: PlayerEntity, k: int)
    requires
        is_first_contact(es, p, k),
    ensures
        any_contact(es, p),
        first_contact(es, p) == k,
{
    let c = first_contact(es, p);
    assert(is_first_contact(es, p, c));
    if c < k {
        assert(!touches(es[c], p));
    } else if k < c {
        assert(!touches(es[k], p));
    }
}

pub proof fn lemma_first_strike(b: BulletEntity, es: Seq<EnemyEntity>, k: int)
    requires
        is_first_strike(b, es, k),
    ensures
        any_strike(b, es),
        first_strike(b, es) == k,
{
    let c = first_strike(b, es);
    assert(is_first_strike(b, es, c));
    if c < k {
        assert(!strikes(b, es[c]));
    } else if k < c {
        assert(!strikes(b, es[k]));
    }
}

impl World {
    /// Contact damage: see `WorldView::after_contact`.
    pub fn player_damage_system(&mut self, delta: u64) -> (r: Option<PlayerGetDamageEvent>)
        ensures
            (final(self)@, r) == old(self)@.after_contact(delta),
    {
        self.game_data.player_godmod_timer.tick(delta);
        let p = match &self.player {
            Some(p) => *p,
            None => {
                return None;
            },
        };
        if p.killable.god_mode || !self.game_data.player_godmod_timer.finished() {
            return None;
        }
        let ghost ticked = self@;
        let mut i: usize = 0;
        while i < self.enemies.len()
            invariant
                0 <= i <= self.enemies@.len(),
                self@ == ticked,
                ticked == (WorldView {
                    game_data: GameData {
                        player_godmod_timer: old(self).game_data.player_godmod_timer.ticked(delta),
                        ..old(self).game_data
                    },
                    ..old(self)@
                }),
                self.player == Some(p),
                !p.killable.god_mode,
                ticked.game_data.player_godmod_timer.finished,
                forall|j: int| 0 <= j < i ==> !touches(#[trigger] self.enemies@[j], p),
            decreases self.enemies@.len() - i,
        {
            let e = &self.enemies[i];
            if overlaps(e.pos, e.half_extent, p.pos, p.half_extent) {
                let damage = e.enemy.damage;
                proof {
                    lemma_first_contact(self.enemies@, p, i as int);
                }
                self.game_data.player_godmod_timer.reset();
                return Some(PlayerGetDamageEvent { damage });
            }
            i = i + 1;
        }
        None
    }

    /// Projectile hits: see `resolve_hits`.
    pub fn player_bullet_hit_system(&mut self) -> (r: Vec<EventDamageHintSpawn>)
        ensures
            (final(self)@, r@) == old(self)@.after_bullet_hits(),
    {
        let mut kept: Vec<BulletEntity> = Vec::new();
        let mut hints: Vec<EventDamageHintSpawn> = Vec::new();
        let mut i: usize = 0;
        while i < self.bullets.len()
            invariant
                0 <= i <= self.bullets@.len(),
                self.bullets@ == old(self)@.bullets,
                self.player == old(self).player,
                self.game_data == old(self).game_data,
                self.state == old(self).state,
                self.pending_exp@ == old(self)@.pending_exp,
                (self.enemies@, kept@, hints@) == resolve_hits(
                    self.bullets@.take(i as int),
                    old(self)@.enemies,
                ),
            decreases self.bullets@.len() - i,
        {
            let b = self.bullets[i];
            assert(self.bullets@.take(i as int + 1).drop_last() == self.bullets@.take(i as int));
            assert(self.bullets@.take(i as int + 1).last() == b);
            let mut k: usize = 0;
            let mut found = false;
            while k < self.enemies.len()
                invariant_except_break
                    !found,
                invariant
                    0 <= k <= self.enemies@.len(),
                    forall|j: int| 0 <= j < k ==> !strikes(b, #[trigger] self.enemies@[j]),
                ensures
                    0 <= k <= self.enemies@.len(),
                    found ==> k < self.enemies@.len() && strikes(b, self.enemies@[k as int]),
                    !found ==> k == self.enemies@.len(),
                decreases self.enemies@.len() - k,
            {
                let e = self.enemies[k];
                if overlaps(
                    b.pos,
                    b.half_extent,
                    e.pos,
                    Pos { x: ENEMY_HIT_HALF_EXTENT, y: ENEMY_HIT_HALF_EXTENT },
                ) {
                    found = true;
                    break;
                }
                k = k + 1;
            }
            if found {
                proof {
                    lemma_first_strike(b, self.enemies@, k as int);
                }
                let mut e = self.enemies[k];
                let position = e.pos;
                e.killable.hit(b.bullet.damage);
                self.enemies[k] = e;
                hints.push(EventDamageHintSpawn { damage: b.bullet.damage, position });
            } else {
                kept.push(b);
            }
            i = i + 1;
        }
        assert(self.bullets@.take(self.bullets@.len() as int) == self.bullets@);
        self.bullets = kept;
        hints
    }

    /// Applies a contact-damage event to the player: see
    /// `WorldView::after_damage`.
    pub fn get_player_damage_event(&mut self, ev: Option<PlayerGetDamageEvent>)
        ensures
            final(self)@ == old(self)@.after_damage(ev),
    {
        if let Some(p) = &mut self.player {
            if let Some(d) = ev {
                p.killable.hit(d.damage);
            }
            if p.killable.hp <= 0 {
                self.state = GameState::Gameover;
            }
        }
    }

    /// Hands the queued experience to the player: see
    /// `WorldView::after_exp`.
    pub fn get_player_exp_event(&mut self)
        ensures
            final(self)@ == old(self)@.after_exp(),
    {
        if let Some(p) = &mut self.player {
            p.player.gain_all(&self.pending_exp);
        }
        self.pending_exp = Vec::new();
    }
}

} // verus!
