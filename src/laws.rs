//! Properties that hold of every run of the systems, proved over the spec
//! functions that the systems' contracts use.
use vstd::prelude::*;

use vstd::arithmetic::div_mod::{
    lemma_basic_div, lemma_div_plus_one, lemma_mod_add_multiples_vanish, lemma_small_mod,
};

use crate::combat::{
    any_contact, any_strike, first_strike, is_first_strike, lemma_first_strike, resolve_bullet,
    resolve_hits, strikes, struck,
};
use crate::controls::GameState;
use crate::entities::{
    new_enemy, BulletEntity, EnemyEntity, EventDamageHintSpawn, WorldView,
    DESPAWN_BULLET_DISTANCE, ENEMY_KILL_EXP,
};
use crate::geometry::{dist_sq, offset_by, Pos};
use crate::killable::{hp_after_hit, Killable};
use crate::reaper::{alive_enemy, dead_enemy, in_range, is_alive, reward, rewards};
use crate::spawner::{in_spawn_ring, SPAWN_MIN_RADIUS, SPAWN_RADIUS};
use crate::timer::TimerMode;
use crate::world::TickInput;

verus! {

broadcast use vstd::seq_lib::group_filter_ensures;

proof fn lemma_filter_split(s: Seq<EnemyEntity>)
    ensures
        s.filter(alive_enemy()).len() + s.filter(dead_enemy()).len() == s.len(),
    decreases s.len(),
{
    if s.len() > 0 {
        let t = s.drop_last();
        lemma_filter_split(t);
        assert(t.push(s.last()) == s);
        t.lemma_filter_push(s.last(), alive_enemy());
        t.lemma_filter_push(s.last(), dead_enemy());
    }
}

/// Removing the dead: every enemy with health at or below zero yields
/// exactly one experience event carrying its reward, in storage order; the
/// enemies that remain all have positive health; no enemy is lost or
/// counted twice.
pub proof fn lemma_reap_rewards_each_dead_enemy_once(w: WorldView)
    ensures
        ({
            let (after, events) = w.after_reap();
            let dead = w.enemies.filter(dead_enemy());
            &&& events == rewards(w.enemies)
            &&& events.len() == dead.len()
            &&& forall|i: int| 0 <= i < events.len() ==> events[i] == reward(#[trigger] dead[i])
            &&& forall|i: int| 0 <= i < dead.len() ==> (#[trigger] dead[i]).killable.hp <= 0
            &&& forall|i: int|
                0 <= i < after.enemies.len() ==> is_alive(#[trigger] after.enemies[i])
            &&& after.enemies.len() + events.len() == w.enemies.len()
            &&& after.pending_exp == w.pending_exp + events
        }),
{
    let (after, events) = w.after_reap();
    let dead = w.enemies.filter(dead_enemy());
    assert forall|i: int| 0 <= i < dead.len() implies (#[trigger] dead[i]).killable.hp <= 0 by {
        w.enemies.lemma_filter_pred(dead_enemy(), i);
    }
    assert forall|i: int| 0 <= i < after.enemies.len() implies is_alive(
        #[trigger] after.enemies[i],
    ) by {
        w.enemies.lemma_filter_pred(alive_enemy(), i);
    }
    lemma_filter_split(w.enemies);
}

/// After a tick of play no enemy with health at or below zero is left.
pub proof fn lemma_no_dead_enemy_after_tick(w: WorldView, input: TickInput, off: Pos)
    requires
        w.state == GameState::Playing,
    ensures
        forall|i: int|
            0 <= i < w.after_tick(input, off).0.enemies.len() ==> is_alive(
                #[trigger] w.after_tick(input, off).0.enemies[i],
            ),
{
    let delta = input.delta;
    let moved = w.after_movement(input, off);
    let contact = moved.after_contact(delta);
    let hits = contact.0.after_bullet_hits();
    let before_reap = hits.0.after_damage(contact.1).after_exp();
    lemma_reap_rewards_each_dead_enemy_once(before_reap);
}

/// Every enemy of `es` is worth the spawner's reward.
pub open spec fn pays_standard_reward(es: Seq<EnemyEntity>) -> bool {
    forall|i: int| 0 <= i < es.len() ==> (#[trigger] es[i]).enemy.kill_exp == ENEMY_KILL_EXP
}

proof fn lemma_filter_keeps_reward(s: Seq<EnemyEntity>, p: spec_fn(EnemyEntity) -> bool)
    requires
        pays_standard_reward(s),
    ensures
        pays_standard_reward(s.filter(p)),
    decreases s.len(),
{
    if s.len() > 0 {
        let t = s.drop_last();
        lemma_filter_keeps_reward(t, p);
        assert(t.push(s.last()) == s);
        t.lemma_filter_push(s.last(), p);
    }
}

proof fn lemma_hits_keep_reward(bullets: Seq<BulletEntity>, es: Seq<EnemyEntity>)
    requires
        pays_standard_reward(es),
    ensures
        pays_standard_reward(resolve_hits(bullets, es).0),
        resolve_hits(bullets, es).0.len() == es.len(),
    decreases bullets.len(),
{
    if bullets.len() > 0 {
        lemma_hits_keep_reward(bullets.drop_last(), es);
        let prev = resolve_hits(bullets.drop_last(), es).0;
        let b = bullets.last();
        if any_strike(b, prev) {
            let kk = choose|k: int| 0 <= k < prev.len() && strikes(b, #[trigger] prev[k]);
            lemma_first_exists(b, prev, kk);
            let k = first_strike(b, prev);
            let after = prev.update(k, struck(prev[k], b));
            assert forall|i: int| 0 <= i < after.len() implies (#[trigger] after[i]).enemy.kill_exp
                == ENEMY_KILL_EXP by {
                if i != k {
                    assert(after[i] == prev[i]);
                }
            }
        }
    }
}

/// Every enemy pays the spawner's reward of 15 experience: a world whose
/// enemies all carry that reward still does after a tick, since enemies
/// enter the world only through the spawner.
pub proof fn lemma_tick_keeps_standard_reward(w: WorldView, input: TickInput, off: Pos)
    requires
        pays_standard_reward(w.enemies),
    ensures
        pays_standard_reward(w.after_tick(input, off).0.enemies),
{
    if w.state == GameState::Playing {
        let delta = input.delta;
        let moved = w.after_movement(input, off);
        assert(pays_standard_reward(moved.enemies));
        let contact = moved.after_contact(delta);
        lemma_hits_keep_reward(contact.0.bullets, contact.0.enemies);
        let hits = contact.0.after_bullet_hits();
        let before_reap = hits.0.after_damage(contact.1).after_exp();
        lemma_filter_keeps_reward(before_reap.enemies, alive_enemy());
    }
}

/// With every enemy carrying the spawner's reward, removing the dead emits
/// one event of exactly 15 experience for each dead enemy.
pub proof fn lemma_reap_pays_fifteen(w: WorldView)
    requires
        pays_standard_reward(w.enemies),
    ensures
        w.after_reap().1.len() == w.enemies.filter(dead_enemy()).len(),
        forall|i: int|
            0 <= i < w.after_reap().1.len() ==> (#[trigger] w.after_reap().1[i]).exp == 15,
{
    let dead = w.enemies.filter(dead_enemy());
    lemma_filter_keeps_reward(w.enemies, dead_enemy());
    assert forall|i: int| 0 <= i < w.after_reap().1.len() implies (
    #[trigger] w.after_reap().1[i]).exp == 15 by {
        assert(w.after_reap().1[i] == reward(dead[i]));
    }
}

/// A projectile that overlaps at least one enemy is used up: it is not among
/// the survivors, exactly one damage hint is emitted, and exactly one enemy,
/// the first it overlaps, takes the hit (losing the projectile's damage
/// unless it is in god mode) while every other enemy is unchanged.
pub proof fn lemma_projectile_scores_once(
    es: Seq<EnemyEntity>,
    kept: Seq<BulletEntity>,
    hints: Seq<EventDamageHintSpawn>,
    b: BulletEntity,
)
    requires
        any_strike(b, es),
    ensures
        ({
            let r = resolve_bullet((es, kept, hints), b);
            &&& r.1 == kept
            &&& r.2.len() == hints.len() + 1
            &&& r.0.len() == es.len()
            &&& exists|k: int|
                is_first_strike(b, es, k) && r.0[k] == (EnemyEntity {
                    killable: es[k].killable.after_hit(b.bullet.damage),
                    ..es[k]
                }) && (!es[k].killable.god_mode ==> r.0[k].killable.hp == hp_after_hit(
                    es[k].killable.hp,
                    b.bullet.damage,
                )) && forall|j: int| 0 <= j < es.len() && j != k ==> r.0[j] == es[j]
        }),
{
    let k = first_strike(b, es);
    let kk = choose|k: int| 0 <= k < es.len() && strikes(b, #[trigger] es[k]);
    lemma_first_exists(b, es, kk);
    let r = resolve_bullet((es, kept, hints), b);
    assert(0 <= k < es.len());
    assert(r.0[k] == struck(es[k], b));
    assert(forall|j: int| 0 <= j < es.len() && j != k ==> r.0[j] == es[j]);
}

/// The enemy that projectile `b` hits among `es`: the first it overlaps in
/// storage order, or -1 when it overlaps none.
pub open spec fn hit_target(b: BulletEntity, es: Seq<EnemyEntity>) -> int {
    if any_strike(b, es) {
        first_strike(b, es)
    } else {
        -1
    }
}

/// The damage that the projectiles of `bullets` aim at enemy `k` of `es`:
/// the sum of the damage of every projectile whose target is `k`.
pub open spec fn damage_to(bullets: Seq<BulletEntity>, es: Seq<EnemyEntity>, k: int) -> int
    decreases bullets.len(),
{
    if bullets.len() == 0 {
        0
    } else {
        damage_to(bullets.drop_last(), es, k) + if hit_target(bullets.last(), es) == k {
            bullets.last().bullet.damage as int
        } else {
            0
        }
    }
}

/// `after` is `before` with at most the hit points changed.
pub open spec fn only_hp_changed(after: EnemyEntity, before: EnemyEntity) -> bool {
    after == (EnemyEntity {
        killable: Killable { hp: after.killable.hp, ..before.killable },
        ..before
    })
}

/// Projectile damage over a whole tick: every projectile either scores once
/// (one damage hint) or survives; no enemy is added, removed or moved; an
/// enemy in god mode is unchanged; and, while no hit point total leaves the
/// range of `i32`, every other enemy loses exactly the sum of the damage of
/// the projectiles whose first overlapped enemy it is.
pub proof fn lemma_projectile_damage_sums(bullets: Seq<BulletEntity>, es: Seq<EnemyEntity>)
    requires
        forall|i: int| 0 <= i < bullets.len() ==> (#[trigger] bullets[i]).bullet.damage >= 0,
    ensures
        ({
            let r = resolve_hits(bullets, es);
            &&& r.0.len() == es.len()
            &&& r.1.len() + r.2.len() == bullets.len()
            &&& forall|k: int| 0 <= k < es.len() ==> only_hp_changed(#[trigger] r.0[k], es[k])
            &&& forall|k: int| 0 <= k < es.len() && es[k].killable.god_mode ==> #[trigger] r.0[k] == es[k]
            &&& forall|k: int|
                0 <= k < es.len() && !es[k].killable.god_mode && es[k].killable.hp - damage_to(
                    bullets,
                    es,
                    k,
                ) >= i32::MIN ==> (#[trigger] r.0[k]).killable.hp == es[k].killable.hp - damage_to(
                    bullets,
                    es,
                    k,
                )
        }),
    decreases bullets.len(),
{
    if bullets.len() > 0 {
        let rest = bullets.drop_last();
        let b = bullets.last();
        lemma_projectile_damage_sums(rest, es);
        let prev = resolve_hits(rest, es);
        assert forall|k: int| 0 <= k < es.len() implies damage_to(rest, es, k) <= damage_to(
            bullets,
            es,
            k,
        ) by {}
        assert forall|j: int| 0 <= j < es.len() implies strikes(b, #[trigger] prev.0[j]) == strikes(
            b,
            es[j],
        ) by {
            assert(only_hp_changed(prev.0[j], es[j]));
        }
        if any_strike(b, prev.0) {
            let kk = choose|k: int| 0 <= k < prev.0.len() && strikes(b, #[trigger] prev.0[k]);
            lemma_first_exists(b, prev.0, kk);
            let k = first_strike(b, prev.0);
            assert(strikes(b, prev.0[k]) == strikes(b, es[k]));
            assert forall|j: int| 0 <= j < k implies !strikes(b, #[trigger] es[j]) by {
                assert(strikes(b, prev.0[j]) == strikes(b, es[j]));
            }
            assert(is_first_strike(b, es, k));
            lemma_first_strike(b, es, k);
            assert(hit_target(b, es) == k);
            let after = prev.0.update(k, struck(prev.0[k], b));
            assert(only_hp_changed(prev.0[k], es[k]));
            assert forall|j: int| 0 <= j < es.len() && j != k implies damage_to(bullets, es, j)
                == damage_to(rest, es, j) by {}
        } else {
            assert forall|j: int| 0 <= j < es.len() implies !strikes(b, #[trigger] es[j]) by {
                assert(!strikes(b, prev.0[j]));
            }
            assert(!any_strike(b, es));
            assert forall|j: int| 0 <= j < es.len() implies damage_to(bullets, es, j)
                == damage_to(rest, es, j) by {}
        }
    }
}

/// Some enemy at or before `kk` is the first that `b` strikes.
proof fn lemma_first_exists(b: BulletEntity, es: Seq<EnemyEntity>, kk: int)
    requires
        0 <= kk < es.len(),
        strikes(b, es[kk]),
    ensures
        is_first_strike(b, es, first_strike(b, es)),
    decreases kk,
{
    if exists|j: int| 0 <= j < kk && strikes(b, #[trigger] es[j]) {
        let j = choose|j: int| 0 <= j < kk && strikes(b, #[trigger] es[j]);
        lemma_first_exists(b, es, j);
    } else {
        assert(is_first_strike(b, es, kk));
    }
}

/// The sum of a sequence of durations.
pub open spec fn total(dts: Seq<u64>) -> int
    decreases dts.len(),
{
    if dts.len() == 0 {
        0
    } else {
        dts[0] + total(dts.drop_first())
    }
}

/// The number of contact-damage events over ticks of the durations `dts`,
/// in order, with nothing moving.
pub open spec fn contact_hits(w: WorldView, dts: Seq<u64>) -> nat
    decreases dts.len(),
{
    if dts.len() == 0 {
        0
    } else {
        let r = w.after_contact(dts[0]);
        (if r.1 is Some { 1nat } else { 0nat }) + contact_hits(r.0, dts.drop_first())
    }
}

/// Starting `start` microseconds into a window of `window` microseconds, no
/// multiple of the window falls strictly inside a tick of `dts`: every tick
/// ends at or before the end of the window it starts in.
pub open spec fn aligned(start: int, window: int, dts: Seq<u64>) -> bool {
    forall|i: int|
        0 <= i < dts.len() ==> (start + #[trigger] total(dts.take(i))) % window + dts[i]
            <= window
}

proof fn lemma_total_take_succ(dts: Seq<u64>, i: int)
    requires
        0 <= i < dts.len() - 1,
    ensures
        total(dts.take(i + 1)) == dts[0] + total(dts.drop_first().take(i)),
{
    assert(dts.take(i + 1).drop_first() =~= dts.drop_first().take(i));
}

proof fn lemma_contact_hits_from_phase(w: WorldView, dts: Seq<u64>, e: int)
    requires
        w.game_data.player_godmod_timer.duration > 0,
        0 <= e < w.game_data.player_godmod_timer.duration,
        w.game_data.player_godmod_timer.elapsed == e,
        w.game_data.player_godmod_timer.mode == TimerMode::Once,
        !w.game_data.player_godmod_timer.finished,
        w.player is Some,
        !w.player->0.killable.god_mode,
        any_contact(w.enemies, w.player->0),
        aligned(e, w.game_data.player_godmod_timer.duration as int, dts),
    ensures
        contact_hits(w, dts) == (e + total(dts)) / (w.game_data.player_godmod_timer.duration as int),
    decreases dts.len(),
{
    let window = w.game_data.player_godmod_timer.duration as int;
    if dts.len() == 0 {
        lemma_basic_div(e, window);
    } else {
        let dt = dts[0];
        let rest = dts.drop_first();
        assert(dts.take(0) =~= Seq::<u64>::empty());
        assert(total(dts.take(0)) == 0);
        lemma_small_mod(e as nat, window as nat);
        assert(e + dt <= window);
        let r = w.after_contact(dt);
        let hit = e + dt == window;
        let start = if hit { 0 } else { e + dt };
        assert forall|i: int| 0 <= i < rest.len() implies (start + #[trigger] total(rest.take(i)))
            % window + rest[i] <= window by {
            lemma_total_take_succ(dts, i);
            assert(dts[i + 1] == rest[i]);
            assert((e + total(dts.take(i + 1))) % window + dts[i + 1] <= window);
            if hit {
                lemma_mod_add_multiples_vanish(total(rest.take(i)), window);
            }
        }
        lemma_contact_hits_from_phase(r.0, rest, start);
        if hit {
            lemma_div_plus_one(total(rest), window);
        }
    }
}

/// Invincibility: a player out of god mode whom an enemy touches on every
/// tick, starting with a fresh invincibility timer of window `W`, takes
/// contact damage `floor(D / W)` times over ticks that last `D` in all,
/// not once per tick, provided every multiple of `W` falls on the boundary
/// between two ticks.
pub proof fn lemma_invincibility_limits_hits(w: WorldView, dts: Seq<u64>)
    requires
        w.game_data.player_godmod_timer.duration > 0,
        w.game_data.player_godmod_timer.elapsed == 0,
        w.game_data.player_godmod_timer.mode == TimerMode::Once,
        !w.game_data.player_godmod_timer.finished,
        w.player is Some,
        !w.player->0.killable.god_mode,
        any_contact(w.enemies, w.player->0),
        aligned(0, w.game_data.player_godmod_timer.duration as int, dts),
    ensures
        contact_hits(w, dts) == total(dts) / (w.game_data.player_godmod_timer.duration as int),
{
    lemma_contact_hits_from_phase(w, dts, 0);
}

/// Spawn radius: when the spawn timer completes with a player present, the
/// new enemy lies no closer to the player than `SPAWN_MIN_RADIUS` and no
/// farther than `SPAWN_RADIUS`, for every offset that the sampler can
/// return, unless the player stands within reach of the edge of the world.
pub proof fn lemma_spawn_in_ring(w: WorldView, delta: u64, off: Pos)
    requires
        in_spawn_ring(off),
        w.player is Some,
        i32::MIN + SPAWN_RADIUS <= w.player->0.pos.x <= i32::MAX - SPAWN_RADIUS,
        i32::MIN + SPAWN_RADIUS <= w.player->0.pos.y <= i32::MAX - SPAWN_RADIUS,
    ensures
        ({
            let after = w.after_spawn(delta, off);
            after.enemies.len() > w.enemies.len() ==> {
                let e = after.enemies.last();
                let d = dist_sq(e.pos, w.player->0.pos);
                &&& e == new_enemy(offset_by(w.player->0.pos, off))
                &&& SPAWN_MIN_RADIUS * SPAWN_MIN_RADIUS <= d <= SPAWN_RADIUS * SPAWN_RADIUS
            }
        }),
{
    let p = w.player->0.pos;
    let d0 = dist_sq(off, Pos { x: 0, y: 0 });
    assert(off.x * off.x <= d0 && off.y * off.y <= d0) by (nonlinear_arith)
        requires
            d0 == (off.x - 0) * (off.x - 0) + (off.y - 0) * (off.y - 0),
    ;
    assert(-400_000 <= off.x <= 400_000 && -400_000 <= off.y <= 400_000) by (nonlinear_arith)
        requires
            off.x * off.x <= 160_000_000_000,
            off.y * off.y <= 160_000_000_000,
    ;
    let q = offset_by(p, off);
    assert(q.x == p.x + off.x && q.y == p.y + off.y);
    assert(dist_sq(q, p) == d0) by (nonlinear_arith)
        requires
            q.x == p.x + off.x,
            q.y == p.y + off.y,
            d0 == (off.x - 0) * (off.x - 0) + (off.y - 0) * (off.y - 0),
    ;
}

/// Despawn by distance: with a player present, a projectile exactly at the
/// despawn distance from it stays, and one farther away that asks for
/// removal is gone after the removal step.
pub proof fn lemma_despawn_boundary(w: WorldView, i: int)
    requires
        w.player is Some,
        0 <= i < w.bullets.len(),
    ensures
        dist_sq(w.bullets[i].pos, w.player->0.pos) <= DESPAWN_BULLET_DISTANCE
            * DESPAWN_BULLET_DISTANCE ==> w.after_reap().0.bullets.contains(w.bullets[i]),
        w.bullets[i].movable.auto_despawn && dist_sq(w.bullets[i].pos, w.player->0.pos)
            > DESPAWN_BULLET_DISTANCE * DESPAWN_BULLET_DISTANCE ==> !w.after_reap().0.bullets.contains(
            w.bullets[i],
        ),
{
    let c = w.player->0.pos;
    let kept = w.bullets.filter(in_range(c));
    if dist_sq(w.bullets[i].pos, c) <= DESPAWN_BULLET_DISTANCE * DESPAWN_BULLET_DISTANCE {
        w.bullets.lemma_filter_contains(in_range(c), i);
    }
    if w.bullets[i].movable.auto_despawn && dist_sq(w.bullets[i].pos, c) > DESPAWN_BULLET_DISTANCE
        * DESPAWN_BULLET_DISTANCE {
        if kept.contains(w.bullets[i]) {
            let j = choose|j: int| 0 <= j < kept.len() && kept[j] == w.bullets[i];
            w.bullets.lemma_filter_pred(in_range(c), j);
        }
    }
}

} // verus!
