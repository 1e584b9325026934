use bevy_bullet_hell::controls::GameState;
use bevy_bullet_hell::geometry::Pos;
use bevy_bullet_hell::killable::Killable;
use bevy_bullet_hell::progression::Player;
use bevy_bullet_hell::spawner::{spawn_offset, spawn_offset_from, SPAWN_RADIUS_CUBED};
use bevy_bullet_hell::entities::{
    make_bullet, make_enemy, make_player, BulletEntity, EnemyEntity, PlayerEntity,
    PlayerGetDamageEvent, SpriteSize, World,
};
use bevy_bullet_hell::world::TickInput;

fn player_at(x: i32, y: i32) -> PlayerEntity {
    let mut p = make_player(SpriteSize(Pos::new(100_000, 100_000)));
    p.pos = Pos::new(x, y);
    p
}

fn playing_world() -> World {
    let mut w = World::new(GameState::Playing);
    w.player = Some(player_at(0, 0));
    w
}

fn idle(delta: u64) -> TickInput {
    TickInput { delta, movement: None, dodge: None, fire: false, cursor: Pos::new(0, 1000) }
}

fn enemy_at(x: i32, y: i32) -> EnemyEntity {
    make_enemy(Pos::new(x, y))
}

fn bullet_at(x: i32, y: i32) -> BulletEntity {
    make_bullet(Pos::new(x, y), Pos::new(1000, 0))
}

const FAR: Pos = Pos { x: 400_000, y: 0 };

#[test]
fn new_player_has_full_health_and_level_one() {
    let p = make_player(SpriteSize(Pos::new(256_000, 128_000)));
    assert_eq!(p.pos, Pos::new(0, 0));
    assert_eq!(p.half_extent, Pos::new(32_000, 16_000));
    assert_eq!(p.killable, Killable::new(10, 10, false));
    assert_eq!(p.player, Player::new());
}

#[test]
fn contact_damage_then_invincibility() {
    let mut w = playing_world();
    w.game_data.player_godmod_timer.elapsed = 1_000_000;
    w.game_data.player_godmod_timer.finished = true;
    w.enemies.push(enemy_at(0, 0));

    let r = w.tick(&idle(16_000), FAR);
    assert_eq!(r.player_damage, Some(PlayerGetDamageEvent { damage: 1 }));
    assert_eq!(w.player.unwrap().killable.hp, 9);
    assert!(!w.game_data.player_godmod_timer.finished());
    assert_eq!(w.game_data.player_godmod_timer.elapsed, 0);

    let r = w.tick(&idle(16_000), FAR);
    assert_eq!(r.player_damage, None);
    assert_eq!(w.player.unwrap().killable.hp, 9);
    assert_eq!(w.state, GameState::Playing);
}

#[test]
fn contact_damage_counts_windows_not_ticks() {
    let mut w = playing_world();
    w.enemies.push(enemy_at(0, 0));
    let mut hits = 0;
    for _ in 0..10 {
        if w.tick(&idle(250_000), FAR).player_damage.is_some() {
            hits += 1;
        }
    }
    // 2.5 s of contact with a 1 s window.
    assert_eq!(hits, 2);
    assert_eq!(w.player.unwrap().killable.hp, 8);
}

#[test]
fn contact_damage_counts_windows_over_uneven_ticks() {
    let mut w = playing_world();
    w.enemies.push(enemy_at(0, 0));
    let mut hits = 0;
    // 2.5 s in all; the window boundaries at 1 s and 2 s fall between ticks.
    for delta in [400_000, 600_000, 250_000, 750_000, 300_000, 200_000] {
        if w.tick(&idle(delta), FAR).player_damage.is_some() {
            hits += 1;
        }
    }
    assert_eq!(hits, 2);
    assert_eq!(w.player.unwrap().killable.hp, 8);
}

#[test]
fn god_mode_blocks_contact_damage() {
    let mut w = playing_world();
    let mut p = w.player.unwrap();
    p.killable.god_mode = true;
    w.player = Some(p);
    w.game_data.player_godmod_timer.elapsed = 1_000_000;
    w.game_data.player_godmod_timer.finished = true;
    w.enemies.push(enemy_at(0, 0));
    assert_eq!(w.player_damage_system(16_000), None);
}

#[test]
fn lethal_contact_ends_the_game() {
    let mut w = playing_world();
    let mut p = w.player.unwrap();
    p.killable.hp = 1;
    w.player = Some(p);
    w.game_data.player_godmod_timer.finished = true;
    w.game_data.player_godmod_timer.elapsed = 1_000_000;
    w.enemies.push(enemy_at(100, 100));
    w.tick(&idle(1_000), FAR);
    assert_eq!(w.player.unwrap().killable.hp, 0);
    assert_eq!(w.state, GameState::Gameover);
    let r = w.tick(&idle(1_000), FAR);
    assert!(r.player_damage.is_none());
}

#[test]
fn projectile_hits_only_the_first_enemy_it_overlaps() {
    let mut w = playing_world();
    w.enemies.push(enemy_at(100_000, 0));
    w.enemies.push(enemy_at(100_000, 1_000));
    w.bullets.push(bullet_at(100_000, 0));
    let hints = w.player_bullet_hit_system();
    assert_eq!(hints.len(), 1);
    assert_eq!(hints[0].damage, 2);
    assert_eq!(hints[0].position, Pos::new(100_000, 0));
    assert!(w.bullets.is_empty());
    assert_eq!(w.enemies[0].killable.hp, 1);
    assert_eq!(w.enemies[1].killable.hp, 3);
}

#[test]
fn projectile_that_misses_survives() {
    let mut w = playing_world();
    w.enemies.push(enemy_at(100_000, 0));
    // Half extents 10 and 12.5 units: the boxes touch 22.5 units apart.
    w.bullets.push(bullet_at(122_501, 0));
    w.bullets.push(bullet_at(122_500, 0));
    let hints = w.player_bullet_hit_system();
    assert_eq!(hints.len(), 1);
    assert_eq!(w.bullets.len(), 1);
    assert_eq!(w.bullets[0].pos, Pos::new(122_501, 0));
    assert_eq!(w.enemies[0].killable.hp, 1);
}

#[test]
fn god_mode_enemy_ignores_projectiles() {
    let mut w = playing_world();
    let mut e = enemy_at(100_000, 0);
    e.killable.god_mode = true;
    w.enemies.push(e);
    w.bullets.push(bullet_at(100_000, 0));
    let hints = w.player_bullet_hit_system();
    assert_eq!(hints.len(), 1);
    assert!(w.bullets.is_empty());
    assert_eq!(w.enemies[0].killable.hp, 3);
}

#[test]
fn god_mode_player_ignores_damage_events() {
    let mut w = playing_world();
    let mut p = w.player.unwrap();
    p.killable.god_mode = true;
    w.player = Some(p);
    w.get_player_damage_event(Some(PlayerGetDamageEvent { damage: 50 }));
    assert_eq!(w.player.unwrap().killable.hp, 10);
    assert_eq!(w.state, GameState::Playing);
}

#[test]
fn two_projectiles_kill_an_enemy_and_pay_experience_once() {
    let mut w = playing_world();
    w.enemies.push(enemy_at(100_000, 0));
    w.bullets.push(bullet_at(100_000, 0));
    w.bullets.push(bullet_at(100_000, 0));
    let r = w.tick(&idle(0), FAR);
    assert_eq!(r.damage_hints.len(), 2);
    assert_eq!(r.exp_events.len(), 1);
    assert_eq!(r.exp_events[0].exp, 15);
    assert!(w.enemies.is_empty());
    assert_eq!(w.pending_exp.len(), 1);
    let r = w.tick(&idle(0), FAR);
    assert!(r.exp_events.is_empty());
    assert!(w.pending_exp.is_empty());
    assert_eq!(w.player.unwrap().player.exp, 15);
}

#[test]
fn dead_enemies_are_reaped_even_without_player() {
    let mut w = World::new(GameState::Playing);
    let mut dead = enemy_at(0, 0);
    dead.killable.hp = 0;
    w.enemies.push(dead);
    w.enemies.push(enemy_at(5, 5));
    let events = w.despawn_system();
    assert_eq!(events.len(), 1);
    assert_eq!(w.enemies.len(), 1);
    assert_eq!(w.enemies[0].pos, Pos::new(5, 5));
}

#[test]
fn projectile_at_exactly_the_despawn_distance_stays() {
    let mut w = playing_world();
    w.bullets.push(bullet_at(2_000_000, 0));
    w.despawn_system();
    assert_eq!(w.bullets.len(), 1);
}

#[test]
fn projectile_just_beyond_the_despawn_distance_goes() {
    let mut w = playing_world();
    w.bullets.push(bullet_at(2_000_010, 0));
    w.bullets.push(bullet_at(0, 2_000_000));
    w.despawn_system();
    assert_eq!(w.bullets.len(), 1);
    assert_eq!(w.bullets[0].pos, Pos::new(0, 2_000_000));
}

#[test]
fn projectiles_stay_without_player() {
    let mut w = World::new(GameState::Playing);
    w.bullets.push(bullet_at(9_000_000, 0));
    w.despawn_system();
    assert_eq!(w.bullets.len(), 1);
}

#[test]
fn projectile_without_auto_despawn_stays() {
    let mut w = playing_world();
    let mut b = bullet_at(3_000_000, 0);
    b.movable.auto_despawn = false;
    w.bullets.push(b);
    w.despawn_system();
    assert_eq!(w.bullets.len(), 1);
}

#[test]
fn spawner_adds_one_enemy_per_period() {
    let mut w = playing_world();
    let mut p = w.player.unwrap();
    p.pos = Pos::new(1_000, -2_000);
    w.player = Some(p);
    w.enemy_spawn_system(300_000, FAR);
    assert!(w.enemies.is_empty());
    w.enemy_spawn_system(300_000, FAR);
    assert_eq!(w.enemies.len(), 1);
    assert_eq!(w.enemies[0].pos, Pos::new(401_000, -2_000));
    assert_eq!(w.enemies[0].killable, Killable::new(3, 3, false));
    assert_eq!(w.enemies[0].enemy.damage, 1);
    assert_eq!(w.enemies[0].enemy.kill_exp, 15);
    assert_eq!(w.game_data.enemy_spawn_timer.elapsed, 0);
}

#[test]
fn spawner_waits_for_a_player() {
    let mut w = World::new(GameState::Playing);
    w.enemy_spawn_system(600_000, FAR);
    assert!(w.enemies.is_empty());
}

#[test]
fn spawn_offsets_stay_in_the_ring() {
    for _ in 0..10_000 {
        let off = spawn_offset();
        let d = ((off.x as f64).powi(2) + (off.y as f64).powi(2)).sqrt() / 1000.0;
        assert!(d >= 233.8, "too close: {d}");
        assert!(d <= 400.0, "too far: {d}");
    }
}

#[test]
fn spawn_offset_from_samples() {
    assert_eq!(spawn_offset_from(1 << 20, 0, SPAWN_RADIUS_CUBED), Some(Pos::new(400_000, 0)));
    assert_eq!(spawn_offset_from(0, -(1 << 20), SPAWN_RADIUS_CUBED), Some(Pos::new(0, -400_000)));
    assert_eq!(
        spawn_offset_from(1 << 20, 0, 12_800_000_000_000_000),
        Some(Pos::new(233_921, 0))
    );
    // A direction sample too close to the center is rejected.
    assert_eq!(spawn_offset_from(1, 1, SPAWN_RADIUS_CUBED), None);
    // A radius below the ring is rejected.
    assert_eq!(spawn_offset_from(1 << 20, 0, 1_000), None);
}

#[test]
fn enemies_chase_the_player() {
    let mut w = playing_world();
    w.enemies.push(enemy_at(300_000, 0));
    w.enemies.push(enemy_at(0, 0));
    w.enemy_move_system(1_000_000);
    assert_eq!(w.enemies[0].pos, Pos::new(270_000, 0));
    assert_eq!((w.enemies[0].velocity.x, w.enemies[0].velocity.y), (-1000, 0));
    assert_eq!(w.enemies[1].pos, Pos::new(0, 0));
}

#[test]
fn enemies_stand_still_without_player() {
    let mut w = World::new(GameState::Playing);
    w.enemies.push(enemy_at(300_000, 0));
    w.enemy_move_system(1_000_000);
    assert_eq!(w.enemies[0].pos, Pos::new(300_000, 0));
}

#[test]
fn firing_respects_the_cooldown() {
    let mut w = playing_world();
    w.player_fire_system(500_000, true, Pos::new(0, 5_000));
    assert!(w.bullets.is_empty());
    w.player_fire_system(500_000, true, Pos::new(0, 5_000));
    assert_eq!(w.bullets.len(), 1);
    assert_eq!((w.bullets[0].velocity.x, w.bullets[0].velocity.y), (0, 1000));
    assert_eq!(w.bullets[0].bullet.damage, 2);
    w.player_fire_system(500_000, true, Pos::new(0, 5_000));
    assert_eq!(w.bullets.len(), 1);
    w.movable_system(1_000_000);
    assert_eq!(w.bullets[0].pos, Pos::new(0, 50_000));
}

#[test]
fn player_moves_and_turns() {
    let mut w = playing_world();
    w.move_player(500_000, Some(Pos::new(1000, 0)));
    assert_eq!(w.player.unwrap().pos, Pos::new(50_000, 0));
    w.move_player(500_000, None);
    assert_eq!(w.player.unwrap().pos, Pos::new(50_000, 0));
    w.turn_player(Pos::new(50_000, -7));
    assert_eq!(w.player.unwrap().facing, Pos::new(0, -1000));
    w.turn_player(Pos::new(50_000, 0));
    assert_eq!(w.player.unwrap().facing, Pos::new(0, -1000));
}

#[test]
fn nothing_happens_outside_play() {
    let mut w = playing_world();
    w.state = GameState::Menu;
    w.enemies.push(enemy_at(300_000, 0));
    let r = w.tick(&idle(10_000_000), FAR);
    assert!(r.player_damage.is_none() && r.damage_hints.is_empty() && r.exp_events.is_empty());
    assert_eq!(w.enemies.len(), 1);
    assert_eq!(w.enemies[0].pos, Pos::new(300_000, 0));
}

#[test]
fn entering_play_creates_one_player_and_leaving_game_over_clears() {
    let sprite = SpriteSize(Pos::new(80_000, 80_000));
    let mut w = World::new(GameState::Menu);
    w.set_state(GameState::Playing, sprite);
    assert!(w.player.is_some());
    let mut p = w.player.unwrap();
    p.killable.hp = 4;
    w.player = Some(p);
    w.set_state(GameState::Menu, sprite);
    w.set_state(GameState::Playing, sprite);
    assert_eq!(w.player.unwrap().killable.hp, 4);
    w.bullets.push(bullet_at(0, 0));
    w.set_state(GameState::Gameover, sprite);
    w.set_state(GameState::Menu, sprite);
    assert!(w.player.is_none());
    assert!(w.bullets.is_empty());
    w.set_state(GameState::Playing, sprite);
    assert_eq!(w.player.unwrap().killable.hp, 10);
}

#[test]
fn update_spawns_in_the_ring() {
    let mut w = playing_world();
    w.update(&idle(500_000));
    assert_eq!(w.enemies.len(), 1);
    let e = w.enemies[0].pos;
    // The enemy moved toward the player for half a second at 30 units/s.
    let d = ((e.x as f64).powi(2) + (e.y as f64).powi(2)).sqrt() / 1000.0;
    assert!(d >= 233.8 - 15.5 && d <= 400.0, "distance {d}");
}

#[test]
fn spawn_offsets_vary() {
    let first = spawn_offset();
    let mut differs = false;
    for _ in 0..100 {
        if spawn_offset() != first {
            differs = true;
        }
    }
    assert!(differs);
}

#[test]
fn dodge_roll_dashes_until_its_timer_runs_out() {
    let mut w = playing_world();
    w.dodge_roll_system(100_000, Some(Pos::new(1000, 0)));
    assert!(w.player.unwrap().dodge.is_some());
    assert_eq!(w.player.unwrap().pos, Pos::new(0, 0));
    w.dodge_roll_system(100_000, None);
    assert_eq!(w.player.unwrap().pos, Pos::new(50_000, 0));
    w.dodge_roll_system(100_000, Some(Pos::new(0, 1000)));
    assert_eq!(w.player.unwrap().pos, Pos::new(100_000, 0));
    w.dodge_roll_system(100_000, None);
    assert!(w.player.unwrap().dodge.is_none());
    assert_eq!(w.player.unwrap().pos, Pos::new(100_000, 0));
}
