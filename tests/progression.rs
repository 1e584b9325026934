use bevy_bullet_hell::killable::{HealthBarComponent, Killable};
use bevy_bullet_hell::progression::{get_lvl_exp, Player, PlayerGetExpEvent};
use bevy_bullet_hell::timer::{Timer, TimerMode};

#[test]
fn level_thresholds_double_then_fall_back() {
    assert_eq!(get_lvl_exp(1), 100);
    assert_eq!(get_lvl_exp(2), 200);
    assert_eq!(get_lvl_exp(3), 400);
    assert_eq!(get_lvl_exp(14), 819_200);
    assert_eq!(get_lvl_exp(15), 1_638_400);
    assert_eq!(get_lvl_exp(16), 100);
    assert_eq!(get_lvl_exp(0), 100);
}

#[test]
fn new_player_starts_at_level_one() {
    let p = Player::default();
    assert_eq!((p.lvl, p.exp, p.next_lvl_exp), (1, 0, 100));
}

#[test]
fn granting_250_gives_level_two_with_150_left() {
    let mut p = Player::new();
    p.gain_exp(250);
    assert_eq!(p.lvl, 2);
    assert_eq!(p.exp, 150);
    assert_eq!(p.next_lvl_exp, 200);
}

#[test]
fn one_large_gain_levels_up_repeatedly() {
    let mut p = Player::new();
    p.gain_exp(300);
    assert_eq!((p.lvl, p.exp, p.next_lvl_exp), (3, 0, 400));
    p.gain_exp(399);
    assert_eq!((p.lvl, p.exp, p.next_lvl_exp), (3, 399, 400));
}

#[test]
fn experience_events_apply_in_order() {
    let mut p = Player::new();
    p.gain_all(&vec![PlayerGetExpEvent { exp: 15 }, PlayerGetExpEvent { exp: 90 }]);
    assert_eq!((p.lvl, p.exp, p.next_lvl_exp), (2, 5, 200));
}

#[test]
fn hits_take_health_and_saturate() {
    let mut k = Killable::new(3, 3, false);
    k.hit(2);
    assert_eq!(k.hp, 1);
    k.hit(2);
    assert_eq!(k.hp, -1);
    let mut low = Killable::new(i32::MIN + 1, 3, false);
    low.hit(5);
    assert_eq!(low.hp, i32::MIN);
}

#[test]
fn god_mode_is_immune_to_hits() {
    let mut k = Killable::new(10, 10, true);
    k.hit(1);
    assert_eq!(k, Killable::new(10, 10, true));
    k.hit(i32::MAX);
    assert_eq!(k.hp, 10);
}

#[test]
fn health_bar_tracks_health() {
    let mut bar = HealthBarComponent::new(10, 10);
    bar.hit(1);
    assert_eq!((bar.hp, bar.hp_max), (9, 10));
    bar.hit(-3);
    assert_eq!(bar.hp, 12);
}

#[test]
fn once_timer_finishes_and_stays_finished() {
    let mut t = Timer::from_micros(1_000_000, TimerMode::Once);
    t.tick(600_000);
    assert!(!t.finished());
    t.tick(600_000);
    assert!(t.finished());
    assert_eq!(t.elapsed, 1_000_000);
    t.tick(5);
    assert!(t.finished());
    t.reset();
    assert!(!t.finished());
    assert_eq!(t.elapsed, 0);
}

#[test]
fn repeating_timer_starts_over_from_zero() {
    let mut t = Timer::from_micros(500_000, TimerMode::Repeating);
    t.tick(400_000);
    assert!(!t.finished());
    t.tick(400_000);
    assert!(t.finished());
    assert_eq!(t.elapsed, 0);
    t.tick(400_000);
    assert!(!t.finished());
    t.tick(100_000);
    assert!(t.finished());
}
