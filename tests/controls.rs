use bevy_bullet_hell::controls::{
    control_flying_sound, dodge_intent, fire_intent, get_fire, get_movement, menu_action,
    menu_actions, on_key_press, set_movement_actions, set_shooting_actions, Actions,
    AudioCommand, GameControl, GameState, KeyboardState, MouseButtons, PlaybackState,
};
use bevy_bullet_hell::geometry::Pos;

fn keys() -> KeyboardState {
    KeyboardState {
        key_w: false,
        key_a: false,
        key_s: false,
        key_d: false,
        arrow_up: false,
        arrow_down: false,
        arrow_left: false,
        arrow_right: false,
        space: false,
        escape_just_pressed: false,
        shift_just_pressed: false,
    }
}

const NO_BUTTONS: MouseButtons = MouseButtons { left: false, right: false };

#[test]
fn movement_controls_read_wasd_and_arrows() {
    let k = KeyboardState { key_w: true, arrow_left: true, ..keys() };
    assert!(GameControl::Up.pressed(&k, &NO_BUTTONS));
    assert!(GameControl::Left.pressed(&k, &NO_BUTTONS));
    assert!(!GameControl::Down.pressed(&k, &NO_BUTTONS));
    assert!(!GameControl::Fire.pressed(&k, &NO_BUTTONS));
    assert_eq!(get_movement(GameControl::Up, &k, &NO_BUTTONS), 1);
    assert_eq!(get_movement(GameControl::Right, &k, &NO_BUTTONS), 0);
}

#[test]
fn fire_controls_read_mouse_buttons() {
    let m = MouseButtons { left: false, right: true };
    assert!(!get_fire(GameControl::Fire, &keys(), &m));
    assert!(get_fire(GameControl::SecondFire, &keys(), &m));
    assert!(!get_fire(GameControl::Up, &keys(), &m));
    assert!(fire_intent(&KeyboardState { space: true, ..keys() }, &NO_BUTTONS));
    assert!(!fire_intent(&keys(), &m));
}

#[test]
fn diagonal_movement_is_normalized() {
    let mut a = Actions::default();
    set_movement_actions(&mut a, &KeyboardState { key_w: true, key_d: true, ..keys() }, &NO_BUTTONS);
    assert_eq!(a.player_movement, Some(Pos::new(707, 707)));
    set_movement_actions(&mut a, &KeyboardState { key_s: true, ..keys() }, &NO_BUTTONS);
    assert_eq!(a.player_movement, Some(Pos::new(0, -1000)));
}

#[test]
fn opposite_keys_cancel_out() {
    let mut a = Actions::default();
    a.player_movement = Some(Pos::new(1000, 0));
    set_movement_actions(&mut a, &KeyboardState { key_a: true, key_d: true, ..keys() }, &NO_BUTTONS);
    assert_eq!(a.player_movement, None);
}

#[test]
fn shooting_actions_follow_buttons() {
    let mut a = Actions::default();
    set_shooting_actions(&mut a, &keys(), &MouseButtons { left: true, right: false });
    assert!(a.player_is_shooting);
    assert!(!a.player_is_second_shooting);
}

#[test]
fn escape_toggles_menu() {
    assert_eq!(menu_actions(true, GameState::Menu), Some(GameState::Playing));
    assert_eq!(menu_actions(true, GameState::Playing), Some(GameState::Menu));
    assert_eq!(menu_actions(false, GameState::Playing), None);
    assert_eq!(on_key_press(true), Some(GameState::Menu));
    assert_eq!(on_key_press(false), None);
    assert_eq!(menu_action(true), Some(GameState::Playing));
    assert_eq!(GameState::default(), GameState::Loading);
}

#[test]
fn shift_with_wasd_asks_for_a_dodge() {
    let k = KeyboardState { shift_just_pressed: true, key_a: true, key_s: true, ..keys() };
    assert_eq!(dodge_intent(&k), Some(Pos::new(-707, -707)));
    let arrows_only = KeyboardState { shift_just_pressed: true, arrow_left: true, ..keys() };
    assert_eq!(dodge_intent(&arrows_only), None);
    assert_eq!(dodge_intent(&KeyboardState { key_w: true, ..keys() }), None);
}

#[test]
fn movement_sound_follows_movement() {
    let moving = Actions { player_movement: Some(Pos::new(1000, 0)), ..Actions::default() };
    let still = Actions::default();
    assert_eq!(control_flying_sound(PlaybackState::Paused, &moving), Some(AudioCommand::Resume));
    assert_eq!(control_flying_sound(PlaybackState::Paused, &still), None);
    assert_eq!(control_flying_sound(PlaybackState::Playing, &still), Some(AudioCommand::Pause));
    assert_eq!(control_flying_sound(PlaybackState::Playing, &moving), None);
    assert_eq!(control_flying_sound(PlaybackState::Stopped, &moving), None);
}
