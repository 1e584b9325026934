//! Player intent from the input devices, and the high-level game state.
use vstd::prelude::*;

use crate::geometry::{direction_toward, unit_toward, Pos};

verus! {

/// What the keyboard holds down this frame, and the keys that went down in
/// it.
#[derive(Clone, Copy, Debug, PartialEq, Eq, Structural)]
pub struct KeyboardState {
    pub key_w: bool,
    pub key_a: bool,
    pub key_s: bool,
    pub key_d: bool,
    pub arrow_up: bool,
    pub arrow_down: bool,
    pub arrow_left: bool,
    pub arrow_right: bool,
    pub space: bool,
    pub escape_just_pressed: bool,
    pub shift_just_pressed: bool,
}

/// Which mouse buttons are held down this frame.
#[derive(Clone, Copy, Debug, PartialEq, Eq, Structural)]
pub struct MouseButtons {
    pub left: bool,
    pub right: bool,
}

/// The pointer: its position in world coordinates and the size of the area
/// it moves in.
#[derive(Clone, Copy, Debug, PartialEq, Eq, Structural)]
pub struct Mouse {
    pub position: Pos,
    pub area: Pos,
}

#[derive(Clone, Copy, Debug, PartialEq, Eq, Structural)]
pub enum GameControl {
    Up,
    Down,
    Left,
    Right,
    Fire,
    SecondFire,
    MenuOpen,
}

impl GameControl {
    /// Whether a movement control is held: WASD or the arrow keys. The other
    /// controls are never held in this sense.
    pub open spec fn is_pressed(self, k: KeyboardState) -> bool {
        match self {
            GameControl::Up => k.key_w || k.arrow_up,
            GameControl::Down => k.key_s || k.arrow_down,
            GameControl::Left => k.key_a || k.arrow_left,
            GameControl::Right => k.key_d || k.arrow_right,
            _ => false,
        }
    }

    pub fn pressed(&self, keyboard_input: &KeyboardState, _mouse_input: &MouseButtons) -> (r: bool)
        ensures
            r == self.is_pressed(*keyboard_input),
    {
        match self {
            GameControl::Up => keyboard_input.key_w || keyboard_input.arrow_up,
            GameControl::Down => keyboard_input.key_s || keyboard_input.arrow_down,
            GameControl::Left => keyboard_input.key_a || keyboard_input.arrow_left,
            GameControl::Right => keyboard_input.key_d || keyboard_input.arrow_right,
            _ => false,
        }
    }
}

/// 1 when the control is held, else 0.
pub fn get_movement(control: GameControl, input: &KeyboardState, minput: &MouseButtons) -> (r: i32)
    ensures
        r == if control.is_pressed(*input) { 1i32 } else { 0i32 },
{
    if control.pressed(input, minput) {
        1
    } else {
        0
    }
}

pub open spec fn fire_pressed(control: GameControl, minput: MouseButtons) -> bool {
    match control {
        GameControl::Fire => minput.left,
        GameControl::SecondFire => minput.right,
        _ => false,
    }
}

/// The primary fire is the left mouse button, the secondary the right one.
pub fn get_fire(control: GameControl, _input: &KeyboardState, minput: &MouseButtons) -> (r: bool)
    ensures
        r == fire_pressed(control, *minput),
{
    match control {
        GameControl::Fire => minput.left,
        GameControl::SecondFire => minput.right,
        _ => false,
    }
}

/// What the player asks for this frame.
#[derive(Clone, Copy, Debug, PartialEq, Eq, Structural)]
pub struct Actions {
    /// A direction of length about `UNIT`, or `None` when not moving.
    pub player_movement: Option<Pos>,
    pub player_is_shooting: bool,
    pub player_is_second_shooting: bool,
}

impl Default for Actions {
    fn default() -> (r: Actions)
        ensures
            r == (Actions {
                player_movement: None,
                player_is_shooting: false,
                player_is_second_shooting: false,
            }),
    {
        Actions { player_movement: None, player_is_shooting: false, player_is_second_shooting: false }
    }
}

pub open spec fn axis(positive: bool, negative: bool) -> int {
    (if positive { 1int } else { 0int }) - (if negative { 1int } else { 0int })
}

/// The movement that the held keys ask for: right minus left and up minus
/// down, normalized; `None` when they cancel out or none is held.
pub open spec fn movement_of(k: KeyboardState) -> Option<Pos> {
    let v = Pos {
        x: axis(GameControl::Right.is_pressed(k), GameControl::Left.is_pressed(k)) as i32,
        y: axis(GameControl::Up.is_pressed(k), GameControl::Down.is_pressed(k)) as i32,
    };
    if v.x == 0 && v.y == 0 {
        None
    } else {
        Some(unit_toward(Pos { x: 0, y: 0 }, v))
    }
}

pub fn set_movement_actions(
    actions: &mut Actions,
    keyboard_input: &KeyboardState,
    mouse_input: &MouseButtons,
)
    ensures
        *final(actions) == (Actions { player_movement: movement_of(*keyboard_input), ..*old(actions) }),
{
    let player_movement = Pos {
        x: get_movement(GameControl::Right, keyboard_input, mouse_input) - get_movement(
            GameControl::Left,
            keyboard_input,
            mouse_input,
        ),
        y: get_movement(GameControl::Up, keyboard_input, mouse_input) - get_movement(
            GameControl::Down,
            keyboard_input,
            mouse_input,
        ),
    };
    if player_movement.x != 0 || player_movement.y != 0 {
        actions.player_movement = Some(direction_toward(Pos { x: 0, y: 0 }, player_movement));
    } else {
        actions.player_movement = None;
    }
}

pub fn set_shooting_actions(
    actions: &mut Actions,
    keyboard_input: &KeyboardState,
    mouse_input: &MouseButtons,
)
    ensures
        *final(actions) == (Actions {
            player_is_shooting: mouse_input.left,
            player_is_second_shooting: mouse_input.right,
            ..*old(actions)
        }),
{
    actions.player_is_shooting = get_fire(GameControl::Fire, keyboard_input, mouse_input);
    actions.player_is_second_shooting = get_fire(GameControl::SecondFire, keyboard_input, mouse_input);
}

/// Whether the player wants to fire: the space bar or the left mouse button.
pub fn fire_intent(keyboard_input: &KeyboardState, mouse_input: &MouseButtons) -> (r: bool)
    ensures
        r == (keyboard_input.space || mouse_input.left),
{
    keyboard_input.space || mouse_input.left
}

/// The dodge the keys ask for: when shift went down this frame, the
/// direction that W, A, S and D hold (right minus left, up minus down),
/// normalized; `None` when shift did not go down or the keys cancel out.
pub open spec fn dodge_of(k: KeyboardState) -> Option<Pos> {
    let v = Pos {
        x: axis(k.key_d, k.key_a) as i32,
        y: axis(k.key_w, k.key_s) as i32,
    };
    if !k.shift_just_pressed || (v.x == 0 && v.y == 0) {
        None
    } else {
        Some(unit_toward(Pos { x: 0, y: 0 }, v))
    }
}

pub fn dodge_intent(keyboard_input: &KeyboardState) -> (r: Option<Pos>)
    ensures
        r == dodge_of(*keyboard_input),
{
    if !keyboard_input.shift_just_pressed {
        return None;
    }
    let mut v = Pos { x: 0, y: 0 };
    if keyboard_input.key_w {
        v.y = v.y + 1;
    }
    if keyboard_input.key_s {
        v.y = v.y - 1;
    }
    if keyboard_input.key_a {
        v.x = v.x - 1;
    }
    if keyboard_input.key_d {
        v.x = v.x + 1;
    }
    if v.x == 0 && v.y == 0 {
        None
    } else {
        Some(direction_toward(Pos { x: 0, y: 0 }, v))
    }
}

/// Where the movement sound stands.
#[derive(Clone, Copy, Debug, PartialEq, Eq, Structural)]
pub enum PlaybackState {
    Paused,
    Playing,
    Stopped,
}

#[derive(Clone, Copy, Debug, PartialEq, Eq, Structural)]
pub enum AudioCommand {
    Resume,
    Pause,
}

/// The movement sound plays while the player moves: a paused sound resumes
/// when a movement is asked for, a playing one pauses when none is; any
/// other case asks for nothing.
pub fn control_flying_sound(state: PlaybackState, actions: &Actions) -> (r: Option<AudioCommand>)
    ensures
        r == (match state {
            PlaybackState::Paused => if actions.player_movement is Some {
                Some(AudioCommand::Resume)
            } else {
                None
            },
            PlaybackState::Playing => if actions.player_movement is None {
                Some(AudioCommand::Pause)
            } else {
                None
            },
            PlaybackState::Stopped => None,
        }),
{
    match state {
        PlaybackState::Paused => {
            if actions.player_movement.is_some() {
                Some(AudioCommand::Resume)
            } else {
                None
            }
        },
        PlaybackState::Playing => {
            if actions.player_movement.is_none() {
                Some(AudioCommand::Pause)
            } else {
                None
            }
        },
        PlaybackState::Stopped => None,
    }
}

#[derive(Clone, Copy, Debug, PartialEq, Eq, Structural)]
pub enum GameState {
    Loading,
    Playing,
    Upgrade,
    Gameover,
    Menu,
}

impl Default for GameState {
    fn default() -> (r: GameState)
        ensures
            r == GameState::Loading,
    {
        GameState::Loading
    }
}

/// Escape toggles between the menu and the game: from the menu it asks for
/// `Playing`, from any other state for `Menu`. `None` asks for no change.
pub fn menu_actions(escape_just_pressed: bool, current: GameState) -> (r: Option<GameState>)
    ensures
        !escape_just_pressed ==> r is None,
        escape_just_pressed && current == GameState::Menu ==> r == Some(GameState::Playing),
        escape_just_pressed && current != GameState::Menu ==> r == Some(GameState::Menu),
{
    if escape_just_pressed {
        match current {
            GameState::Menu => Some(GameState::Playing),
            _ => Some(GameState::Menu),
        }
    } else {
        None
    }
}

/// On the game-over screen, space returns to the menu.
pub fn on_key_press(space_pressed: bool) -> (r: Option<GameState>)
    ensures
        r == if space_pressed { Some(GameState::Menu) } else { None::<GameState> },
{
    if space_pressed {
        Some(GameState::Menu)
    } else {
        None
    }
}

/// In the menu, the play button starts the game.
pub fn menu_action(play_pressed: bool) -> (r: Option<GameState>)
    ensures
        r == if play_pressed { Some(GameState::Playing) } else { None::<GameState> },
{
    if play_pressed {
        Some(GameState::Playing)
    } else {
        None
    }
}

} // verus!
