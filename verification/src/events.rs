//! Abstract input actions. An external collaborator polls the keyboard and
//! maps raw key events to at most one of these per frame; the simulation
//! consumes them and never polls input itself.

use vstd::prelude::*;

verus! {

/// One frame's worth of player input.
#[derive(Clone, Copy, Debug, PartialEq, Eq, Structural)]
pub enum GameAction {
    /// Request a jump.
    Jump,
    /// Start ducking (duck key pressed).
    Duck,
    /// Stop ducking (duck key released).
    StopDuck,
    /// End the session.
    Quit,
    /// No relevant key this frame.
    Idle,
}

/// A keyboard key as the simulation cares about it: the driver maps the
/// terminal's raw key events onto this and nothing else.
#[derive(Clone, Copy, Debug, PartialEq, Eq, Structural)]
pub enum KeyInput {
    /// A printable character key.
    Char(char),
    /// The up arrow.
    Up,
    /// The down arrow.
    Down,
    /// The escape key.
    Esc,
    /// Any other key.
    Other,
}

/// The action bound to a key press.
pub open spec fn spec_action_for_press(key: KeyInput, ctrl: bool) -> GameAction {
    match key {
        KeyInput::Char(' ') | KeyInput::Char('w') | KeyInput::Char('k') | KeyInput::Up
            => GameAction::Jump,
        KeyInput::Char('s') | KeyInput::Char('j') | KeyInput::Down => GameAction::Duck,
        KeyInput::Char('q') | KeyInput::Esc => GameAction::Quit,
        KeyInput::Char('c') => if ctrl {
            GameAction::Quit
        } else {
            GameAction::Idle
        },
        _ => GameAction::Idle,
    }
}

/// Map a pressed key to its action: space, `w`, `k` or the up arrow jump;
/// `s`, `j` or the down arrow duck; `q`, escape or control-`c` quit.
pub fn action_for_press(key: KeyInput, ctrl: bool) -> (action: GameAction)
    ensures
        action == spec_action_for_press(key, ctrl),
{
    match key {
        KeyInput::Char(' ') | KeyInput::Char('w') | KeyInput::Char('k') | KeyInput::Up
            => GameAction::Jump,
        KeyInput::Char('s') | KeyInput::Char('j') | KeyInput::Down => GameAction::Duck,
        KeyInput::Char('q') | KeyInput::Esc => GameAction::Quit,
        KeyInput::Char('c') => if ctrl {
            GameAction::Quit
        } else {
            GameAction::Idle
        },
        _ => GameAction::Idle,
    }
}

/// The action bound to a key release.
pub open spec fn spec_action_for_release(key: KeyInput) -> GameAction {
    match key {
        KeyInput::Char('s') | KeyInput::Char('j') | KeyInput::Down => GameAction::StopDuck,
        _ => GameAction::Idle,
    }
}

/// Map a released key to its action: releasing a duck key stands the
/// player back up; every other release is ignored.
pub fn action_for_release(key: KeyInput) -> (action: GameAction)
    ensures
        action == spec_action_for_release(key),
{
    match key {
        KeyInput::Char('s') | KeyInput::Char('j') | KeyInput::Down => GameAction::StopDuck,
        _ => GameAction::Idle,
    }
}

} // verus!
