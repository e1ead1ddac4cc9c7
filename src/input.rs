//! State that input handling hands to the application

use vstd::prelude::*;

verus! {

/// What the application is asked to do in a frame
#[derive(Clone, Copy, Debug, PartialEq, Eq, Hash, Structural)]
pub struct Actions {
    /// Exit the application
    pub exit: bool,
    /// Toggle the shaded display of the model
    pub toggle_model: bool,
    /// Toggle the model's wireframe
    pub toggle_mesh: bool,
    /// Toggle debug information
    pub toggle_debug: bool,
}

impl Actions {
    /// No action at all
    pub open spec fn spec_none() -> Actions {
        Actions { exit: false, toggle_model: false, toggle_mesh: false, toggle_debug: false }
    }

    /// Create an `Actions` that asks for nothing
    pub fn new() -> (r: Actions)
        ensures
            r == Actions::spec_none(),
    {
        Actions { exit: false, toggle_model: false, toggle_mesh: false, toggle_debug: false }
    }
}

impl Default for Actions {
    fn default() -> (r: Actions)
        ensures
            r == Actions::spec_none(),
    {
        Actions::new()
    }
}

/// The size of the screen, in pixels
#[derive(Clone, Copy, Debug, PartialEq, Eq, Hash, Structural)]
pub struct ScreenSize {
    pub width: u32,
    pub height: u32,
}

/// A key, or a mouse button
#[derive(Clone, Copy, Debug, PartialEq, Eq, Hash, Structural)]
pub enum Key {
    Escape,
    Key1,
    Key2,
    Key3,
    MouseLeft,
    MouseRight,
}

/// Whether a key went down or up
#[derive(Clone, Copy, Debug, PartialEq, Eq, Hash, Structural)]
pub enum KeyState {
    Pressed,
    Released,
}

/// What a key asks of the camera controls
#[derive(Clone, Copy, Debug, PartialEq, Eq, Hash, Structural)]
pub enum CameraCommand {
    Nothing,
    /// Start rotating about the point under the cursor
    StartRotation,
    StopRotation,
    /// Start moving with the point under the cursor
    StartMovement,
    StopMovement,
}

/// The camera command that a key asks for
pub open spec fn camera_command(key: Key, state: KeyState) -> CameraCommand {
    match (key, state) {
        (Key::MouseLeft, KeyState::Pressed) => CameraCommand::StartRotation,
        (Key::MouseLeft, KeyState::Released) => CameraCommand::StopRotation,
        (Key::MouseRight, KeyState::Pressed) => CameraCommand::StartMovement,
        (Key::MouseRight, KeyState::Released) => CameraCommand::StopMovement,
        _ => CameraCommand::Nothing,
    }
}

/// The actions after a key: pressing escape asks to exit, and pressing 1, 2
/// or 3 asks to toggle the model, the mesh or the debug information
pub open spec fn actions_after_key(actions: Actions, key: Key, state: KeyState) -> Actions {
    match (key, state) {
        (Key::Escape, KeyState::Pressed) => Actions { exit: true, ..actions },
        (Key::Key1, KeyState::Pressed) => Actions { toggle_model: true, ..actions },
        (Key::Key2, KeyState::Pressed) => Actions { toggle_mesh: true, ..actions },
        (Key::Key3, KeyState::Pressed) => Actions { toggle_debug: true, ..actions },
        _ => actions,
    }
}

/// Handle a key: record the action it asks for, and return what it asks of
/// the camera controls
pub fn handle_key(actions: &mut Actions, key: Key, state: KeyState) -> (r: CameraCommand)
    ensures
        *final(actions) == actions_after_key(*old(actions), key, state),
        r == camera_command(key, state),
{
    match (key, state) {
        (Key::Escape, KeyState::Pressed) => {
            actions.exit = true;
            CameraCommand::Nothing
        },
        (Key::Key1, KeyState::Pressed) => {
            actions.toggle_model = true;
            CameraCommand::Nothing
        },
        (Key::Key2, KeyState::Pressed) => {
            actions.toggle_mesh = true;
            CameraCommand::Nothing
        },
        (Key::Key3, KeyState::Pressed) => {
            actions.toggle_debug = true;
            CameraCommand::Nothing
        },
        (Key::MouseLeft, KeyState::Pressed) => CameraCommand::StartRotation,
        (Key::MouseLeft, KeyState::Released) => CameraCommand::StopRotation,
        (Key::MouseRight, KeyState::Pressed) => CameraCommand::StartMovement,
        (Key::MouseRight, KeyState::Released) => CameraCommand::StopMovement,
        _ => CameraCommand::Nothing,
    }
}

} // verus!
