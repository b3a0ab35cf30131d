use vstd::prelude::*;

verus! {

/// What the host's tick asks of the loop.
#[derive(Clone, Copy, Debug, PartialEq, Eq, Structural)]
pub enum TickResult {
    Continue,
    Stop,
}

/// The mouse as the host sees it, in grid cells.
#[derive(Clone, Copy, Debug, PartialEq, Eq, Structural)]
pub struct MouseState {
    pub on_screen: bool,
    pub left_pressed: bool,
    pub right_pressed: bool,
    pub x: i32,
    pub y: i32,
}

/// The keys that the loop itself acts on.
#[derive(Clone, Copy, Debug, PartialEq, Eq, Structural)]
pub enum SystemKey {
    Escape,
    Return,
    Other,
}

/// What the loop does for a key event before the host sees it.
#[derive(Clone, Copy, Debug, PartialEq, Eq, Structural)]
pub enum KeyCommand {
    Nothing,
    Exit,
    ToggleFullscreen,
}

/// The loop's own response to a key event: a pressed Escape ends the loop, a
/// pressed Return with Alt alone held toggles full screen.
pub fn key_command(pressed: bool, alt: bool, ctrl: bool, shift: bool, key: SystemKey) -> (r: KeyCommand)
    ensures
        r == (if pressed && key == SystemKey::Escape {
            KeyCommand::Exit
        } else if pressed && key == SystemKey::Return && alt && !ctrl && !shift {
            KeyCommand::ToggleFullscreen
        } else {
            KeyCommand::Nothing
        }),
{
    if !pressed {
        return KeyCommand::Nothing;
    }
    match key {
        SystemKey::Escape => KeyCommand::Exit,
        SystemKey::Return => {
            if alt && !ctrl && !shift {
                KeyCommand::ToggleFullscreen
            } else {
                KeyCommand::Nothing
            }
        },
        SystemKey::Other => KeyCommand::Nothing,
    }
}

} // verus!
