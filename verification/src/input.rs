//! Window and keyboard events, reduced to the parts the viewer reads.
//!
//! The windowing toolkit reports far more than the viewer looks at. Each type
//! here keeps one variant for every case the viewer tells apart and folds the
//! rest into `Other`, so that an event of the toolkit maps onto exactly one
//! value.

use vstd::prelude::*;

verus! {

/// A physical key, named by its position on the keyboard.
#[derive(Clone, Copy, Debug, PartialEq, Eq, Structural)]
pub enum KeyCode {
    ArrowUp,
    ArrowDown,
    ArrowLeft,
    ArrowRight,
    KeyW,
    KeyA,
    KeyS,
    KeyD,
    /// Any key that no movement is bound to.
    Other,
}

/// The physical key of a keyboard event.
#[derive(Clone, Copy, Debug, PartialEq, Eq, Structural)]
pub enum PhysicalKey {
    Code(KeyCode),
    /// The toolkit could not tell which key it was.
    Unidentified,
}

/// The logical key of a keyboard event, after the keyboard layout was applied.
#[derive(Clone, Copy, Debug, PartialEq, Eq, Structural)]
pub enum Key {
    Escape,
    Other,
}

/// Whether a key went down or came up.
#[derive(Clone, Copy, Debug, PartialEq, Eq, Structural)]
pub enum ElementState {
    Pressed,
    Released,
}

/// One keyboard event.
#[derive(Clone, Copy, Debug, PartialEq, Eq, Structural)]
pub struct KeyEvent {
    pub physical_key: PhysicalKey,
    pub logical_key: Key,
    pub state: ElementState,
}

/// An event addressed to the viewer's window.
#[derive(Clone, Copy, Debug, PartialEq, Eq, Structural)]
pub enum WindowEvent {
    /// The window's drawable area now has this size in pixels.
    Resized { width: u32, height: u32 },
    CloseRequested,
    RedrawRequested,
    KeyboardInput(KeyEvent),
    Other,
}

/// An event of the event loop.
#[derive(Clone, Copy, Debug, PartialEq, Eq, Structural)]
pub enum Event {
    WindowEvent(WindowEvent),
    /// The loop has drained its queue and is about to sleep.
    AboutToWait,
    Other,
}

/// One of the four movement inputs of the camera.
#[derive(Clone, Copy, Debug, PartialEq, Eq, Structural)]
pub enum Direction {
    Up,
    Down,
    Left,
    Right,
}

/// The movement input a key is bound to: the arrow keys and W, A, S, D.
pub open spec fn direction_of(key: KeyCode) -> Option<Direction> {
    match key {
        KeyCode::ArrowUp | KeyCode::KeyW => Some(Direction::Up),
        KeyCode::ArrowLeft | KeyCode::KeyA => Some(Direction::Left),
        KeyCode::ArrowRight | KeyCode::KeyD => Some(Direction::Right),
        KeyCode::ArrowDown | KeyCode::KeyS => Some(Direction::Down),
        KeyCode::Other => None,
    }
}

/// What an event changes among the movement inputs: the input and whether it
/// is now held. `None` for every event that is not a keyboard event on a bound
/// physical key.
pub open spec fn key_change(event: WindowEvent) -> Option<(Direction, bool)> {
    match event {
        WindowEvent::KeyboardInput(key) => match key.physical_key {
            PhysicalKey::Code(code) => match direction_of(code) {
                Some(d) => Some((d, key.state is Pressed)),
                None => None,
            },
            PhysicalKey::Unidentified => None,
        },
        _ => None,
    }
}

/// Whether an event asks the viewer to quit: a request to close the window, or
/// Escape going down.
pub open spec fn asks_exit(event: WindowEvent) -> bool {
    match event {
        WindowEvent::CloseRequested => true,
        WindowEvent::KeyboardInput(key) => key.logical_key is Escape && key.state is Pressed,
        _ => false,
    }
}

impl KeyCode {
    /// The movement input this key is bound to, if any.
    pub fn direction(self) -> (bound: Option<Direction>)
        ensures
            bound == direction_of(self),
    {
        match self {
            KeyCode::ArrowUp | KeyCode::KeyW => Some(Direction::Up),
            KeyCode::ArrowLeft | KeyCode::KeyA => Some(Direction::Left),
            KeyCode::ArrowRight | KeyCode::KeyD => Some(Direction::Right),
            KeyCode::ArrowDown | KeyCode::KeyS => Some(Direction::Down),
            KeyCode::Other => None,
        }
    }
}

} // verus!
