//! The typed window-event stream the renderer consumes.
//!
//! The windowing collaborator owns the OS window and its event loop; it
//! hands the core these plain values.

use vstd::prelude::*;

verus! {

/// Keys the camera controller recognises, plus `Other` for every key it
/// does not.
#[derive(Clone, Copy, Debug, PartialEq, Eq, Structural)]
pub enum Key {
    W,
    A,
    S,
    D,
    Up,
    Down,
    Left,
    Right,
    Other,
}

/// One event delivered by the windowing collaborator.
#[derive(Clone, Copy, Debug, PartialEq, Eq, Structural)]
pub enum WindowEvent {
    Resized { width: u32, height: u32 },
    CursorMoved { x: u32, y: u32 },
    KeyInput { key: Key, pressed: bool },
    CloseRequested,
    RedrawRequested,
}

/// Whether a key drives camera movement.
pub open spec fn is_movement_key(k: Key) -> bool {
    match k {
        Key::Other => false,
        _ => true,
    }
}

} // verus!
