//! Camera state, its uniform, and the input-driven controller.
//!
//! The controller is a state machine over four held-key flags; each
//! recognised key event sets or clears one flag (continuous hold
//! semantics).  The floating-point step along the eye→target direction is
//! the caller's job; the controller decides the direction of travel, and
//! the uniform carries the resulting view-projection matrix as bit
//! patterns for a byte-exact upload.

use crate::events::{is_movement_key, Key, WindowEvent};
use crate::mat::{identity4, identity4_words, mat4_bytes};
use crate::wire::words_le;
use vstd::prelude::*;

verus! {

/// Camera state.  Scalar fields hold IEEE-754 single-precision bit
/// patterns; the aspect ratio is carried exactly as the surface's width
/// and height.
#[derive(Clone, Copy, Debug, PartialEq, Eq)]
pub struct Camera {
    pub eye: [u32; 3],
    pub target: [u32; 3],
    pub up: [u32; 3],
    pub width: u32,
    pub height: u32,
    pub fovy: u32,
    pub znear: u32,
    pub zfar: u32,
}

/// The camera uniform: the sixteen words of the view-projection matrix,
/// uploaded to the GPU every frame.
#[derive(Clone, Copy, Debug, PartialEq, Eq)]
pub struct CameraUniform {
    pub view_proj: [u32; 16],
}

impl CameraUniform {
    /// A fresh uniform holds the identity matrix.
    pub fn new() -> (u: CameraUniform)
        ensures
            u.view_proj@ == identity4_words(),
    {
        CameraUniform { view_proj: identity4() }
    }

    /// Replaces the view-projection matrix.
    pub fn update_view_proj(&mut self, words: [u32; 16])
        ensures
            final(self).view_proj == words,
    {
        self.view_proj = words;
    }

    /// The 64 bytes uploaded to the camera uniform buffer.
    pub fn bytes(&self) -> (out: Vec<u8>)
        ensures
            out@ == words_le(self.view_proj@),
    {
        mat4_bytes(&self.view_proj)
    }
}

/// The per-tick movement decision: `advance` is +1 toward the target, -1
/// away from it; `strafe` is +1 to the right, -1 to the left.  Each step
/// has the length of the controller's speed constant.
#[derive(Clone, Copy, Debug, PartialEq, Eq, Structural)]
pub struct Movement {
    pub advance: i32,
    pub strafe: i32,
}

/// Camera controller: accumulated directional input.
#[derive(Clone, Copy, Debug, PartialEq, Eq, Structural)]
pub struct CameraController {
    /// IEEE-754 bit pattern of the fixed per-tick speed.
    pub speed: u32,
    pub forward: bool,
    pub backward: bool,
    pub left: bool,
    pub right: bool,
}

/// The controller state after one event: a recognised movement key sets
/// or clears exactly one flag; every other event leaves the state alone.
pub open spec fn controller_after(c: CameraController, e: WindowEvent) -> CameraController {
    match e {
        WindowEvent::KeyInput { key, pressed } => match key {
            Key::W | Key::Up => CameraController { forward: pressed, ..c },
            Key::A | Key::Left => CameraController { left: pressed, ..c },
            Key::S | Key::Down => CameraController { backward: pressed, ..c },
            Key::D | Key::Right => CameraController { right: pressed, ..c },
            Key::Other => c,
        },
        _ => c,
    }
}

/// Whether the controller consumes an event: true exactly for recognised
/// movement keys.
pub open spec fn event_consumed(e: WindowEvent) -> bool {
    match e {
        WindowEvent::KeyInput { key, pressed: _ } => is_movement_key(key),
        _ => false,
    }
}

/// The movement a controller state decides on.
pub open spec fn movement_of(c: CameraController) -> Movement {
    Movement {
        advance: ((if c.forward {
            1int
        } else {
            0int
        }) - (if c.backward {
            1int
        } else {
            0int
        })) as i32,
        strafe: ((if c.right {
            1int
        } else {
            0int
        }) - (if c.left {
            1int
        } else {
            0int
        })) as i32,
    }
}

impl CameraController {
    /// A fresh controller with no keys held.
    pub fn new(speed: u32) -> (c: CameraController)
        ensures
            c == (CameraController {
                speed,
                forward: false,
                backward: false,
                left: false,
                right: false,
            }),
    {
        CameraController { speed, forward: false, backward: false, left: false, right: false }
    }

    /// Feeds one window event to the controller.  Returns whether the
    /// event was consumed (true only for recognised movement keys).
    pub fn process_events(&mut self, event: &WindowEvent) -> (consumed: bool)
        ensures
            *final(self) == controller_after(*old(self), *event),
            consumed == event_consumed(*event),
    {
        match *event {
            WindowEvent::KeyInput { key, pressed } => match key {
                Key::W | Key::Up => {
                    self.forward = pressed;
                    true
                },
                Key::A | Key::Left => {
                    self.left = pressed;
                    true
                },
                Key::S | Key::Down => {
                    self.backward = pressed;
                    true
                },
                Key::D | Key::Right => {
                    self.right = pressed;
                    true
                },
                Key::Other => false,
            },
            _ => false,
        }
    }

    /// The movement decided by the currently held keys.
    pub fn movement(&self) -> (m: Movement)
        ensures
            m == movement_of(*self),
    {
        let advance: i32 = (if self.forward {
            1
        } else {
            0
        }) - (if self.backward {
            1
        } else {
            0
        });
        let strafe: i32 = (if self.right {
            1
        } else {
            0
        }) - (if self.left {
            1
        } else {
            0
        });
        Movement { advance, strafe }
    }
}

/// With only `forward` held, the tick's decision is exactly one speed
/// step toward the target and no strafe.
pub proof fn lemma_forward_only_advances(c: CameraController)
    requires
        c.forward,
        !c.backward,
        !c.left,
        !c.right,
    ensures
        movement_of(c) == (Movement { advance: 1, strafe: 0 }),
{
}

} // verus!
