//! What the keys and the pointer ask of the camera, before any arithmetic.
//!
//! The library decides directions and whether the pointer is captured; speed,
//! elapsed time and sensitivity are multiplied in by whoever owns the clock.

use vstd::prelude::*;
use crate::globals::Globals;

verus! {

/// Which of the keys that steer the camera are held down.
#[derive(Debug, Clone, Copy, PartialEq, Eq)]
pub struct Keys {
    pub w: bool,
    pub s: bool,
    pub a: bool,
    pub d: bool,
    pub q: bool,
    pub e: bool,
    pub up: bool,
    pub down: bool,
    pub left: bool,
    pub right: bool,
}

/// The direction along each axis in which the camera is asked to go: `-1`,
/// `0` or `1`. `x`, `y` and `z` are in the camera's own frame, before it is
/// turned by the yaw; `yaw` and `pitch` turn the camera itself.
#[derive(Debug, Clone, Copy, PartialEq, Eq)]
pub struct Steering {
    pub x: i8,
    pub y: i8,
    pub z: i8,
    pub yaw: i8,
    pub pitch: i8,
}

/// What two opposed keys ask for, the first taking precedence when both
/// are held: `1` for the first, `-1` for the second, `0` for neither.
pub open spec fn pull(first: bool, second: bool) -> int {
    if first {
        1
    } else if second {
        -1
    } else {
        0
    }
}

fn opposed(first: bool, second: bool) -> (direction: i8)
    ensures
        direction == pull(first, second),
{
    if first {
        1
    } else if second {
        -1
    } else {
        0
    }
}

/// Reads the steering off the keys: W and S go forwards, along negative z,
/// and backwards; A and D left and right; Q and E down and up; the arrow
/// keys pitch up and down and yaw left and right. Of two opposed keys held
/// together, the one named first wins.
///
/// The steering counts whole steps. Scaled by the time that has passed and
/// by the look sensitivity, yaw and pitch are added to the camera's
/// direction, which [`crate::models::Camera::turn`] then takes and holds.
pub fn handle_input(keys: &Keys) -> (steering: Steering)
    ensures
        steering.z == -pull(keys.w, keys.s),
        steering.x == -pull(keys.a, keys.d),
        steering.y == -pull(keys.q, keys.e),
        steering.pitch == pull(keys.up, keys.down),
        steering.yaw == pull(keys.left, keys.right),
{
    Steering {
        x: -opposed(keys.a, keys.d),
        y: -opposed(keys.q, keys.e),
        z: -opposed(keys.w, keys.s),
        yaw: opposed(keys.left, keys.right),
        pitch: opposed(keys.up, keys.down),
    }
}

/// What is to be done with the pointer in one frame.
#[derive(Debug, Clone, Copy, PartialEq, Eq)]
pub enum PointerAction {
    /// Recentre the pointer, keep it grabbed and hide it. Its offset from
    /// the centre counts as a look movement only if `read_delta`.
    Capture { read_delta: bool },
    /// Let the pointer go and show it.
    Release,
}

/// The state of pointer capture between frames.
#[derive(Debug, Clone, Copy, PartialEq, Eq)]
pub struct Pointer {
    /// Whether the next offset of the pointer is left over from before the
    /// capture and must not be read.
    pub reset_mouse: bool,
}

impl Pointer {
    /// The state at start-up: nothing is left over.
    pub fn new() -> (pointer: Pointer)
        ensures
            !pointer.reset_mouse,
    {
        Pointer { reset_mouse: false }
    }

    /// The capture key was pressed: flips whether the pointer is to be
    /// captured, and marks the next offset as left over.
    pub fn toggle(&mut self, globals: &mut Globals)
        ensures
            final(self).reset_mouse,
            *final(globals) == (Globals {
                should_grab_mouse: !old(globals).should_grab_mouse,
                ..*old(globals)
            }),
    {
        globals.should_grab_mouse = !globals.should_grab_mouse;
        self.reset_mouse = true;
    }

    /// Decides about the pointer for one frame. It is captured exactly when
    /// the window has the input focus and capture is wanted. The first frame
    /// of a capture does not read the pointer's offset; every later one
    /// does.
    pub fn step(&mut self, should_grab_mouse: bool, has_input_focus: bool) -> (action:
        PointerAction)
        ensures
            action == if has_input_focus && should_grab_mouse {
                PointerAction::Capture { read_delta: !old(self).reset_mouse }
            } else {
                PointerAction::Release
            },
            final(self).reset_mouse == !(has_input_focus && should_grab_mouse),
    {
        if has_input_focus && should_grab_mouse {
            let read_delta: bool = !self.reset_mouse;
            self.reset_mouse = false;
            PointerAction::Capture { read_delta }
        } else {
            self.reset_mouse = true;
            PointerAction::Release
        }
    }
}

/// The centre of a surface of the given size, where a captured pointer is
/// put back to.
pub fn pointer_center(size: (u32, u32)) -> (center: (i32, i32))
    ensures
        center.0 == size.0 / 2,
        center.1 == size.1 / 2,
{
    ((size.0 / 2) as i32, (size.1 / 2) as i32)
}

} // verus!
