//! Keyboard-driven camera movement: which keys are held, and what
//! displacement they ask for.
//!
//! The controller owns no camera. Each frame it is asked for a movement
//! intent — a signed step count along the viewing direction, across it,
//! and vertically — which the embedding scales by the speed and by the
//! normalized view vectors. The vector arithmetic itself happens outside
//! this model; what is pinned here is exactly which keys drive which axis,
//! and with which sign.

use vstd::prelude::*;

verus! {

/// The keys the renderer reacts to. Anything else arrives as `Other`.
#[derive(Clone, Copy, Debug, PartialEq, Eq, Structural)]
pub enum KeyCode {
    W,
    A,
    S,
    D,
    Space,
    LShift,
    Escape,
    Other,
}

/// Whether a key is one of the six movement keys the controller latches.
pub open spec fn is_movement_key(key: KeyCode) -> bool {
    key is W || key is A || key is S || key is D || key is Space || key is LShift
}

/// Signed step counts for one frame of camera movement, before scaling:
/// `forward` counts steps along the viewing direction, `right` across it,
/// `up` along the world's vertical. Each lies in `-1 ..= 1`.
#[derive(Clone, Copy, Debug, PartialEq, Eq, Structural)]
pub struct MoveIntent {
    pub forward: i8,
    pub right: i8,
    pub up: i8,
}

/// Latches for the six movement keys, and the per-frame speed in
/// thousandths of a unit.
#[derive(Clone, Copy, Debug, PartialEq, Eq, Structural)]
pub struct CameraController {
    pub speed: i64,
    pub forward_pressed: bool,
    pub backward_pressed: bool,
    pub left_pressed: bool,
    pub right_pressed: bool,
    pub up_pressed: bool,
    pub down_pressed: bool,
}

/// The latches `ctl` holds after seeing `key` with state `pressed`:
/// a movement key sets or clears its own latch and nothing else changes.
pub open spec fn latched(ctl: CameraController, key: KeyCode, pressed: bool) -> CameraController {
    match key {
        KeyCode::W => CameraController { forward_pressed: pressed, ..ctl },
        KeyCode::S => CameraController { backward_pressed: pressed, ..ctl },
        KeyCode::A => CameraController { left_pressed: pressed, ..ctl },
        KeyCode::D => CameraController { right_pressed: pressed, ..ctl },
        KeyCode::Space => CameraController { up_pressed: pressed, ..ctl },
        KeyCode::LShift => CameraController { down_pressed: pressed, ..ctl },
        _ => ctl,
    }
}

impl CameraController {
    /// A fresh controller: no key held, moving `speed` thousandths of a
    /// unit per frame once keys are held.
    pub fn new(speed: i64) -> (c: CameraController)
        requires
            speed >= 0,
        ensures
            c.speed == speed,
            !c.forward_pressed && !c.backward_pressed,
            !c.left_pressed && !c.right_pressed,
            !c.up_pressed && !c.down_pressed,
    {
        CameraController {
            speed,
            forward_pressed: false,
            backward_pressed: false,
            left_pressed: false,
            right_pressed: false,
            up_pressed: false,
            down_pressed: false,
        }
    }

    /// Latches a key event: press sets the key's flag, release clears it.
    /// Returns whether the key was one of the recognized movement keys.
    pub fn process_events(&mut self, key: KeyCode, pressed: bool) -> (handled: bool)
        ensures
            *final(self) == latched(*old(self), key, pressed),
            handled <==> is_movement_key(key),
    {
        match key {
            KeyCode::W => {
                self.forward_pressed = pressed;
                true
            },
            KeyCode::S => {
                self.backward_pressed = pressed;
                true
            },
            KeyCode::A => {
                self.left_pressed = pressed;
                true
            },
            KeyCode::D => {
                self.right_pressed = pressed;
                true
            },
            KeyCode::Space => {
                self.up_pressed = pressed;
                true
            },
            KeyCode::LShift => {
                self.down_pressed = pressed;
                true
            },
            _ => false,
        }
    }

    /// The displacement the held keys ask for this frame: each axis the
    /// difference of its two latches, so opposite keys cancel exactly.
    pub fn movement_intent(&self) -> (m: MoveIntent)
        ensures
            m.forward == (if self.forward_pressed { 1int } else { 0int })
                - (if self.backward_pressed { 1int } else { 0int }),
            m.right == (if self.right_pressed { 1int } else { 0int })
                - (if self.left_pressed { 1int } else { 0int }),
            m.up == (if self.up_pressed { 1int } else { 0int })
                - (if self.down_pressed { 1int } else { 0int }),
            -1 <= m.forward <= 1 && -1 <= m.right <= 1 && -1 <= m.up <= 1,
    {
        let f: i8 = if self.forward_pressed { 1 } else { 0 };
        let b: i8 = if self.backward_pressed { 1 } else { 0 };
        let r: i8 = if self.right_pressed { 1 } else { 0 };
        let l: i8 = if self.left_pressed { 1 } else { 0 };
        let u: i8 = if self.up_pressed { 1 } else { 0 };
        let d: i8 = if self.down_pressed { 1 } else { 0 };
        MoveIntent { forward: f - b, right: r - l, up: u - d }
    }
}

} // verus!
