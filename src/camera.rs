//! Keyboard control of the 3D camera: which movements the held keys ask for, and the
//! orbit steps around the pivot.
use vstd::prelude::*;

verus! {

/// The keys that move the camera.
#[derive(Debug, Clone, Copy, PartialEq, Eq, Structural)]
pub enum CameraKey {
    W,
    Up,
    S,
    Down,
    A,
    Left,
    D,
    Right,
    Space,
    K,
    H,
    L,
    Other,
}

/// An orbit step of an eighth of a turn around the pivot point.
#[derive(Debug, Clone, Copy, PartialEq, Eq, Structural)]
pub enum OrbitStep {
    /// By a positive angle.
    Positive,
    /// By a negative angle.
    Negative,
}

/// Which continuous movements the held keys ask for.
#[derive(Debug, Clone, Copy, PartialEq, Eq, Structural)]
pub struct MovementIntent {
    pub forward: bool,
    pub backward: bool,
    pub left: bool,
    pub right: bool,
    pub up: bool,
    pub down: bool,
}

impl MovementIntent {
    pub fn new() -> (r: MovementIntent)
        ensures
            !r.forward && !r.backward && !r.left && !r.right && !r.up && !r.down,
    {
        MovementIntent {
            forward: false,
            backward: false,
            left: false,
            right: false,
            up: false,
            down: false,
        }
    }

    /// Record a key going down (`pressed`) or up. Returns whether the key is one of the
    /// camera's, and the orbit step that a press of H or L asks for.
    pub fn process_keyboard(&mut self, key: CameraKey, pressed: bool) -> (r: (bool, Option<OrbitStep>))
        ensures
            (key == CameraKey::W || key == CameraKey::Up) ==> *final(self) == (MovementIntent {
                forward: pressed,
                ..*old(self)
            }) && r == (true, None::<OrbitStep>),
            (key == CameraKey::S || key == CameraKey::Down) ==> *final(self) == (MovementIntent {
                backward: pressed,
                ..*old(self)
            }) && r == (true, None::<OrbitStep>),
            (key == CameraKey::A || key == CameraKey::Left) ==> *final(self) == (MovementIntent {
                left: pressed,
                ..*old(self)
            }) && r == (true, None::<OrbitStep>),
            (key == CameraKey::D || key == CameraKey::Right) ==> *final(self) == (MovementIntent {
                right: pressed,
                ..*old(self)
            }) && r == (true, None::<OrbitStep>),
            key == CameraKey::Space ==> *final(self) == (MovementIntent { up: pressed, ..*old(self) })
                && r == (true, None::<OrbitStep>),
            key == CameraKey::K ==> *final(self) == (MovementIntent { down: pressed, ..*old(self) })
                && r == (true, None::<OrbitStep>),
            key == CameraKey::H ==> *final(self) == *old(self) && r == (
                pressed,
                if pressed {
                    Some(OrbitStep::Positive)
                } else {
                    None
                },
            ),
            key == CameraKey::L ==> *final(self) == *old(self) && r == (
                pressed,
                if pressed {
                    Some(OrbitStep::Negative)
                } else {
                    None
                },
            ),
            key == CameraKey::Other ==> *final(self) == *old(self) && r == (false, None::<OrbitStep>),
    {
        match key {
            CameraKey::W | CameraKey::Up => {
                self.forward = pressed;
                (true, None)
            },
            CameraKey::S | CameraKey::Down => {
                self.backward = pressed;
                (true, None)
            },
            CameraKey::A | CameraKey::Left => {
                self.left = pressed;
                (true, None)
            },
            CameraKey::D | CameraKey::Right => {
                self.right = pressed;
                (true, None)
            },
            CameraKey::Space => {
                self.up = pressed;
                (true, None)
            },
            CameraKey::K => {
                self.down = pressed;
                (true, None)
            },
            CameraKey::H => if pressed {
                (true, Some(OrbitStep::Positive))
            } else {
                (false, None)
            },
            CameraKey::L => if pressed {
                (true, Some(OrbitStep::Negative))
            } else {
                (false, None)
            },
            CameraKey::Other => (false, None),
        }
    }
}

} // verus!
