//! Input vocabulary: the keys and buttons the game reacts to, and the
//! bindings that map keys onto navigation axes.

use vstd::prelude::*;

verus! {

/// The physical keys the game distinguishes; everything else arrives
/// as `Other`.
#[derive(Debug, Clone, Copy, PartialEq, Eq, Structural)]
pub enum Key {
    Escape,
    F11,
    KeyW,
    KeyA,
    KeyS,
    KeyD,
    Space,
    ShiftLeft,
    Other,
}

/// The mouse buttons the game distinguishes.
#[derive(Debug, Clone, Copy, PartialEq, Eq, Structural)]
pub enum MouseButton {
    Left,
    Right,
    Middle,
    Back,
    Forward,
    Other,
}

/// One navigation axis: a pair of keys driving it positively and
/// negatively, or the platform's native axis input.
#[derive(Debug, Clone, Copy, PartialEq, Eq, Structural)]
pub enum Axis {
    Keys(Key, Key),
    Native(),
}

/// The key pairs bound to the three navigation axes.
#[derive(Debug, Clone, Copy, PartialEq, Eq, Structural)]
pub struct InputBindings {
    pub forward: Axis,
    pub right: Axis,
    pub up: Axis,
}

impl Default for InputBindings {
    /// The default layout: W/S walk, D/A strafe, space and left shift
    /// levitate.
    fn default() -> (r: Self)
        ensures
            r.forward == Axis::Keys(Key::KeyW, Key::KeyS),
            r.right == Axis::Keys(Key::KeyD, Key::KeyA),
            r.up == Axis::Keys(Key::Space, Key::ShiftLeft),
    {
        InputBindings {
            forward: Axis::Keys(Key::KeyW, Key::KeyS),
            right: Axis::Keys(Key::KeyD, Key::KeyA),
            up: Axis::Keys(Key::Space, Key::ShiftLeft),
        }
    }
}

} // verus!
