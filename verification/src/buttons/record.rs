//! A plain description of one input event to hand to the operating system.

use vstd::prelude::*;

verus! {

/// What a synthesized mouse event does.
#[derive(Debug, Clone, Copy, PartialEq, Eq, PartialOrd, Ord, Hash, Structural)]
pub enum MouseEventKind {
    LeftDown,
    LeftUp,
    MiddleDown,
    MiddleUp,
    RightDown,
    RightUp,
    XDown,
    XUp,
    Wheel,
    HWheel,
}

/// The extra data word that accompanies a synthesized mouse event.
#[derive(Debug, Clone, Copy, PartialEq, Eq, PartialOrd, Ord, Hash, Structural)]
pub enum MouseData {
    /// No extra data.
    Zero,
    /// The first extended mouse button.
    XButton1,
    /// The second extended mouse button.
    XButton2,
    /// One wheel click forward (or to the right).
    WheelClickPlus,
    /// One wheel click backward (or to the left).
    WheelClickMinus,
}

/// One input event, as the operating system's input-injection call takes it.
#[derive(Debug, Clone, Copy, PartialEq, Eq, PartialOrd, Ord, Hash, Structural)]
pub enum InputRecord {
    /// A key press (`key_up == false`) or release of the key with virtual-key code `vk`.
    Keyboard { vk: u8, key_up: bool },
    /// A mouse button or wheel event.
    Mouse { event: MouseEventKind, data: MouseData },
}

} // verus!
