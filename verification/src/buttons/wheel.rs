//! The scroll wheel, whose "buttons" can only be tapped.

use crate::buttons::record::{InputRecord, MouseData, MouseEventKind};
use vstd::prelude::*;

verus! {

/// One direction of the scroll wheel.
#[derive(Debug, Clone, Copy, PartialEq, Eq, PartialOrd, Ord, Hash, Structural)]
pub enum MouseWheelButton {
    Up,
    Down,
    HorzRight,
    HorzLeft,
}

/// The number of `MouseWheelButton` variants.
pub const MOUSE_WHEEL_BUTTON_COUNT: usize = 4;

impl MouseWheelButton {
    /// The name shown to the user for this direction.
    pub open spec fn spec_name(self) -> Seq<char> {
        match self {
            MouseWheelButton::Up => "Scroll Up"@,
            MouseWheelButton::Down => "Scroll Down"@,
            MouseWheelButton::HorzRight => "Scroll Right"@,
            MouseWheelButton::HorzLeft => "Scroll Left"@,
        }
    }

    /// The position of this direction in declaration order.
    pub open spec fn spec_index(self) -> usize {
        match self {
            MouseWheelButton::Up => 0,
            MouseWheelButton::Down => 1,
            MouseWheelButton::HorzRight => 2,
            MouseWheelButton::HorzLeft => 3,
        }
    }

    /// The direction at position `i` in declaration order.
    pub open spec fn spec_from_index(i: usize) -> Option<MouseWheelButton> {
        match i {
            0 => Some(MouseWheelButton::Up),
            1 => Some(MouseWheelButton::Down),
            2 => Some(MouseWheelButton::HorzRight),
            3 => Some(MouseWheelButton::HorzLeft),
            _ => None,
        }
    }

    /// The scroll event for this direction: vertical or horizontal, one click either way.
    pub open spec fn spec_input(self) -> InputRecord {
        match self {
            MouseWheelButton::Up => InputRecord::Mouse {
                event: MouseEventKind::Wheel,
                data: MouseData::WheelClickPlus,
            },
            MouseWheelButton::Down => InputRecord::Mouse {
                event: MouseEventKind::Wheel,
                data: MouseData::WheelClickMinus,
            },
            MouseWheelButton::HorzRight => InputRecord::Mouse {
                event: MouseEventKind::HWheel,
                data: MouseData::WheelClickPlus,
            },
            MouseWheelButton::HorzLeft => InputRecord::Mouse {
                event: MouseEventKind::HWheel,
                data: MouseData::WheelClickMinus,
            },
        }
    }

    /// The name shown to the user for this direction.
    pub fn name(self) -> (name: &'static str)
        ensures
            name@ == self.spec_name(),
    {
        match self {
            MouseWheelButton::Up => "Scroll Up",
            MouseWheelButton::Down => "Scroll Down",
            MouseWheelButton::HorzRight => "Scroll Right",
            MouseWheelButton::HorzLeft => "Scroll Left",
        }
    }

    /// The position of this direction in declaration order.
    pub fn index(self) -> (i: usize)
        ensures
            i == self.spec_index(),
            i < MOUSE_WHEEL_BUTTON_COUNT,
    {
        match self {
            MouseWheelButton::Up => 0,
            MouseWheelButton::Down => 1,
            MouseWheelButton::HorzRight => 2,
            MouseWheelButton::HorzLeft => 3,
        }
    }

    /// The direction at position `i` in declaration order.
    pub fn from_index(i: usize) -> (button: Option<MouseWheelButton>)
        ensures
            button == MouseWheelButton::spec_from_index(i),
    {
        match i {
            0 => Some(MouseWheelButton::Up),
            1 => Some(MouseWheelButton::Down),
            2 => Some(MouseWheelButton::HorzRight),
            3 => Some(MouseWheelButton::HorzLeft),
            _ => None,
        }
    }

    /// The scroll event for this direction.
    pub fn to_input(self) -> (input: InputRecord)
        ensures
            input == self.spec_input(),
    {
        let (event, data): (MouseEventKind, MouseData) = match self {
            MouseWheelButton::Up => (MouseEventKind::Wheel, MouseData::WheelClickPlus),
            MouseWheelButton::Down => (MouseEventKind::Wheel, MouseData::WheelClickMinus),
            MouseWheelButton::HorzRight => (MouseEventKind::HWheel, MouseData::WheelClickPlus),
            MouseWheelButton::HorzLeft => (MouseEventKind::HWheel, MouseData::WheelClickMinus),
        };
        InputRecord::Mouse { event, data }
    }

    /// Every wheel direction, in declaration order.
    pub fn all() -> (buttons: Vec<MouseWheelButton>)
        ensures
            buttons@ == seq![
                MouseWheelButton::Up,
                MouseWheelButton::Down,
                MouseWheelButton::HorzRight,
                MouseWheelButton::HorzLeft,
            ],
    {
        let mut buttons: Vec<MouseWheelButton> = Vec::new();
        buttons.push(MouseWheelButton::Up);
        buttons.push(MouseWheelButton::Down);
        buttons.push(MouseWheelButton::HorzRight);
        buttons.push(MouseWheelButton::HorzLeft);
        buttons
    }
}

/// The index of a direction names that direction.
pub proof fn lemma_index_roundtrip(button: MouseWheelButton)
    ensures
        button.spec_index() < MOUSE_WHEEL_BUTTON_COUNT,
        MouseWheelButton::spec_from_index(button.spec_index()) == Some(button),
{
}

} // verus!
