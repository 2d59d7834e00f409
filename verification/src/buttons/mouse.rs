//! Mouse buttons.

use crate::buttons::record::{InputRecord, MouseData, MouseEventKind};
use vstd::prelude::*;

verus! {

/// A mouse button that can be held down.
#[derive(Debug, Clone, Copy, PartialEq, Eq, PartialOrd, Ord, Hash, Structural)]
pub enum MouseButton {
    Left,
    Middle,
    Right,
    X1,
    X2,
}

/// The number of `MouseButton` variants.
pub const MOUSE_BUTTON_COUNT: usize = 5;

impl MouseButton {
    /// The name shown to the user for this button.
    pub open spec fn spec_name(self) -> Seq<char> {
        match self {
            MouseButton::Left => "Left Click"@,
            MouseButton::Middle => "Middle Click"@,
            MouseButton::Right => "Right Click"@,
            MouseButton::X1 => "Mouse X1"@,
            MouseButton::X2 => "Mouse X2"@,
        }
    }

    /// The position of this button in declaration order.
    pub open spec fn spec_index(self) -> usize {
        match self {
            MouseButton::Left => 0,
            MouseButton::Middle => 1,
            MouseButton::Right => 2,
            MouseButton::X1 => 3,
            MouseButton::X2 => 4,
        }
    }

    /// The button at position `i` in declaration order.
    pub open spec fn spec_from_index(i: usize) -> Option<MouseButton> {
        match i {
            0 => Some(MouseButton::Left),
            1 => Some(MouseButton::Middle),
            2 => Some(MouseButton::Right),
            3 => Some(MouseButton::X1),
            4 => Some(MouseButton::X2),
            _ => None,
        }
    }

    /// The extended-button word that goes with this button's events.
    pub open spec fn spec_mouse_data(self) -> MouseData {
        match self {
            MouseButton::X1 => MouseData::XButton1,
            MouseButton::X2 => MouseData::XButton2,
            _ => MouseData::Zero,
        }
    }

    /// The event that presses this button.
    pub open spec fn spec_down_event(self) -> MouseEventKind {
        match self {
            MouseButton::Left => MouseEventKind::LeftDown,
            MouseButton::Middle => MouseEventKind::MiddleDown,
            MouseButton::Right => MouseEventKind::RightDown,
            MouseButton::X1 | MouseButton::X2 => MouseEventKind::XDown,
        }
    }

    /// The event that releases this button.
    pub open spec fn spec_up_event(self) -> MouseEventKind {
        match self {
            MouseButton::Left => MouseEventKind::LeftUp,
            MouseButton::Middle => MouseEventKind::MiddleUp,
            MouseButton::Right => MouseEventKind::RightUp,
            MouseButton::X1 | MouseButton::X2 => MouseEventKind::XUp,
        }
    }

    /// The name shown to the user for this button.
    pub fn name(self) -> (name: &'static str)
        ensures
            name@ == self.spec_name(),
    {
        match self {
            MouseButton::Left => "Left Click",
            MouseButton::Middle => "Middle Click",
            MouseButton::Right => "Right Click",
            MouseButton::X1 => "Mouse X1",
            MouseButton::X2 => "Mouse X2",
        }
    }

    /// The position of this button in declaration order.
    pub fn index(self) -> (i: usize)
        ensures
            i == self.spec_index(),
            i < MOUSE_BUTTON_COUNT,
    {
        match self {
            MouseButton::Left => 0,
            MouseButton::Middle => 1,
            MouseButton::Right => 2,
            MouseButton::X1 => 3,
            MouseButton::X2 => 4,
        }
    }

    /// The button at position `i` in declaration order.
    pub fn from_index(i: usize) -> (button: Option<MouseButton>)
        ensures
            button == MouseButton::spec_from_index(i),
    {
        match i {
            0 => Some(MouseButton::Left),
            1 => Some(MouseButton::Middle),
            2 => Some(MouseButton::Right),
            3 => Some(MouseButton::X1),
            4 => Some(MouseButton::X2),
            _ => None,
        }
    }

    /// The input that presses this button.
    pub fn to_mousedown_input(&self) -> (input: InputRecord)
        ensures
            input == (InputRecord::Mouse {
                event: self.spec_down_event(),
                data: self.spec_mouse_data(),
            }),
    {
        let (event, data): (MouseEventKind, MouseData) = match self {
            MouseButton::Left => (MouseEventKind::LeftDown, MouseData::Zero),
            MouseButton::Middle => (MouseEventKind::MiddleDown, MouseData::Zero),
            MouseButton::Right => (MouseEventKind::RightDown, MouseData::Zero),
            MouseButton::X1 => (MouseEventKind::XDown, MouseData::XButton1),
            MouseButton::X2 => (MouseEventKind::XDown, MouseData::XButton2),
        };
        InputRecord::Mouse { event, data }
    }

    /// The input that releases this button.
    pub fn to_mouseup_input(&self) -> (input: InputRecord)
        ensures
            input == (InputRecord::Mouse {
                event: self.spec_up_event(),
                data: self.spec_mouse_data(),
            }),
    {
        let (event, data): (MouseEventKind, MouseData) = match self {
            MouseButton::Left => (MouseEventKind::LeftUp, MouseData::Zero),
            MouseButton::Middle => (MouseEventKind::MiddleUp, MouseData::Zero),
            MouseButton::Right => (MouseEventKind::RightUp, MouseData::Zero),
            MouseButton::X1 => (MouseEventKind::XUp, MouseData::XButton1),
            MouseButton::X2 => (MouseEventKind::XUp, MouseData::XButton2),
        };
        InputRecord::Mouse { event, data }
    }

    /// Every mouse button, in declaration order.
    pub fn all() -> (buttons: Vec<MouseButton>)
        ensures
            buttons@ == seq![
                MouseButton::Left,
                MouseButton::Middle,
                MouseButton::Right,
                MouseButton::X1,
                MouseButton::X2,
            ],
    {
        let mut buttons: Vec<MouseButton> = Vec::new();
        buttons.push(MouseButton::Left);
        buttons.push(MouseButton::Middle);
        buttons.push(MouseButton::Right);
        buttons.push(MouseButton::X1);
        buttons.push(MouseButton::X2);
        buttons
    }
}

/// The index of a button names that button, and indices are below `MOUSE_BUTTON_COUNT`.
pub proof fn lemma_index_roundtrip(button: MouseButton)
    ensures
        button.spec_index() < MOUSE_BUTTON_COUNT,
        MouseButton::spec_from_index(button.spec_index()) == Some(button),
{
}

/// Pressing and releasing a button are different events for the same button data.
pub proof fn lemma_down_up_differ(button: MouseButton)
    ensures
        button.spec_down_event() != button.spec_up_event(),
{
}

} // verus!
