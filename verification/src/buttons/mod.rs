//! Buttons and inputs.
//!
//! A *button* is something on a physical device that the user actuates: a key, a mouse
//! button, a wheel direction. An *input* is one event that a button produces: a press or
//! a release. Most buttons are *hold* buttons, which go down and later come up. The wheel
//! directions are *tap* buttons: each scroll is a single event with nothing to release.
//!
//! The user maps buttons to buttons; the hook thread works on inputs.

pub mod key;
pub mod mouse;
pub mod record;
pub mod wheel;

use key::{KeyButton, KEY_BUTTON_COUNT};
use mouse::{MouseButton, MOUSE_BUTTON_COUNT};
use record::InputRecord;
use vstd::prelude::*;
use wheel::{MouseWheelButton, MOUSE_WHEEL_BUTTON_COUNT};

verus! {

/// Whether a hold input presses or releases its button.
#[derive(Debug, Clone, Copy, PartialEq, Eq, PartialOrd, Ord, Hash, Structural)]
pub enum HoldInputType {
    Down,
    Up,
}

/// Why a raw input from the operating system could not be understood.
#[derive(Debug, Clone, Copy, PartialEq, Eq, Structural)]
pub enum InputParseError {
    UnknownVK,
    UnknownMouseMessage,
}

impl InputParseError {
    /// The text that describes this error.
    pub open spec fn spec_message(self) -> Seq<char> {
        match self {
            InputParseError::UnknownVK => "Unknown virtual key code"@,
            InputParseError::UnknownMouseMessage => "Unknown mouse message"@,
        }
    }

    /// The text that describes this error.
    pub fn message(&self) -> (text: &'static str)
        ensures
            text@ == self.spec_message(),
    {
        match self {
            InputParseError::UnknownVK => "Unknown virtual key code",
            InputParseError::UnknownMouseMessage => "Unknown mouse message",
        }
    }
}

// -------------------------------------------------------------------------------------------------

/// A button that is held down and later released.
#[derive(Debug, Clone, Copy, PartialEq, Eq, PartialOrd, Ord, Hash, Structural)]
pub enum HoldButton {
    Key(KeyButton),
    Mouse(MouseButton),
}

/// The number of `HoldButton` values.
pub const HOLD_BUTTON_COUNT: usize = 57;

/// A button that only produces single, momentary events.
#[derive(Debug, Clone, Copy, PartialEq, Eq, PartialOrd, Ord, Hash, Structural)]
pub enum TapButton {
    Wheel(MouseWheelButton),
}

/// Any button, including ones that only produce momentary events (scrolling).
#[derive(Debug, Clone, Copy, PartialEq, Eq, PartialOrd, Ord, Hash, Structural)]
pub enum Button {
    Key(KeyButton),
    Mouse(MouseButton),
    Wheel(MouseWheelButton),
}

/// The number of `Button` values.
pub const BUTTON_COUNT: usize = 61;

/// A press or release of a key.
#[derive(Debug, Clone, Copy, PartialEq, Eq, PartialOrd, Ord, Hash, Structural)]
pub struct KeyInput {
    pub button: KeyButton,
    pub input_type: HoldInputType,
}

/// A press or release of a mouse button.
#[derive(Debug, Clone, Copy, PartialEq, Eq, PartialOrd, Ord, Hash, Structural)]
pub struct MouseInput {
    pub button: MouseButton,
    pub input_type: HoldInputType,
}

/// One scroll of the wheel.
#[derive(Debug, Clone, Copy, PartialEq, Eq, PartialOrd, Ord, Hash, Structural)]
pub struct MouseWheelInput {
    pub button: MouseWheelButton,
}

/// An input of a hold button.
#[derive(Debug, Clone, Copy, PartialEq, Eq, PartialOrd, Ord, Hash, Structural)]
pub enum HoldInput {
    Key(KeyInput),
    Mouse(MouseInput),
}

/// An input of a tap button.
#[derive(Debug, Clone, Copy, PartialEq, Eq, PartialOrd, Ord, Hash, Structural)]
pub enum TapInput {
    Wheel(MouseWheelInput),
}

/// Any input.
#[derive(Debug, Clone, Copy, PartialEq, Eq, PartialOrd, Ord, Hash, Structural)]
pub enum Input {
    Key(KeyInput),
    Mouse(MouseInput),
    Wheel(MouseWheelInput),
}

// ------------------------------------ conversions ------------------------------------------------

impl From<KeyButton> for HoldButton {
    fn from(value: KeyButton) -> Self {
        HoldButton::Key(value)
    }
}

impl vstd::std_specs::convert::FromSpecImpl<KeyButton> for HoldButton {
    open spec fn obeys_from_spec() -> bool {
        true
    }

    open spec fn from_spec(v: KeyButton) -> Self {
        HoldButton::Key(v)
    }
}

impl From<MouseButton> for HoldButton {
    fn from(value: MouseButton) -> Self {
        HoldButton::Mouse(value)
    }
}

impl vstd::std_specs::convert::FromSpecImpl<MouseButton> for HoldButton {
    open spec fn obeys_from_spec() -> bool {
        true
    }

    open spec fn from_spec(v: MouseButton) -> Self {
        HoldButton::Mouse(v)
    }
}

impl From<HoldInput> for HoldButton {
    fn from(value: HoldInput) -> Self {
        match value {
            HoldInput::Key(key) => HoldButton::Key(key.button),
            HoldInput::Mouse(mouse) => HoldButton::Mouse(mouse.button),
        }
    }
}

impl vstd::std_specs::convert::FromSpecImpl<HoldInput> for HoldButton {
    open spec fn obeys_from_spec() -> bool {
        true
    }

    open spec fn from_spec(v: HoldInput) -> Self {
        match v {
            HoldInput::Key(key) => HoldButton::Key(key.button),
            HoldInput::Mouse(mouse) => HoldButton::Mouse(mouse.button),
        }
    }
}

impl From<MouseWheelButton> for TapButton {
    fn from(value: MouseWheelButton) -> Self {
        TapButton::Wheel(value)
    }
}

impl vstd::std_specs::convert::FromSpecImpl<MouseWheelButton> for TapButton {
    open spec fn obeys_from_spec() -> bool {
        true
    }

    open spec fn from_spec(v: MouseWheelButton) -> Self {
        TapButton::Wheel(v)
    }
}

impl From<TapInput> for TapButton {
    fn from(value: TapInput) -> Self {
        match value {
            TapInput::Wheel(wheel) => TapButton::Wheel(wheel.button),
        }
    }
}

impl vstd::std_specs::convert::FromSpecImpl<TapInput> for TapButton {
    open spec fn obeys_from_spec() -> bool {
        true
    }

    open spec fn from_spec(v: TapInput) -> Self {
        match v {
            TapInput::Wheel(wheel) => TapButton::Wheel(wheel.button),
        }
    }
}

impl From<KeyButton> for Button {
    fn from(value: KeyButton) -> Self {
        Button::Key(value)
    }
}

impl vstd::std_specs::convert::FromSpecImpl<KeyButton> for Button {
    open spec fn obeys_from_spec() -> bool {
        true
    }

    open spec fn from_spec(v: KeyButton) -> Self {
        Button::Key(v)
    }
}

impl From<MouseButton> for Button {
    fn from(value: MouseButton) -> Self {
        Button::Mouse(value)
    }
}

impl vstd::std_specs::convert::FromSpecImpl<MouseButton> for Button {
    open spec fn obeys_from_spec() -> bool {
        true
    }

    open spec fn from_spec(v: MouseButton) -> Self {
        Button::Mouse(v)
    }
}

impl From<MouseWheelButton> for Button {
    fn from(value: MouseWheelButton) -> Self {
        Button::Wheel(value)
    }
}

impl vstd::std_specs::convert::FromSpecImpl<MouseWheelButton> for Button {
    open spec fn obeys_from_spec() -> bool {
        true
    }

    open spec fn from_spec(v: MouseWheelButton) -> Self {
        Button::Wheel(v)
    }
}

impl From<HoldButton> for Button {
    fn from(value: HoldButton) -> Self {
        match value {
            HoldButton::Key(key) => Button::Key(key),
            HoldButton::Mouse(mouse) => Button::Mouse(mouse),
        }
    }
}

impl vstd::std_specs::convert::FromSpecImpl<HoldButton> for Button {
    open spec fn obeys_from_spec() -> bool {
        true
    }

    open spec fn from_spec(v: HoldButton) -> Self {
        match v {
            HoldButton::Key(key) => Button::Key(key),
            HoldButton::Mouse(mouse) => Button::Mouse(mouse),
        }
    }
}

impl From<TapButton> for Button {
    fn from(value: TapButton) -> Self {
        match value {
            TapButton::Wheel(wheel) => Button::Wheel(wheel),
        }
    }
}

impl vstd::std_specs::convert::FromSpecImpl<TapButton> for Button {
    open spec fn obeys_from_spec() -> bool {
        true
    }

    open spec fn from_spec(v: TapButton) -> Self {
        match v {
            TapButton::Wheel(wheel) => Button::Wheel(wheel),
        }
    }
}

impl From<Input> for Button {
    fn from(value: Input) -> Self {
        match value {
            Input::Key(key) => Button::Key(key.button),
            Input::Mouse(mouse) => Button::Mouse(mouse.button),
            Input::Wheel(wheel) => Button::Wheel(wheel.button),
        }
    }
}

impl vstd::std_specs::convert::FromSpecImpl<Input> for Button {
    open spec fn obeys_from_spec() -> bool {
        true
    }

    open spec fn from_spec(v: Input) -> Self {
        match v {
            Input::Key(key) => Button::Key(key.button),
            Input::Mouse(mouse) => Button::Mouse(mouse.button),
            Input::Wheel(wheel) => Button::Wheel(wheel.button),
        }
    }
}

impl From<KeyInput> for Input {
    fn from(value: KeyInput) -> Self {
        Input::Key(value)
    }
}

impl vstd::std_specs::convert::FromSpecImpl<KeyInput> for Input {
    open spec fn obeys_from_spec() -> bool {
        true
    }

    open spec fn from_spec(v: KeyInput) -> Self {
        Input::Key(v)
    }
}

impl From<MouseInput> for Input {
    fn from(value: MouseInput) -> Self {
        Input::Mouse(value)
    }
}

impl vstd::std_specs::convert::FromSpecImpl<MouseInput> for Input {
    open spec fn obeys_from_spec() -> bool {
        true
    }

    open spec fn from_spec(v: MouseInput) -> Self {
        Input::Mouse(v)
    }
}

impl From<MouseWheelInput> for Input {
    fn from(value: MouseWheelInput) -> Self {
        Input::Wheel(value)
    }
}

impl vstd::std_specs::convert::FromSpecImpl<MouseWheelInput> for Input {
    open spec fn obeys_from_spec() -> bool {
        true
    }

    open spec fn from_spec(v: MouseWheelInput) -> Self {
        Input::Wheel(v)
    }
}

// ------------------------------------ names and indices ------------------------------------------

impl Button {
    /// The name shown to the user for this button.
    pub open spec fn spec_name(self) -> Seq<char> {
        match self {
            Button::Key(key) => key.spec_name(),
            Button::Mouse(mouse) => mouse.spec_name(),
            Button::Wheel(wheel) => wheel.spec_name(),
        }
    }

    /// The device this button belongs to, as shown to the user.
    pub open spec fn spec_device(self) -> Seq<char> {
        match self {
            Button::Key(_) => "Keyboard"@,
            Button::Mouse(_) | Button::Wheel(_) => "Mouse"@,
        }
    }

    /// The position of this button: keys first, then mouse buttons, then wheel directions.
    pub open spec fn spec_index(self) -> usize {
        match self {
            Button::Key(key) => key.spec_index(),
            Button::Mouse(mouse) => (KEY_BUTTON_COUNT + mouse.spec_index()) as usize,
            Button::Wheel(wheel) => (KEY_BUTTON_COUNT + MOUSE_BUTTON_COUNT
                + wheel.spec_index()) as usize,
        }
    }

    /// The button at position `i`.
    pub open spec fn spec_from_index(i: usize) -> Option<Button> {
        if i < KEY_BUTTON_COUNT {
            match KeyButton::spec_from_index(i) {
                Some(key) => Some(Button::Key(key)),
                None => None,
            }
        } else if i < KEY_BUTTON_COUNT + MOUSE_BUTTON_COUNT {
            match MouseButton::spec_from_index((i - KEY_BUTTON_COUNT) as usize) {
                Some(mouse) => Some(Button::Mouse(mouse)),
                None => None,
            }
        } else {
            match MouseWheelButton::spec_from_index(
                (i - KEY_BUTTON_COUNT - MOUSE_BUTTON_COUNT) as usize,
            ) {
                Some(wheel) => Some(Button::Wheel(wheel)),
                None => None,
            }
        }
    }

    /// The name shown to the user for this button.
    pub fn name(self) -> (name: &'static str)
        ensures
            name@ == self.spec_name(),
    {
        match self {
            Button::Key(key) => key.name(),
            Button::Mouse(mouse) => mouse.name(),
            Button::Wheel(wheel) => wheel.name(),
        }
    }

    /// The device this button belongs to, as shown to the user.
    pub fn device(self) -> (device: &'static str)
        ensures
            device@ == self.spec_device(),
    {
        match self {
            Button::Key(_) => "Keyboard",
            Button::Mouse(_) | Button::Wheel(_) => "Mouse",
        }
    }

    /// The position of this button: keys first, then mouse buttons, then wheel directions.
    pub fn index(self) -> (i: usize)
        ensures
            i == self.spec_index(),
            i < BUTTON_COUNT,
    {
        match self {
            Button::Key(key) => key.index(),
            Button::Mouse(mouse) => KEY_BUTTON_COUNT + mouse.index(),
            Button::Wheel(wheel) => KEY_BUTTON_COUNT + MOUSE_BUTTON_COUNT + wheel.index(),
        }
    }

    /// The button at position `i`.
    pub fn from_index(i: usize) -> (button: Option<Button>)
        ensures
            button == Button::spec_from_index(i),
    {
        if i < KEY_BUTTON_COUNT {
            match KeyButton::from_index(i) {
                Some(key) => Some(Button::Key(key)),
                None => None,
            }
        } else if i < KEY_BUTTON_COUNT + MOUSE_BUTTON_COUNT {
            match MouseButton::from_index(i - KEY_BUTTON_COUNT) {
                Some(mouse) => Some(Button::Mouse(mouse)),
                None => None,
            }
        } else {
            match MouseWheelButton::from_index(i - KEY_BUTTON_COUNT - MOUSE_BUTTON_COUNT) {
                Some(wheel) => Some(Button::Wheel(wheel)),
                None => None,
            }
        }
    }
}

impl HoldButton {
    /// The same button, as a member of all buttons.
    pub open spec fn spec_to_button(self) -> Button {
        match self {
            HoldButton::Key(key) => Button::Key(key),
            HoldButton::Mouse(mouse) => Button::Mouse(mouse),
        }
    }

    /// The name shown to the user for this button.
    pub open spec fn spec_name(self) -> Seq<char> {
        match self {
            HoldButton::Key(key) => key.spec_name(),
            HoldButton::Mouse(mouse) => mouse.spec_name(),
        }
    }

    /// The position of this button: keys first, then mouse buttons.
    pub open spec fn spec_index(self) -> usize {
        match self {
            HoldButton::Key(key) => key.spec_index(),
            HoldButton::Mouse(mouse) => (KEY_BUTTON_COUNT + mouse.spec_index()) as usize,
        }
    }

    /// The name shown to the user for this button.
    pub fn name(self) -> (name: &'static str)
        ensures
            name@ == self.spec_name(),
    {
        match self {
            HoldButton::Key(key) => key.name(),
            HoldButton::Mouse(mouse) => mouse.name(),
        }
    }

    /// The device this button belongs to, as shown to the user.
    pub fn device(self) -> (device: &'static str)
        ensures
            device@ == self.spec_to_button().spec_device(),
    {
        match self {
            HoldButton::Key(_) => "Keyboard",
            HoldButton::Mouse(_) => "Mouse",
        }
    }

    /// The position of this button: keys first, then mouse buttons.
    pub fn index(self) -> (i: usize)
        ensures
            i == self.spec_index(),
            i < HOLD_BUTTON_COUNT,
    {
        match self {
            HoldButton::Key(key) => key.index(),
            HoldButton::Mouse(mouse) => KEY_BUTTON_COUNT + mouse.index(),
        }
    }
}

/// Positions of buttons are below `BUTTON_COUNT` and name the button they came from.
pub proof fn lemma_button_index_roundtrip(button: Button)
    ensures
        button.spec_index() < BUTTON_COUNT,
        Button::spec_from_index(button.spec_index()) == Some(button),
{
    match button {
        Button::Key(key) => key::lemma_index_roundtrip(key),
        Button::Mouse(mouse) => mouse::lemma_index_roundtrip(mouse),
        Button::Wheel(wheel) => wheel::lemma_index_roundtrip(wheel),
    }
}

/// Every position below `BUTTON_COUNT` names a button.
pub proof fn lemma_button_from_index_in_range(i: usize)
    requires
        i < BUTTON_COUNT,
    ensures
        Button::spec_from_index(i) matches Some(button) && button.spec_index() == i,
{
}

/// Every button has a label of its own: no label is empty, and no two buttons share one.
pub proof fn lemma_button_names_distinct(a: Button, b: Button)
    ensures
        a.spec_name().len() > 0,
        a != b ==> a.spec_name() != b.spec_name(),
{
    reveal_strlit("Left Click as key");
    reveal_strlit("Right Click as key");
    reveal_strlit("Middle Click as key");
    reveal_strlit("Mouse X1 as key");
    reveal_strlit("Mouse X2 as key");
    reveal_strlit("Backspace");
    reveal_strlit("Tab");
    reveal_strlit("Clear");
    reveal_strlit("Enter");
    reveal_strlit("Shift (ambidextrous)");
    reveal_strlit("Ctrl (ambidextrous)");
    reveal_strlit("Alt (ambidextrous)");
    reveal_strlit("Pause");
    reveal_strlit("Caps Lock");
    reveal_strlit("IME Kana/Hangul");
    reveal_strlit("IME On");
    reveal_strlit("IME Junja");
    reveal_strlit("IME Final");
    reveal_strlit("IME Hanja/Kanji");
    reveal_strlit("IME Off");
    reveal_strlit("Escape");
    reveal_strlit("Space");
    reveal_strlit("A");
    reveal_strlit("B");
    reveal_strlit("C");
    reveal_strlit("D");
    reveal_strlit("E");
    reveal_strlit("F");
    reveal_strlit("G");
    reveal_strlit("H");
    reveal_strlit("I");
    reveal_strlit("J");
    reveal_strlit("K");
    reveal_strlit("L");
    reveal_strlit("M");
    reveal_strlit("N");
    reveal_strlit("O");
    reveal_strlit("P");
    reveal_strlit("Q");
    reveal_strlit("R");
    reveal_strlit("S");
    reveal_strlit("T");
    reveal_strlit("U");
    reveal_strlit("V");
    reveal_strlit("W");
    reveal_strlit("X");
    reveal_strlit("Y");
    reveal_strlit("Z");
    reveal_strlit("Left Shift");
    reveal_strlit("Right Shift");
    reveal_strlit("Left Ctrl");
    reveal_strlit("Right Ctrl");
    reveal_strlit("Left Click");
    reveal_strlit("Middle Click");
    reveal_strlit("Right Click");
    reveal_strlit("Mouse X1");
    reveal_strlit("Mouse X2");
    reveal_strlit("Scroll Up");
    reveal_strlit("Scroll Down");
    reveal_strlit("Scroll Right");
    reveal_strlit("Scroll Left");
    let na = a.spec_name();
    let nb = b.spec_name();
    if a != b && na == nb {
        // The length and the characters at 0, 5 and 7 already tell all labels apart.
        assert(na.len() == nb.len() && na[0] == nb[0] && na[5] == nb[5] && na[7] == nb[7]);
    }
}

/// Different buttons have different positions.
pub proof fn lemma_button_index_injective(a: Button, b: Button)
    ensures
        a.spec_index() == b.spec_index() ==> a == b,
{
    lemma_button_index_roundtrip(a);
    lemma_button_index_roundtrip(b);
}

/// Different hold buttons have different positions, all below `HOLD_BUTTON_COUNT`.
pub proof fn lemma_hold_button_index(a: HoldButton, b: HoldButton)
    ensures
        a.spec_index() < HOLD_BUTTON_COUNT,
        a.spec_index() == b.spec_index() ==> a == b,
        a.spec_index() == a.spec_to_button().spec_index(),
{
    lemma_button_index_injective(a.spec_to_button(), b.spec_to_button());
}

// ------------------------------------ inputs to records ------------------------------------------

impl Input {
    /// The event that reproduces this input when handed to the operating system.
    pub open spec fn spec_record(self) -> InputRecord {
        match self {
            Input::Key(key) => match key.input_type {
                HoldInputType::Down => InputRecord::Keyboard {
                    vk: key.button.spec_vk(),
                    key_up: false,
                },
                HoldInputType::Up => InputRecord::Keyboard {
                    vk: key.button.spec_vk(),
                    key_up: true,
                },
            },
            Input::Mouse(mouse) => match mouse.input_type {
                HoldInputType::Down => InputRecord::Mouse {
                    event: mouse.button.spec_down_event(),
                    data: mouse.button.spec_mouse_data(),
                },
                HoldInputType::Up => InputRecord::Mouse {
                    event: mouse.button.spec_up_event(),
                    data: mouse.button.spec_mouse_data(),
                },
            },
            Input::Wheel(wheel) => wheel.button.spec_input(),
        }
    }

    /// The event that reproduces this input when handed to the operating system.
    pub fn to_record(self) -> (record: InputRecord)
        ensures
            record == self.spec_record(),
    {
        match self {
            Input::Key(key) => match key.input_type {
                HoldInputType::Down => key.button.to_keydown_input(),
                HoldInputType::Up => key.button.to_keyup_input(),
            },
            Input::Mouse(mouse) => match mouse.input_type {
                HoldInputType::Down => mouse.button.to_mousedown_input(),
                HoldInputType::Up => mouse.button.to_mouseup_input(),
            },
            Input::Wheel(wheel) => wheel.button.to_input(),
        }
    }

    /// The events for a batch of inputs, in the same order.
    pub fn to_records(inputs: &[Input]) -> (records: Vec<InputRecord>)
        ensures
            records@.len() == inputs@.len(),
            forall|i: int|
                0 <= i < inputs@.len() ==> #[trigger] records@[i] == inputs@[i].spec_record(),
    {
        let mut records: Vec<InputRecord> = Vec::new();
        let mut i: usize = 0;
        while i < inputs.len()
            invariant
                i <= inputs@.len(),
                records@.len() == i,
                forall|j: int| 0 <= j < i ==> #[trigger] records@[j] == inputs@[j].spec_record(),
            decreases inputs@.len() - i,
        {
            records.push(inputs[i].to_record());
            i = i + 1;
        }
        records
    }
}

} // verus!
