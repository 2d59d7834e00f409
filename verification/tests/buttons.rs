use reemap::buttons::key::KeyButton;
use reemap::buttons::mouse::MouseButton;
use reemap::buttons::record::{InputRecord, MouseData, MouseEventKind};
use reemap::buttons::wheel::MouseWheelButton;
use reemap::buttons::{Button, HoldButton, HoldInputType, Input, KeyInput, MouseInput, MouseWheelInput, BUTTON_COUNT};

#[test]
fn vk_codes_round_trip() {
    for key in KeyButton::all() {
        assert_eq!(KeyButton::from_vk(key.to_vk()), Some(key));
    }
    assert_eq!(KeyButton::A.to_vk(), 0x41);
    assert_eq!(KeyButton::RCONTROL.to_vk(), 0xA3);
    assert_eq!(KeyButton::from_vk(0x20), Some(KeyButton::SPACE));
    assert_eq!(KeyButton::from_vk(0x03), None);
    assert_eq!(KeyButton::from_vk(0x91), None);
}

#[test]
fn key_names() {
    assert_eq!(KeyButton::LBUTTON.name(), "Left Click as key");
    assert_eq!(KeyButton::RETURN.name(), "Enter");
    assert_eq!(KeyButton::Q.name(), "Q");
    assert_eq!(Button::Mouse(MouseButton::X2).name(), "Mouse X2");
    assert_eq!(Button::Wheel(MouseWheelButton::HorzLeft).name(), "Scroll Left");
    assert_eq!(Button::Key(KeyButton::CAPITAL).device(), "Keyboard");
    assert_eq!(Button::Wheel(MouseWheelButton::Up).device(), "Mouse");
}

#[test]
fn key_records() {
    assert_eq!(KeyButton::B.to_keydown_input(), InputRecord::Keyboard { vk: 0x42, key_up: false });
    assert_eq!(KeyButton::B.to_keyup_input(), InputRecord::Keyboard { vk: 0x42, key_up: true });
}

#[test]
fn mouse_records() {
    assert_eq!(
        MouseButton::Left.to_mousedown_input(),
        InputRecord::Mouse { event: MouseEventKind::LeftDown, data: MouseData::Zero }
    );
    assert_eq!(
        MouseButton::X2.to_mouseup_input(),
        InputRecord::Mouse { event: MouseEventKind::XUp, data: MouseData::XButton2 }
    );
    assert_eq!(
        MouseWheelButton::Down.to_input(),
        InputRecord::Mouse { event: MouseEventKind::Wheel, data: MouseData::WheelClickMinus }
    );
    assert_eq!(
        MouseWheelButton::HorzRight.to_input(),
        InputRecord::Mouse { event: MouseEventKind::HWheel, data: MouseData::WheelClickPlus }
    );
}

#[test]
fn input_records_follow_press_and_release() {
    let inputs = [
        Input::Key(KeyInput { button: KeyButton::W, input_type: HoldInputType::Down }),
        Input::Mouse(MouseInput { button: MouseButton::Right, input_type: HoldInputType::Up }),
        Input::Wheel(MouseWheelInput { button: MouseWheelButton::Up }),
    ];
    let records = Input::to_records(&inputs);
    assert_eq!(
        records,
        vec![
            InputRecord::Keyboard { vk: 0x57, key_up: false },
            InputRecord::Mouse { event: MouseEventKind::RightUp, data: MouseData::Zero },
            InputRecord::Mouse { event: MouseEventKind::Wheel, data: MouseData::WheelClickPlus },
        ]
    );
}

#[test]
fn button_indices_are_a_numbering() {
    let mut seen = vec![false; BUTTON_COUNT];
    for i in 0..BUTTON_COUNT {
        let button = Button::from_index(i).unwrap();
        assert_eq!(button.index(), i);
        assert!(!seen[i]);
        seen[i] = true;
    }
    assert_eq!(Button::from_index(BUTTON_COUNT), None);
    assert_eq!(HoldButton::Mouse(MouseButton::Left).index(), 52);
}

#[test]
fn conversions() {
    let input = Input::Key(KeyInput { button: KeyButton::Z, input_type: HoldInputType::Up });
    assert_eq!(Button::from(input), Button::Key(KeyButton::Z));
    assert_eq!(Button::from(HoldButton::Mouse(MouseButton::Middle)), Button::Mouse(MouseButton::Middle));
    assert_eq!(HoldButton::from(KeyButton::TAB), HoldButton::Key(KeyButton::TAB));
}

#[test]
fn button_labels_are_distinct() {
    let all: Vec<Button> = (0..BUTTON_COUNT).map(|i| Button::from_index(i).unwrap()).collect();
    for (i, a) in all.iter().enumerate() {
        assert!(!a.name().is_empty());
        for b in &all[i + 1..] {
            assert_ne!(a.name(), b.name());
        }
    }
}
