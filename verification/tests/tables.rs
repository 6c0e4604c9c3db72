use engine_core::convert::{
    convert_gilrs_axis, convert_gilrs_button, convert_key_code, convert_key_location,
    convert_mouse_button, convert_touch_phase,
};
use engine_core::events::{GamepadAxis, GamepadButton, KeyCode, KeyLocation, MouseButton, TouchPhase};
use engine_core::raw::{
    RawKeyCode, RawKeyLocation, RawMouseButton, RawPadAxis, RawPadButton, RawPhysicalKey,
    RawTouchPhase,
};
use engine_core::result::EngineResult;
use engine_core::units::{Float32, Float64};

#[test]
fn touch_phases() {
    assert_eq!(convert_touch_phase(RawTouchPhase::Started), TouchPhase::Started);
    assert_eq!(convert_touch_phase(RawTouchPhase::Moved), TouchPhase::Moved);
    assert_eq!(convert_touch_phase(RawTouchPhase::Ended), TouchPhase::Ended);
    assert_eq!(convert_touch_phase(RawTouchPhase::Cancelled), TouchPhase::Cancelled);
}

#[test]
fn key_locations() {
    assert_eq!(convert_key_location(RawKeyLocation::Standard), KeyLocation::Standard);
    assert_eq!(convert_key_location(RawKeyLocation::Left), KeyLocation::Left);
    assert_eq!(convert_key_location(RawKeyLocation::Right), KeyLocation::Right);
    assert_eq!(convert_key_location(RawKeyLocation::Numpad), KeyLocation::Numpad);
}

#[test]
fn mouse_buttons() {
    assert_eq!(convert_mouse_button(RawMouseButton::Left), MouseButton::Left);
    assert_eq!(convert_mouse_button(RawMouseButton::Right), MouseButton::Right);
    assert_eq!(convert_mouse_button(RawMouseButton::Middle), MouseButton::Middle);
    assert_eq!(convert_mouse_button(RawMouseButton::Back), MouseButton::Back);
    assert_eq!(convert_mouse_button(RawMouseButton::Forward), MouseButton::Forward);
    assert_eq!(convert_mouse_button(RawMouseButton::Other(6)), MouseButton::Other(6));
    assert_eq!(convert_mouse_button(RawMouseButton::Other(255)), MouseButton::Other(255));
    // a number beyond eight bits keeps its low eight bits
    assert_eq!(convert_mouse_button(RawMouseButton::Other(256)), MouseButton::Other(0));
    assert_eq!(convert_mouse_button(RawMouseButton::Other(0xABCD)), MouseButton::Other(0xCD));
    assert_eq!(convert_mouse_button(RawMouseButton::Other(u16::MAX)), MouseButton::Other(255));
}

#[test]
fn gamepad_buttons() {
    let table = [
        (RawPadButton::South, GamepadButton::South),
        (RawPadButton::East, GamepadButton::East),
        (RawPadButton::West, GamepadButton::West),
        (RawPadButton::North, GamepadButton::North),
        (RawPadButton::LeftTrigger, GamepadButton::LeftBumper),
        (RawPadButton::RightTrigger, GamepadButton::RightBumper),
        (RawPadButton::LeftTrigger2, GamepadButton::LeftTrigger),
        (RawPadButton::RightTrigger2, GamepadButton::RightTrigger),
        (RawPadButton::Select, GamepadButton::Select),
        (RawPadButton::Start, GamepadButton::Start),
        (RawPadButton::Mode, GamepadButton::Mode),
        (RawPadButton::LeftThumb, GamepadButton::LeftStick),
        (RawPadButton::RightThumb, GamepadButton::RightStick),
        (RawPadButton::DPadUp, GamepadButton::DpadUp),
        (RawPadButton::DPadDown, GamepadButton::DpadDown),
        (RawPadButton::DPadLeft, GamepadButton::DpadLeft),
        (RawPadButton::DPadRight, GamepadButton::DpadRight),
        (RawPadButton::C, GamepadButton::Other(255)),
        (RawPadButton::Z, GamepadButton::Other(255)),
        (RawPadButton::Unknown, GamepadButton::Other(255)),
    ];
    for (raw, button) in table {
        assert_eq!(convert_gilrs_button(raw), button);
    }
}

#[test]
fn gamepad_axes() {
    let table = [
        (RawPadAxis::LeftStickX, GamepadAxis::LeftStickX),
        (RawPadAxis::LeftStickY, GamepadAxis::LeftStickY),
        (RawPadAxis::RightStickX, GamepadAxis::RightStickX),
        (RawPadAxis::RightStickY, GamepadAxis::RightStickY),
        (RawPadAxis::LeftZ, GamepadAxis::LeftTrigger),
        (RawPadAxis::RightZ, GamepadAxis::RightTrigger),
        (RawPadAxis::DPadX, GamepadAxis::Other(255)),
        (RawPadAxis::DPadY, GamepadAxis::Other(255)),
        (RawPadAxis::Unknown, GamepadAxis::Other(255)),
    ];
    for (raw, axis) in table {
        assert_eq!(convert_gilrs_axis(raw), axis);
    }
}

#[test]
fn key_codes_with_a_name_in_the_model() {
    let table = [
        (RawKeyCode::Backquote, KeyCode::Backquote),
        (RawKeyCode::Digit0, KeyCode::Digit0),
        (RawKeyCode::Digit9, KeyCode::Digit9),
        (RawKeyCode::KeyA, KeyCode::KeyA),
        (RawKeyCode::KeyZ, KeyCode::KeyZ),
        (RawKeyCode::Slash, KeyCode::Slash),
        (RawKeyCode::AltLeft, KeyCode::AltLeft),
        (RawKeyCode::SuperRight, KeyCode::SuperRight),
        (RawKeyCode::Tab, KeyCode::Tab),
        (RawKeyCode::Delete, KeyCode::Delete),
        (RawKeyCode::PageUp, KeyCode::PageUp),
        (RawKeyCode::ArrowDown, KeyCode::ArrowDown),
        (RawKeyCode::ArrowUp, KeyCode::ArrowUp),
        (RawKeyCode::NumLock, KeyCode::NumLock),
        (RawKeyCode::Numpad5, KeyCode::Numpad5),
        (RawKeyCode::NumpadSubtract, KeyCode::NumpadSubtract),
        (RawKeyCode::Escape, KeyCode::Escape),
        (RawKeyCode::F1, KeyCode::F1),
        (RawKeyCode::F24, KeyCode::F24),
        (RawKeyCode::ScrollLock, KeyCode::ScrollLock),
        (RawKeyCode::AudioVolumeMute, KeyCode::AudioVolumeMute),
        (RawKeyCode::MediaTrackPrevious, KeyCode::MediaTrackPrevious),
        (RawKeyCode::BrowserStop, KeyCode::BrowserStop),
        (RawKeyCode::PrintScreen, KeyCode::PrintScreen),
        (RawKeyCode::Pause, KeyCode::Pause),
    ];
    for (raw, code) in table {
        assert_eq!(convert_key_code(&RawPhysicalKey::Code(raw)), code);
    }
}

#[test]
fn key_codes_without_a_name_in_the_model() {
    for raw in [
        RawKeyCode::Fn,
        RawKeyCode::FnLock,
        RawKeyCode::Convert,
        RawKeyCode::KanaMode,
        RawKeyCode::Lang1,
        RawKeyCode::NonConvert,
        RawKeyCode::Eject,
        RawKeyCode::LaunchMail,
        RawKeyCode::MediaSelect,
        RawKeyCode::Power,
        RawKeyCode::Sleep,
        RawKeyCode::WakeUp,
        RawKeyCode::Meta,
        RawKeyCode::Hyper,
        RawKeyCode::Turbo,
        RawKeyCode::Copy,
        RawKeyCode::Paste,
        RawKeyCode::Undo,
        RawKeyCode::Hiragana,
        RawKeyCode::Katakana,
        RawKeyCode::F25,
        RawKeyCode::F35,
    ] {
        assert_eq!(convert_key_code(&RawPhysicalKey::Code(raw)), KeyCode::Unidentified);
    }
    assert_eq!(convert_key_code(&RawPhysicalKey::Unidentified), KeyCode::Unidentified);
}

#[test]
fn result_codes() {
    let table = [
        (EngineResult::Success, 0u32),
        (EngineResult::UnknownError, 1),
        (EngineResult::NotInitialized, 2),
        (EngineResult::AlreadyInitialized, 3),
        (EngineResult::WrongThread, 4),
        (EngineResult::BufferOverflow, 5),
        (EngineResult::WinitEventLoopNotInitializedError, 1000),
        (EngineResult::WinitCreateWindowError, 1001),
        (EngineResult::WgpuInstanceError, 2000),
        (EngineResult::CmdInvalidCborError, 3000),
    ];
    for (result, code) in table {
        assert_eq!(result.code(), code);
        assert_eq!(EngineResult::from_code(code), Some(result));
    }
    for code in [6u32, 999, 1002, 1999, 2001, 2999, 3001, 4000, u32::MAX] {
        assert_eq!(EngineResult::from_code(code), None);
    }
}

#[test]
fn above_half_agrees_with_the_comparison_of_numbers() {
    let mut samples: Vec<f32> = vec![
        0.0,
        -0.0,
        0.5,
        f32::from_bits(0x3F00_0000 - 1),
        f32::from_bits(0x3F00_0000 + 1),
        0.499_999_97,
        0.6,
        1.0,
        2.0,
        -0.5,
        -0.6,
        -1.0,
        f32::MIN_POSITIVE,
        f32::from_bits(1),
        f32::MAX,
        f32::MIN,
        f32::INFINITY,
        f32::NEG_INFINITY,
        f32::NAN,
        -f32::NAN,
        f32::from_bits(0x7F80_0001),
        f32::from_bits(0x7FFF_FFFF),
        f32::from_bits(0xFFFF_FFFF),
        f32::EPSILON,
    ];
    // a walk over the bit patterns in even steps
    let mut bits: u32 = 0;
    loop {
        samples.push(f32::from_bits(bits));
        match bits.checked_add(0x0001_2345) {
            Some(next) => bits = next,
            None => break,
        }
    }
    for x in samples {
        assert_eq!(Float32::from_bits(x.to_bits()).is_above_half(), x > 0.5, "bits {:#x}", x.to_bits());
    }
}

#[test]
fn numbers_keep_their_bit_pattern() {
    assert_eq!(Float32::from_bits(0x3F80_0000).to_bits(), 1.0f32.to_bits());
    assert_eq!(Float32 { bits: 0x3F00_0000 }.to_bits(), 0.5f32.to_bits());
    assert_eq!(Float64::from_bits(0x3FF8_0000_0000_0000).to_bits(), 1.5f64.to_bits());
    assert_eq!(f32::from_bits(Float32::from_bits(0.1f32.to_bits()).to_bits()), 0.1);
    assert_eq!(f64::from_bits(Float64::from_bits(0.1f64.to_bits()).to_bits()), 0.1);
}
