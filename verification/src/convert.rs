//! Translation of the collaborators' names into the names of the event model.
//!
//! Each function is a table. The spec function beside it is that table as a
//! definition; the laws after it say what the table keeps apart.

use vstd::prelude::*;
use crate::events::{GamepadAxis, GamepadButton, KeyCode, KeyLocation, MouseButton, TouchPhase};
use crate::raw::{
    RawKeyCode, RawKeyLocation, RawMouseButton, RawPadAxis, RawPadButton, RawPhysicalKey,
    RawTouchPhase,
};

verus! {

/// Number that stands for a gamepad button or axis without a name in the model.
pub const UNNAMED_CONTROL: u8 = 255;

/// The phase of the model that a raw phase stands for.
pub open spec fn touch_phase_of(phase: RawTouchPhase) -> TouchPhase {
    match phase {
        RawTouchPhase::Started => TouchPhase::Started,
        RawTouchPhase::Moved => TouchPhase::Moved,
        RawTouchPhase::Ended => TouchPhase::Ended,
        RawTouchPhase::Cancelled => TouchPhase::Cancelled,
    }
}

/// Translates a phase.
pub fn convert_touch_phase(phase: RawTouchPhase) -> (r: TouchPhase)
    ensures
        r == touch_phase_of(phase),
{
    match phase {
        RawTouchPhase::Started => TouchPhase::Started,
        RawTouchPhase::Moved => TouchPhase::Moved,
        RawTouchPhase::Ended => TouchPhase::Ended,
        RawTouchPhase::Cancelled => TouchPhase::Cancelled,
    }
}

/// The mouse button of the model that a raw button stands for. A button beyond
/// the five named ones keeps the low eight bits of its number.
pub open spec fn mouse_button_of(button: RawMouseButton) -> MouseButton {
    match button {
        RawMouseButton::Left => MouseButton::Left,
        RawMouseButton::Right => MouseButton::Right,
        RawMouseButton::Middle => MouseButton::Middle,
        RawMouseButton::Back => MouseButton::Back,
        RawMouseButton::Forward => MouseButton::Forward,
        RawMouseButton::Other(id) => MouseButton::Other((id % 256) as u8),
    }
}

/// Translates a mouse button.
pub fn convert_mouse_button(button: RawMouseButton) -> (r: MouseButton)
    ensures
        r == mouse_button_of(button),
{
    match button {
        RawMouseButton::Left => MouseButton::Left,
        RawMouseButton::Right => MouseButton::Right,
        RawMouseButton::Middle => MouseButton::Middle,
        RawMouseButton::Back => MouseButton::Back,
        RawMouseButton::Forward => MouseButton::Forward,
        RawMouseButton::Other(id) => MouseButton::Other((id % 256) as u8),
    }
}

/// The key location of the model that a raw location stands for.
pub open spec fn key_location_of(location: RawKeyLocation) -> KeyLocation {
    match location {
        RawKeyLocation::Standard => KeyLocation::Standard,
        RawKeyLocation::Left => KeyLocation::Left,
        RawKeyLocation::Right => KeyLocation::Right,
        RawKeyLocation::Numpad => KeyLocation::Numpad,
    }
}

/// Translates a key location.
pub fn convert_key_location(location: RawKeyLocation) -> (r: KeyLocation)
    ensures
        r == key_location_of(location),
{
    match location {
        RawKeyLocation::Standard => KeyLocation::Standard,
        RawKeyLocation::Left => KeyLocation::Left,
        RawKeyLocation::Right => KeyLocation::Right,
        RawKeyLocation::Numpad => KeyLocation::Numpad,
    }
}

/// The gamepad button of the model that a raw button stands for. The
/// collaborator calls the bumpers triggers, and the triggers second triggers.
/// A button without a name in the model becomes `Other(255)`.
pub open spec fn gamepad_button_of(button: RawPadButton) -> GamepadButton {
    match button {
        RawPadButton::South => GamepadButton::South,
        RawPadButton::East => GamepadButton::East,
        RawPadButton::West => GamepadButton::West,
        RawPadButton::North => GamepadButton::North,
        RawPadButton::LeftTrigger => GamepadButton::LeftBumper,
        RawPadButton::RightTrigger => GamepadButton::RightBumper,
        RawPadButton::LeftTrigger2 => GamepadButton::LeftTrigger,
        RawPadButton::RightTrigger2 => GamepadButton::RightTrigger,
        RawPadButton::Select => GamepadButton::Select,
        RawPadButton::Start => GamepadButton::Start,
        RawPadButton::Mode => GamepadButton::Mode,
        RawPadButton::LeftThumb => GamepadButton::LeftStick,
        RawPadButton::RightThumb => GamepadButton::RightStick,
        RawPadButton::DPadUp => GamepadButton::DpadUp,
        RawPadButton::DPadDown => GamepadButton::DpadDown,
        RawPadButton::DPadLeft => GamepadButton::DpadLeft,
        RawPadButton::DPadRight => GamepadButton::DpadRight,
        _ => GamepadButton::Other(UNNAMED_CONTROL),
    }
}

/// Translates a gamepad button.
pub fn convert_gilrs_button(button: RawPadButton) -> (r: GamepadButton)
    ensures
        r == gamepad_button_of(button),
{
    match button {
        RawPadButton::South => GamepadButton::South,
        RawPadButton::East => GamepadButton::East,
        RawPadButton::West => GamepadButton::West,
        RawPadButton::North => GamepadButton::North,
        RawPadButton::LeftTrigger => GamepadButton::LeftBumper,
        RawPadButton::RightTrigger => GamepadButton::RightBumper,
        RawPadButton::LeftTrigger2 => GamepadButton::LeftTrigger,
        RawPadButton::RightTrigger2 => GamepadButton::RightTrigger,
        RawPadButton::Select => GamepadButton::Select,
        RawPadButton::Start => GamepadButton::Start,
        RawPadButton::Mode => GamepadButton::Mode,
        RawPadButton::LeftThumb => GamepadButton::LeftStick,
        RawPadButton::RightThumb => GamepadButton::RightStick,
        RawPadButton::DPadUp => GamepadButton::DpadUp,
        RawPadButton::DPadDown => GamepadButton::DpadDown,
        RawPadButton::DPadLeft => GamepadButton::DpadLeft,
        RawPadButton::DPadRight => GamepadButton::DpadRight,
        _ => GamepadButton::Other(UNNAMED_CONTROL),
    }
}

/// The gamepad axis of the model that a raw axis stands for. The analog
/// triggers come as the third axis of each side. An axis without a name in the
/// model becomes `Other(255)`.
pub open spec fn gamepad_axis_of(axis: RawPadAxis) -> GamepadAxis {
    match axis {
        RawPadAxis::LeftStickX => GamepadAxis::LeftStickX,
        RawPadAxis::LeftStickY => GamepadAxis::LeftStickY,
        RawPadAxis::RightStickX => GamepadAxis::RightStickX,
        RawPadAxis::RightStickY => GamepadAxis::RightStickY,
        RawPadAxis::LeftZ => GamepadAxis::LeftTrigger,
        RawPadAxis::RightZ => GamepadAxis::RightTrigger,
        _ => GamepadAxis::Other(UNNAMED_CONTROL),
    }
}

/// Translates a gamepad axis.
pub fn convert_gilrs_axis(axis: RawPadAxis) -> (r: GamepadAxis)
    ensures
        r == gamepad_axis_of(axis),
{
    match axis {
        RawPadAxis::LeftStickX => GamepadAxis::LeftStickX,
        RawPadAxis::LeftStickY => GamepadAxis::LeftStickY,
        RawPadAxis::RightStickX => GamepadAxis::RightStickX,
        RawPadAxis::RightStickY => GamepadAxis::RightStickY,
        RawPadAxis::LeftZ => GamepadAxis::LeftTrigger,
        RawPadAxis::RightZ => GamepadAxis::RightTrigger,
        _ => GamepadAxis::Other(UNNAMED_CONTROL),
    }
}

/// The key code of the model that a raw key code stands for: the code of the
/// same name where the model has one, else `Unidentified`.
pub open spec fn named_key_of(code: RawKeyCode) -> KeyCode {
    match code {
        RawKeyCode::Backquote => KeyCode::Backquote,
        RawKeyCode::Backslash => KeyCode::Backslash,
        RawKeyCode::BracketLeft => KeyCode::BracketLeft,
        RawKeyCode::BracketRight => KeyCode::BracketRight,
        RawKeyCode::Comma => KeyCode::Comma,
        RawKeyCode::Digit0 => KeyCode::Digit0,
        RawKeyCode::Digit1 => KeyCode::Digit1,
        RawKeyCode::Digit2 => KeyCode::Digit2,
        RawKeyCode::Digit3 => KeyCode::Digit3,
        RawKeyCode::Digit4 => KeyCode::Digit4,
        RawKeyCode::Digit5 => KeyCode::Digit5,
        RawKeyCode::Digit6 => KeyCode::Digit6,
        RawKeyCode::Digit7 => KeyCode::Digit7,
        RawKeyCode::Digit8 => KeyCode::Digit8,
        RawKeyCode::Digit9 => KeyCode::Digit9,
        RawKeyCode::Equal => KeyCode::Equal,
        RawKeyCode::IntlBackslash => KeyCode::IntlBackslash,
        RawKeyCode::IntlRo => KeyCode::IntlRo,
        RawKeyCode::IntlYen => KeyCode::IntlYen,
        RawKeyCode::KeyA => KeyCode::KeyA,
        RawKeyCode::KeyB => KeyCode::KeyB,
        RawKeyCode::KeyC => KeyCode::KeyC,
        RawKeyCode::KeyD => KeyCode::KeyD,
        RawKeyCode::KeyE => KeyCode::KeyE,
        RawKeyCode::KeyF => KeyCode::KeyF,
        RawKeyCode::KeyG => KeyCode::KeyG,
        RawKeyCode::KeyH => KeyCode::KeyH,
        RawKeyCode::KeyI => KeyCode::KeyI,
        RawKeyCode::KeyJ => KeyCode::KeyJ,
        RawKeyCode::KeyK => KeyCode::KeyK,
        RawKeyCode::KeyL => KeyCode::KeyL,
        RawKeyCode::KeyM => KeyCode::KeyM,
        RawKeyCode::KeyN => KeyCode::KeyN,
        RawKeyCode::KeyO => KeyCode::KeyO,
        RawKeyCode::KeyP => KeyCode::KeyP,
        RawKeyCode::KeyQ => KeyCode::KeyQ,
        RawKeyCode::KeyR => KeyCode::KeyR,
        RawKeyCode::KeyS => KeyCode::KeyS,
        RawKeyCode::KeyT => KeyCode::KeyT,
        RawKeyCode::KeyU => KeyCode::KeyU,
        RawKeyCode::KeyV => KeyCode::KeyV,
        RawKeyCode::KeyW => KeyCode::KeyW,
        RawKeyCode::KeyX => KeyCode::KeyX,
        RawKeyCode::KeyY => KeyCode::KeyY,
        RawKeyCode::KeyZ => KeyCode::KeyZ,
        RawKeyCode::Minus => KeyCode::Minus,
        RawKeyCode::Period => KeyCode::Period,
        RawKeyCode::Quote => KeyCode::Quote,
        RawKeyCode::Semicolon => KeyCode::Semicolon,
        RawKeyCode::Slash => KeyCode::Slash,
        RawKeyCode::AltLeft => KeyCode::AltLeft,
        RawKeyCode::AltRight => KeyCode::AltRight,
        RawKeyCode::Backspace => KeyCode::Backspace,
        RawKeyCode::CapsLock => KeyCode::CapsLock,
        RawKeyCode::ContextMenu => KeyCode::ContextMenu,
        RawKeyCode::ControlLeft => KeyCode::ControlLeft,
        RawKeyCode::ControlRight => KeyCode::ControlRight,
        RawKeyCode::Enter => KeyCode::Enter,
        RawKeyCode::SuperLeft => KeyCode::SuperLeft,
        RawKeyCode::SuperRight => KeyCode::SuperRight,
        RawKeyCode::ShiftLeft => KeyCode::ShiftLeft,
        RawKeyCode::ShiftRight => KeyCode::ShiftRight,
        RawKeyCode::Space => KeyCode::Space,
        RawKeyCode::Tab => KeyCode::Tab,
        RawKeyCode::Delete => KeyCode::Delete,
        RawKeyCode::End => KeyCode::End,
        RawKeyCode::Help => KeyCode::Help,
        RawKeyCode::Home => KeyCode::Home,
        RawKeyCode::Insert => KeyCode::Insert,
        RawKeyCode::PageDown => KeyCode::PageDown,
        RawKeyCode::PageUp => KeyCode::PageUp,
        RawKeyCode::ArrowDown => KeyCode::ArrowDown,
        RawKeyCode::ArrowLeft => KeyCode::ArrowLeft,
        RawKeyCode::ArrowRight => KeyCode::ArrowRight,
        RawKeyCode::ArrowUp => KeyCode::ArrowUp,
        RawKeyCode::NumLock => KeyCode::NumLock,
        RawKeyCode::Numpad0 => KeyCode::Numpad0,
        RawKeyCode::Numpad1 => KeyCode::Numpad1,
        RawKeyCode::Numpad2 => KeyCode::Numpad2,
        RawKeyCode::Numpad3 => KeyCode::Numpad3,
        RawKeyCode::Numpad4 => KeyCode::Numpad4,
        RawKeyCode::Numpad5 => KeyCode::Numpad5,
        RawKeyCode::Numpad6 => KeyCode::Numpad6,
        RawKeyCode::Numpad7 => KeyCode::Numpad7,
        RawKeyCode::Numpad8 => KeyCode::Numpad8,
        RawKeyCode::Numpad9 => KeyCode::Numpad9,
        RawKeyCode::NumpadAdd => KeyCode::NumpadAdd,
        RawKeyCode::NumpadBackspace => KeyCode::NumpadBackspace,
        RawKeyCode::NumpadClear => KeyCode::NumpadClear,
        RawKeyCode::NumpadClearEntry => KeyCode::NumpadClearEntry,
        RawKeyCode::NumpadComma => KeyCode::NumpadComma,
        RawKeyCode::NumpadDecimal => KeyCode::NumpadDecimal,
        RawKeyCode::NumpadDivide => KeyCode::NumpadDivide,
        RawKeyCode::NumpadEnter => KeyCode::NumpadEnter,
        RawKeyCode::NumpadEqual => KeyCode::NumpadEqual,
        RawKeyCode::NumpadHash => KeyCode::NumpadHash,
        RawKeyCode::NumpadMemoryAdd => KeyCode::NumpadMemoryAdd,
        RawKeyCode::NumpadMemoryClear => KeyCode::NumpadMemoryClear,
        RawKeyCode::NumpadMemoryRecall => KeyCode::NumpadMemoryRecall,
        RawKeyCode::NumpadMemoryStore => KeyCode::NumpadMemoryStore,
        RawKeyCode::NumpadMemorySubtract => KeyCode::NumpadMemorySubtract,
        RawKeyCode::NumpadMultiply => KeyCode::NumpadMultiply,
        RawKeyCode::NumpadParenLeft => KeyCode::NumpadParenLeft,
        RawKeyCode::NumpadParenRight => KeyCode::NumpadParenRight,
        RawKeyCode::NumpadStar => KeyCode::NumpadStar,
        RawKeyCode::NumpadSubtract => KeyCode::NumpadSubtract,
        RawKeyCode::Escape => KeyCode::Escape,
        RawKeyCode::F1 => KeyCode::F1,
        RawKeyCode::F2 => KeyCode::F2,
        RawKeyCode::F3 => KeyCode::F3,
        RawKeyCode::F4 => KeyCode::F4,
        RawKeyCode::F5 => KeyCode::F5,
        RawKeyCode::F6 => KeyCode::F6,
        RawKeyCode::F7 => KeyCode::F7,
        RawKeyCode::F8 => KeyCode::F8,
        RawKeyCode::F9 => KeyCode::F9,
        RawKeyCode::F10 => KeyCode::F10,
        RawKeyCode::F11 => KeyCode::F11,
        RawKeyCode::F12 => KeyCode::F12,
        RawKeyCode::F13 => KeyCode::F13,
        RawKeyCode::F14 => KeyCode::F14,
        RawKeyCode::F15 => KeyCode::F15,
        RawKeyCode::F16 => KeyCode::F16,
        RawKeyCode::F17 => KeyCode::F17,
        RawKeyCode::F18 => KeyCode::F18,
        RawKeyCode::F19 => KeyCode::F19,
        RawKeyCode::F20 => KeyCode::F20,
        RawKeyCode::F21 => KeyCode::F21,
        RawKeyCode::F22 => KeyCode::F22,
        RawKeyCode::F23 => KeyCode::F23,
        RawKeyCode::F24 => KeyCode::F24,
        RawKeyCode::ScrollLock => KeyCode::ScrollLock,
        RawKeyCode::AudioVolumeDown => KeyCode::AudioVolumeDown,
        RawKeyCode::AudioVolumeMute => KeyCode::AudioVolumeMute,
        RawKeyCode::AudioVolumeUp => KeyCode::AudioVolumeUp,
        RawKeyCode::MediaPlayPause => KeyCode::MediaPlayPause,
        RawKeyCode::MediaStop => KeyCode::MediaStop,
        RawKeyCode::MediaTrackNext => KeyCode::MediaTrackNext,
        RawKeyCode::MediaTrackPrevious => KeyCode::MediaTrackPrevious,
        RawKeyCode::BrowserBack => KeyCode::BrowserBack,
        RawKeyCode::BrowserFavorites => KeyCode::BrowserFavorites,
        RawKeyCode::BrowserForward => KeyCode::BrowserForward,
        RawKeyCode::BrowserHome => KeyCode::BrowserHome,
        RawKeyCode::BrowserRefresh => KeyCode::BrowserRefresh,
        RawKeyCode::BrowserSearch => KeyCode::BrowserSearch,
        RawKeyCode::BrowserStop => KeyCode::BrowserStop,
        RawKeyCode::PrintScreen => KeyCode::PrintScreen,
        RawKeyCode::Pause => KeyCode::Pause,
        _ => KeyCode::Unidentified,
    }
}

/// Translates a key code.
fn convert_named_key(code: RawKeyCode) -> (r: KeyCode)
    ensures
        r == named_key_of(code),
{
    match code {
        RawKeyCode::Backquote => KeyCode::Backquote,
        RawKeyCode::Backslash => KeyCode::Backslash,
        RawKeyCode::BracketLeft => KeyCode::BracketLeft,
        RawKeyCode::BracketRight => KeyCode::BracketRight,
        RawKeyCode::Comma => KeyCode::Comma,
        RawKeyCode::Digit0 => KeyCode::Digit0,
        RawKeyCode::Digit1 => KeyCode::Digit1,
        RawKeyCode::Digit2 => KeyCode::Digit2,
        RawKeyCode::Digit3 => KeyCode::Digit3,
        RawKeyCode::Digit4 => KeyCode::Digit4,
        RawKeyCode::Digit5 => KeyCode::Digit5,
        RawKeyCode::Digit6 => KeyCode::Digit6,
        RawKeyCode::Digit7 => KeyCode::Digit7,
        RawKeyCode::Digit8 => KeyCode::Digit8,
        RawKeyCode::Digit9 => KeyCode::Digit9,
        RawKeyCode::Equal => KeyCode::Equal,
        RawKeyCode::IntlBackslash => KeyCode::IntlBackslash,
        RawKeyCode::IntlRo => KeyCode::IntlRo,
        RawKeyCode::IntlYen => KeyCode::IntlYen,
        RawKeyCode::KeyA => KeyCode::KeyA,
        RawKeyCode::KeyB => KeyCode::KeyB,
        RawKeyCode::KeyC => KeyCode::KeyC,
        RawKeyCode::KeyD => KeyCode::KeyD,
        RawKeyCode::KeyE => KeyCode::KeyE,
        RawKeyCode::KeyF => KeyCode::KeyF,
        RawKeyCode::KeyG => KeyCode::KeyG,
        RawKeyCode::KeyH => KeyCode::KeyH,
        RawKeyCode::KeyI => KeyCode::KeyI,
        RawKeyCode::KeyJ => KeyCode::KeyJ,
        RawKeyCode::KeyK => KeyCode::KeyK,
        RawKeyCode::KeyL => KeyCode::KeyL,
        RawKeyCode::KeyM => KeyCode::KeyM,
        RawKeyCode::KeyN => KeyCode::KeyN,
        RawKeyCode::KeyO => KeyCode::KeyO,
        RawKeyCode::KeyP => KeyCode::KeyP,
        RawKeyCode::KeyQ => KeyCode::KeyQ,
        RawKeyCode::KeyR => KeyCode::KeyR,
        RawKeyCode::KeyS => KeyCode::KeyS,
        RawKeyCode::KeyT => KeyCode::KeyT,
        RawKeyCode::KeyU => KeyCode::KeyU,
        RawKeyCode::KeyV => KeyCode::KeyV,
        RawKeyCode::KeyW => KeyCode::KeyW,
        RawKeyCode::KeyX => KeyCode::KeyX,
        RawKeyCode::KeyY => KeyCode::KeyY,
        RawKeyCode::KeyZ => KeyCode::KeyZ,
        RawKeyCode::Minus => KeyCode::Minus,
        RawKeyCode::Period => KeyCode::Period,
        RawKeyCode::Quote => KeyCode::Quote,
        RawKeyCode::Semicolon => KeyCode::Semicolon,
        RawKeyCode::Slash => KeyCode::Slash,
        RawKeyCode::AltLeft => KeyCode::AltLeft,
        RawKeyCode::AltRight => KeyCode::AltRight,
        RawKeyCode::Backspace => KeyCode::Backspace,
        RawKeyCode::CapsLock => KeyCode::CapsLock,
        RawKeyCode::ContextMenu => KeyCode::ContextMenu,
        RawKeyCode::ControlLeft => KeyCode::ControlLeft,
        RawKeyCode::ControlRight => KeyCode::ControlRight,
        RawKeyCode::Enter => KeyCode::Enter,
        RawKeyCode::SuperLeft => KeyCode::SuperLeft,
        RawKeyCode::SuperRight => KeyCode::SuperRight,
        RawKeyCode::ShiftLeft => KeyCode::ShiftLeft,
        RawKeyCode::ShiftRight => KeyCode::ShiftRight,
        RawKeyCode::Space => KeyCode::Space,
        RawKeyCode::Tab => KeyCode::Tab,
        RawKeyCode::Delete => KeyCode::Delete,
        RawKeyCode::End => KeyCode::End,
        RawKeyCode::Help => KeyCode::Help,
        RawKeyCode::Home => KeyCode::Home,
        RawKeyCode::Insert => KeyCode::Insert,
        RawKeyCode::PageDown => KeyCode::PageDown,
        RawKeyCode::PageUp => KeyCode::PageUp,
        RawKeyCode::ArrowDown => KeyCode::ArrowDown,
        RawKeyCode::ArrowLeft => KeyCode::ArrowLeft,
        RawKeyCode::ArrowRight => KeyCode::ArrowRight,
        RawKeyCode::ArrowUp => KeyCode::ArrowUp,
        RawKeyCode::NumLock => KeyCode::NumLock,
        RawKeyCode::Numpad0 => KeyCode::Numpad0,
        RawKeyCode::Numpad1 => KeyCode::Numpad1,
        RawKeyCode::Numpad2 => KeyCode::Numpad2,
        RawKeyCode::Numpad3 => KeyCode::Numpad3,
        RawKeyCode::Numpad4 => KeyCode::Numpad4,
        RawKeyCode::Numpad5 => KeyCode::Numpad5,
        RawKeyCode::Numpad6 => KeyCode::Numpad6,
        RawKeyCode::Numpad7 => KeyCode::Numpad7,
        RawKeyCode::Numpad8 => KeyCode::Numpad8,
        RawKeyCode::Numpad9 => KeyCode::Numpad9,
        RawKeyCode::NumpadAdd => KeyCode::NumpadAdd,
        RawKeyCode::NumpadBackspace => KeyCode::NumpadBackspace,
        RawKeyCode::NumpadClear => KeyCode::NumpadClear,
        RawKeyCode::NumpadClearEntry => KeyCode::NumpadClearEntry,
        RawKeyCode::NumpadComma => KeyCode::NumpadComma,
        RawKeyCode::NumpadDecimal => KeyCode::NumpadDecimal,
        RawKeyCode::NumpadDivide => KeyCode::NumpadDivide,
        RawKeyCode::NumpadEnter => KeyCode::NumpadEnter,
        RawKeyCode::NumpadEqual => KeyCode::NumpadEqual,
        RawKeyCode::NumpadHash => KeyCode::NumpadHash,
        RawKeyCode::NumpadMemoryAdd => KeyCode::NumpadMemoryAdd,
        RawKeyCode::NumpadMemoryClear => KeyCode::NumpadMemoryClear,
        RawKeyCode::NumpadMemoryRecall => KeyCode::NumpadMemoryRecall,
        RawKeyCode::NumpadMemoryStore => KeyCode::NumpadMemoryStore,
        RawKeyCode::NumpadMemorySubtract => KeyCode::NumpadMemorySubtract,
        RawKeyCode::NumpadMultiply => KeyCode::NumpadMultiply,
        RawKeyCode::NumpadParenLeft => KeyCode::NumpadParenLeft,
        RawKeyCode::NumpadParenRight => KeyCode::NumpadParenRight,
        RawKeyCode::NumpadStar => KeyCode::NumpadStar,
        RawKeyCode::NumpadSubtract => KeyCode::NumpadSubtract,
        RawKeyCode::Escape => KeyCode::Escape,
        RawKeyCode::F1 => KeyCode::F1,
        RawKeyCode::F2 => KeyCode::F2,
        RawKeyCode::F3 => KeyCode::F3,
        RawKeyCode::F4 => KeyCode::F4,
        RawKeyCode::F5 => KeyCode::F5,
        RawKeyCode::F6 => KeyCode::F6,
        RawKeyCode::F7 => KeyCode::F7,
        RawKeyCode::F8 => KeyCode::F8,
        RawKeyCode::F9 => KeyCode::F9,
        RawKeyCode::F10 => KeyCode::F10,
        RawKeyCode::F11 => KeyCode::F11,
        RawKeyCode::F12 => KeyCode::F12,
        RawKeyCode::F13 => KeyCode::F13,
        RawKeyCode::F14 => KeyCode::F14,
        RawKeyCode::F15 => KeyCode::F15,
        RawKeyCode::F16 => KeyCode::F16,
        RawKeyCode::F17 => KeyCode::F17,
        RawKeyCode::F18 => KeyCode::F18,
        RawKeyCode::F19 => KeyCode::F19,
        RawKeyCode::F20 => KeyCode::F20,
        RawKeyCode::F21 => KeyCode::F21,
        RawKeyCode::F22 => KeyCode::F22,
        RawKeyCode::F23 => KeyCode::F23,
        RawKeyCode::F24 => KeyCode::F24,
        RawKeyCode::ScrollLock => KeyCode::ScrollLock,
        RawKeyCode::AudioVolumeDown => KeyCode::AudioVolumeDown,
        RawKeyCode::AudioVolumeMute => KeyCode::AudioVolumeMute,
        RawKeyCode::AudioVolumeUp => KeyCode::AudioVolumeUp,
        RawKeyCode::MediaPlayPause => KeyCode::MediaPlayPause,
        RawKeyCode::MediaStop => KeyCode::MediaStop,
        RawKeyCode::MediaTrackNext => KeyCode::MediaTrackNext,
        RawKeyCode::MediaTrackPrevious => KeyCode::MediaTrackPrevious,
        RawKeyCode::BrowserBack => KeyCode::BrowserBack,
        RawKeyCode::BrowserFavorites => KeyCode::BrowserFavorites,
        RawKeyCode::BrowserForward => KeyCode::BrowserForward,
        RawKeyCode::BrowserHome => KeyCode::BrowserHome,
        RawKeyCode::BrowserRefresh => KeyCode::BrowserRefresh,
        RawKeyCode::BrowserSearch => KeyCode::BrowserSearch,
        RawKeyCode::BrowserStop => KeyCode::BrowserStop,
        RawKeyCode::PrintScreen => KeyCode::PrintScreen,
        RawKeyCode::Pause => KeyCode::Pause,
        _ => KeyCode::Unidentified,
    }
}

/// The key code of the model that a physical key stands for.
pub open spec fn key_code_of(physical_key: RawPhysicalKey) -> KeyCode {
    match physical_key {
        RawPhysicalKey::Code(code) => named_key_of(code),
        RawPhysicalKey::Unidentified => KeyCode::Unidentified,
    }
}

/// Translates a physical key.
pub fn convert_key_code(physical_key: &RawPhysicalKey) -> (r: KeyCode)
    ensures
        r == key_code_of(*physical_key),
{
    match physical_key {
        RawPhysicalKey::Code(code) => convert_named_key(*code),
        RawPhysicalKey::Unidentified => KeyCode::Unidentified,
    }
}

/// The tables keep apart what the collaborators keep apart, as far as the
/// model has names: two raw values that get the same name of the model are
/// the same value, unless the name is the one for what the model cannot
/// name. Of the mouse buttons beyond the five named ones, those whose numbers
/// agree in the low eight bits fall together, and no others.
pub proof fn law_tables_keep_names_apart(
    phase: (RawTouchPhase, RawTouchPhase),
    location: (RawKeyLocation, RawKeyLocation),
    mouse: (RawMouseButton, RawMouseButton),
    button: (RawPadButton, RawPadButton),
    axis: (RawPadAxis, RawPadAxis),
    key: (RawKeyCode, RawKeyCode),
)
    ensures
        touch_phase_of(phase.0) == touch_phase_of(phase.1) ==> phase.0 == phase.1,
        key_location_of(location.0) == key_location_of(location.1) ==> location.0 == location.1,
        mouse_button_of(mouse.0) == mouse_button_of(mouse.1) ==> mouse.0 == mouse.1 || (
        mouse.0 matches RawMouseButton::Other(a) && mouse.1 matches RawMouseButton::Other(b) && a
            % 256 == b % 256),
        gamepad_button_of(button.0) == gamepad_button_of(button.1) ==> button.0 == button.1
            || gamepad_button_of(button.0) == GamepadButton::Other(UNNAMED_CONTROL),
        gamepad_axis_of(axis.0) == gamepad_axis_of(axis.1) ==> axis.0 == axis.1 || gamepad_axis_of(
            axis.0,
        ) == GamepadAxis::Other(UNNAMED_CONTROL),
        named_key_of(key.0) == named_key_of(key.1) ==> key.0 == key.1 || named_key_of(key.0)
            == KeyCode::Unidentified,
{
}

} // verus!
