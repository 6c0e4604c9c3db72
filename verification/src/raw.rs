//! Raw notifications, as the collaborators deliver them.
//!
//! The windowing collaborator and the gamepad collaborator each speak in types
//! of their own. The types here say the same in plain values, variant for
//! variant, so that the rules of translation can be stated over them. What a
//! notification carries and the core never reads is left out.
//!
//! Numbers with a fraction arrive as bit patterns, already in the width that
//! the event model carries.

use vstd::prelude::*;
use crate::events::ElementState;
use crate::units::{Float32, Float64, Size, Vector2};

verus! {

/// Where a touch, a scroll or a gesture stands, as the windowing collaborator
/// names it.
#[derive(Debug, Clone, Copy, PartialEq, Eq, Structural)]
pub enum RawTouchPhase {
    Started,
    Moved,
    Ended,
    Cancelled,
}

/// A mouse button, as the windowing collaborator names it.
#[derive(Debug, Clone, Copy, PartialEq, Eq, Structural)]
pub enum RawMouseButton {
    Left,
    Right,
    Middle,
    Back,
    Forward,
    Other(u16),
}

/// Where a key sits, as the windowing collaborator names it.
#[derive(Debug, Clone, Copy, PartialEq, Eq, Structural)]
pub enum RawKeyLocation {
    Standard,
    Left,
    Right,
    Numpad,
}

/// Every key code that the windowing collaborator knows.
#[derive(Debug, Clone, Copy, PartialEq, Eq, Structural)]
pub enum RawKeyCode {
    Backquote,
    Backslash,
    BracketLeft,
    BracketRight,
    Comma,
    Digit0,
    Digit1,
    Digit2,
    Digit3,
    Digit4,
    Digit5,
    Digit6,
    Digit7,
    Digit8,
    Digit9,
    Equal,
    IntlBackslash,
    IntlRo,
    IntlYen,
    KeyA,
    KeyB,
    KeyC,
    KeyD,
    KeyE,
    KeyF,
    KeyG,
    KeyH,
    KeyI,
    KeyJ,
    KeyK,
    KeyL,
    KeyM,
    KeyN,
    KeyO,
    KeyP,
    KeyQ,
    KeyR,
    KeyS,
    KeyT,
    KeyU,
    KeyV,
    KeyW,
    KeyX,
    KeyY,
    KeyZ,
    Minus,
    Period,
    Quote,
    Semicolon,
    Slash,
    AltLeft,
    AltRight,
    Backspace,
    CapsLock,
    ContextMenu,
    ControlLeft,
    ControlRight,
    Enter,
    SuperLeft,
    SuperRight,
    ShiftLeft,
    ShiftRight,
    Space,
    Tab,
    Convert,
    KanaMode,
    Lang1,
    Lang2,
    Lang3,
    Lang4,
    Lang5,
    NonConvert,
    Delete,
    End,
    Help,
    Home,
    Insert,
    PageDown,
    PageUp,
    ArrowDown,
    ArrowLeft,
    ArrowRight,
    ArrowUp,
    NumLock,
    Numpad0,
    Numpad1,
    Numpad2,
    Numpad3,
    Numpad4,
    Numpad5,
    Numpad6,
    Numpad7,
    Numpad8,
    Numpad9,
    NumpadAdd,
    NumpadBackspace,
    NumpadClear,
    NumpadClearEntry,
    NumpadComma,
    NumpadDecimal,
    NumpadDivide,
    NumpadEnter,
    NumpadEqual,
    NumpadHash,
    NumpadMemoryAdd,
    NumpadMemoryClear,
    NumpadMemoryRecall,
    NumpadMemoryStore,
    NumpadMemorySubtract,
    NumpadMultiply,
    NumpadParenLeft,
    NumpadParenRight,
    NumpadStar,
    NumpadSubtract,
    Escape,
    Fn,
    FnLock,
    PrintScreen,
    ScrollLock,
    Pause,
    BrowserBack,
    BrowserFavorites,
    BrowserForward,
    BrowserHome,
    BrowserRefresh,
    BrowserSearch,
    BrowserStop,
    Eject,
    LaunchApp1,
    LaunchApp2,
    LaunchMail,
    MediaPlayPause,
    MediaSelect,
    MediaStop,
    MediaTrackNext,
    MediaTrackPrevious,
    Power,
    Sleep,
    AudioVolumeDown,
    AudioVolumeMute,
    AudioVolumeUp,
    WakeUp,
    Meta,
    Hyper,
    Turbo,
    Abort,
    Resume,
    Suspend,
    Again,
    Copy,
    Cut,
    Find,
    Open,
    Paste,
    Props,
    Select,
    Undo,
    Hiragana,
    Katakana,
    F1,
    F2,
    F3,
    F4,
    F5,
    F6,
    F7,
    F8,
    F9,
    F10,
    F11,
    F12,
    F13,
    F14,
    F15,
    F16,
    F17,
    F18,
    F19,
    F20,
    F21,
    F22,
    F23,
    F24,
    F25,
    F26,
    F27,
    F28,
    F29,
    F30,
    F31,
    F32,
    F33,
    F34,
    F35,
}

/// A physical key: one with a code, or one that the platform could not name.
#[derive(Debug, Clone, Copy, PartialEq, Eq, Structural)]
pub enum RawPhysicalKey {
    Code(RawKeyCode),
    Unidentified,
}

/// The theme of the system.
#[derive(Debug, Clone, Copy, PartialEq, Eq, Structural)]
pub enum RawTheme {
    Light,
    Dark,
}

/// A step of text composition.
#[derive(Debug, Clone, PartialEq, Eq)]
pub enum RawIme {
    Enabled,
    Preedit(String, Option<(usize, usize)>),
    Commit(String),
    Disabled,
}

/// How far a wheel or a touchpad scrolled.
#[derive(Debug, Clone, Copy, PartialEq, Eq)]
pub enum RawScrollDelta {
    /// Lines or rows: horizontal, then vertical.
    LineDelta(Float32, Float32),
    /// Pixels: horizontal, then vertical.
    PixelDelta(Float32, Float32),
}

/// A notification about one window.
#[derive(Debug, Clone, PartialEq, Eq)]
pub enum RawWindowEvent {
    ActivationTokenDone,
    Resized { width: u32, height: u32 },
    Moved { x: i32, y: i32 },
    CloseRequested,
    Destroyed,
    DroppedFile { path: String },
    HoveredFile { path: String },
    HoveredFileCancelled,
    Focused(bool),
    KeyboardInput {
        physical_key: RawPhysicalKey,
        location: RawKeyLocation,
        state: ElementState,
        repeat: bool,
        text: Option<String>,
        is_synthetic: bool,
    },
    ModifiersChanged { shift: bool, control: bool, alt: bool, super_key: bool },
    Ime(RawIme),
    CursorMoved { position: Vector2 },
    CursorEntered,
    CursorLeft,
    MouseWheel { delta: RawScrollDelta, phase: RawTouchPhase },
    MouseInput { state: ElementState, button: RawMouseButton },
    PinchGesture { delta: Float64, phase: RawTouchPhase },
    PanGesture { delta: Vector2, phase: RawTouchPhase },
    DoubleTapGesture,
    RotationGesture { delta: Float32, phase: RawTouchPhase },
    TouchpadPressure,
    AxisMotion,
    /// A finger on a touch screen. `force` is the pressure, brought to the
    /// range from zero to one, where the device reports one.
    Touch { id: u64, phase: RawTouchPhase, location: Vector2, force: Option<Float32> },
    /// The scale factor changed. `inner_size` is the size that the window has
    /// at that moment.
    ScaleFactorChanged { scale_factor: Float64, inner_size: Size },
    ThemeChanged(RawTheme),
    Occluded(bool),
    RedrawRequested,
}

/// A gamepad button, as the gamepad collaborator names it.
#[derive(Debug, Clone, Copy, PartialEq, Eq, Structural)]
pub enum RawPadButton {
    // Action pad
    South,
    East,
    North,
    West,
    C,
    Z,
    // Triggers
    LeftTrigger,
    LeftTrigger2,
    RightTrigger,
    RightTrigger2,
    // Menu pad
    Select,
    Start,
    Mode,
    // Sticks
    LeftThumb,
    RightThumb,
    // Directional pad
    DPadUp,
    DPadDown,
    DPadLeft,
    DPadRight,
    Unknown,
}

/// A gamepad axis, as the gamepad collaborator names it.
#[derive(Debug, Clone, Copy, PartialEq, Eq, Structural)]
pub enum RawPadAxis {
    LeftStickX,
    LeftStickY,
    LeftZ,
    RightStickX,
    RightStickY,
    RightZ,
    DPadX,
    DPadY,
    Unknown,
}

/// What happened on a gamepad.
#[derive(Debug, Clone, PartialEq, Eq)]
pub enum RawPadEventType {
    ButtonPressed(RawPadButton),
    ButtonRepeated(RawPadButton),
    ButtonReleased(RawPadButton),
    ButtonChanged(RawPadButton, Float32),
    AxisChanged(RawPadAxis, Float32),
    /// A gamepad was plugged in; `name` is what it calls itself.
    Connected { name: String },
    Disconnected,
    Dropped,
    ForceFeedbackEffectCompleted,
}

/// A notification about one gamepad.
#[derive(Debug, Clone, PartialEq, Eq)]
pub struct RawPadEvent {
    /// The collaborator's number for the gamepad.
    pub id: usize,
    pub event: RawPadEventType,
}

} // verus!
