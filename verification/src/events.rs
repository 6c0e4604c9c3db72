//! The event model: what the core tells the host, as tagged data.
//!
//! Events come in six families: window, pointer, keyboard, gamepad, joystick
//! and system. Each carries the identifier of the window or device it is about
//! and its own payload. The types here are data only.

use vstd::prelude::*;
use crate::units::{Float32, Float64, IVector2, Vector2};

verus! {

/// Whether a key or a button is held down.
#[derive(Debug, Clone, Copy, PartialEq, Eq, Structural)]
pub enum ElementState {
    Released,
    Pressed,
}

/// Where a touch, a scroll or a gesture stands in its course.
#[derive(Debug, Clone, Copy, PartialEq, Eq, Structural)]
pub enum TouchPhase {
    Started,
    Moved,
    Ended,
    Cancelled,
}

/// Which keyboard modifiers are held down.
#[derive(Debug, Clone, Copy, PartialEq, Eq, Structural)]
pub struct ModifiersState {
    pub shift: bool,
    pub ctrl: bool,
    pub alt: bool,
    pub meta: bool,
}

impl ModifiersState {
    /// No modifier held.
    pub open spec fn none() -> ModifiersState {
        ModifiersState { shift: false, ctrl: false, alt: false, meta: false }
    }
}

impl Default for ModifiersState {
    fn default() -> (r: ModifiersState)
        ensures
            r == ModifiersState::none(),
    {
        ModifiersState { shift: false, ctrl: false, alt: false, meta: false }
    }
}

/// Events about a window.
#[derive(Debug, Clone, PartialEq, Eq)]
pub enum WindowEvent {
    /// The window exists now.
    OnCreate { window_id: u32 },
    /// The window has a new size.
    OnResize { window_id: u32, width: u32, height: u32 },
    /// The window has a new position.
    OnMove { window_id: u32, position: IVector2 },
    /// The user asked to close the window.
    OnCloseRequest { window_id: u32 },
    /// The window is gone.
    OnDestroy { window_id: u32 },
    /// The window gained or lost the focus.
    OnFocus { window_id: u32, focused: bool },
    /// The scale factor of the window changed.
    OnScaleFactorChange { window_id: u32, scale_factor: Float64, new_width: u32, new_height: u32 },
    /// The window became hidden from view, or visible again.
    OnOcclude { window_id: u32, occluded: bool },
    /// The window wants to be drawn again.
    OnRedrawRequest { window_id: u32 },
    /// A file was dropped into the window.
    OnFileDrop { window_id: u32, path: String },
    /// A file hovers over the window.
    OnFileHover { window_id: u32, path: String },
    /// The hovering file left the window.
    OnFileHoverCancel { window_id: u32 },
    /// The theme of the system changed.
    OnThemeChange { window_id: u32, dark_mode: bool },
}

impl WindowEvent {
    /// The window that the event is about.
    pub open spec fn window(self) -> u32 {
        match self {
            WindowEvent::OnCreate { window_id } => window_id,
            WindowEvent::OnResize { window_id, .. } => window_id,
            WindowEvent::OnMove { window_id, .. } => window_id,
            WindowEvent::OnCloseRequest { window_id } => window_id,
            WindowEvent::OnDestroy { window_id } => window_id,
            WindowEvent::OnFocus { window_id, .. } => window_id,
            WindowEvent::OnScaleFactorChange { window_id, .. } => window_id,
            WindowEvent::OnOcclude { window_id, .. } => window_id,
            WindowEvent::OnRedrawRequest { window_id } => window_id,
            WindowEvent::OnFileDrop { window_id, .. } => window_id,
            WindowEvent::OnFileHover { window_id, .. } => window_id,
            WindowEvent::OnFileHoverCancel { window_id } => window_id,
            WindowEvent::OnThemeChange { window_id, .. } => window_id,
        }
    }
}

/// A button of a mouse.
#[derive(Debug, Clone, Copy, PartialEq, Eq, Structural)]
pub enum MouseButton {
    Left,
    Right,
    Middle,
    Back,
    Forward,
    Other(u8),
}

/// The kind of device behind a pointer.
#[derive(Debug, Clone, Copy, PartialEq, Eq, Structural)]
pub enum PointerType {
    Mouse,
    Touch,
    Pen,
}

/// How far a scroll went.
#[derive(Debug, Clone, Copy, PartialEq, Eq)]
pub enum ScrollDelta {
    /// In lines, as a mouse wheel reports it.
    Line(Vector2),
    /// In pixels, as a touchpad reports it.
    Pixel(Vector2),
}

/// Events about a pointer, be it a mouse or a touch.
#[derive(Debug, Clone, PartialEq, Eq)]
pub enum PointerEvent {
    /// The pointer moved.
    OnMove { window_id: u32, pointer_type: PointerType, pointer_id: u64, position: Vector2 },
    /// The pointer entered the window.
    OnEnter { window_id: u32, pointer_type: PointerType, pointer_id: u64 },
    /// The pointer left the window.
    OnLeave { window_id: u32, pointer_type: PointerType, pointer_id: u64 },
    /// A button went down or up.
    OnButton {
        window_id: u32,
        pointer_type: PointerType,
        pointer_id: u64,
        button: MouseButton,
        state: ElementState,
        position: Vector2,
    },
    /// A wheel or a touchpad scrolled.
    OnScroll { window_id: u32, delta: ScrollDelta, phase: TouchPhase },
    /// A finger touched the surface.
    OnTouch {
        window_id: u32,
        pointer_id: u64,
        phase: TouchPhase,
        position: Vector2,
        pressure: Option<Float32>,
    },
    /// Two fingers pinched.
    OnPinchGesture { window_id: u32, delta: Float64, phase: TouchPhase },
    /// Fingers panned.
    OnPanGesture { window_id: u32, delta: Vector2, phase: TouchPhase },
    /// Fingers rotated.
    OnRotationGesture { window_id: u32, delta: Float32, phase: TouchPhase },
    /// A double tap.
    OnDoubleTapGesture { window_id: u32 },
}

impl PointerEvent {
    /// The window that the event is about.
    pub open spec fn window(self) -> u32 {
        match self {
            PointerEvent::OnMove { window_id, .. } => window_id,
            PointerEvent::OnEnter { window_id, .. } => window_id,
            PointerEvent::OnLeave { window_id, .. } => window_id,
            PointerEvent::OnButton { window_id, .. } => window_id,
            PointerEvent::OnScroll { window_id, .. } => window_id,
            PointerEvent::OnTouch { window_id, .. } => window_id,
            PointerEvent::OnPinchGesture { window_id, .. } => window_id,
            PointerEvent::OnPanGesture { window_id, .. } => window_id,
            PointerEvent::OnRotationGesture { window_id, .. } => window_id,
            PointerEvent::OnDoubleTapGesture { window_id } => window_id,
        }
    }
}

/// Where on the keyboard a key sits.
#[derive(Debug, Clone, Copy, PartialEq, Eq, Structural)]
pub enum KeyLocation {
    Standard,
    Left,
    Right,
    Numpad,
}

/// A physical key, named by its place and not by what the layout prints on it.
#[derive(Debug, Clone, Copy, PartialEq, Eq, Structural)]
pub enum KeyCode {
    // Writing system keys
    Backquote,
    Backslash,
    BracketLeft,
    BracketRight,
    Comma,
    Digit0,
    Digit1,
    Digit2,
    Digit3,
    Digit4,
    Digit5,
    Digit6,
    Digit7,
    Digit8,
    Digit9,
    Equal,
    IntlBackslash,
    IntlRo,
    IntlYen,
    KeyA,
    KeyB,
    KeyC,
    KeyD,
    KeyE,
    KeyF,
    KeyG,
    KeyH,
    KeyI,
    KeyJ,
    KeyK,
    KeyL,
    KeyM,
    KeyN,
    KeyO,
    KeyP,
    KeyQ,
    KeyR,
    KeyS,
    KeyT,
    KeyU,
    KeyV,
    KeyW,
    KeyX,
    KeyY,
    KeyZ,
    Minus,
    Period,
    Quote,
    Semicolon,
    Slash,
    // Functional keys
    AltLeft,
    AltRight,
    Backspace,
    CapsLock,
    ContextMenu,
    ControlLeft,
    ControlRight,
    Enter,
    SuperLeft,
    SuperRight,
    ShiftLeft,
    ShiftRight,
    Space,
    Tab,
    // Control keys
    Delete,
    End,
    Help,
    Home,
    Insert,
    PageDown,
    PageUp,
    // Arrow keys
    ArrowDown,
    ArrowLeft,
    ArrowRight,
    ArrowUp,
    // Numpad keys
    NumLock,
    Numpad0,
    Numpad1,
    Numpad2,
    Numpad3,
    Numpad4,
    Numpad5,
    Numpad6,
    Numpad7,
    Numpad8,
    Numpad9,
    NumpadAdd,
    NumpadBackspace,
    NumpadClear,
    NumpadClearEntry,
    NumpadComma,
    NumpadDecimal,
    NumpadDivide,
    NumpadEnter,
    NumpadEqual,
    NumpadHash,
    NumpadMemoryAdd,
    NumpadMemoryClear,
    NumpadMemoryRecall,
    NumpadMemoryStore,
    NumpadMemorySubtract,
    NumpadMultiply,
    NumpadParenLeft,
    NumpadParenRight,
    NumpadStar,
    NumpadSubtract,
    // Function keys
    Escape,
    F1,
    F2,
    F3,
    F4,
    F5,
    F6,
    F7,
    F8,
    F9,
    F10,
    F11,
    F12,
    F13,
    F14,
    F15,
    F16,
    F17,
    F18,
    F19,
    F20,
    F21,
    F22,
    F23,
    F24,
    // Lock keys
    ScrollLock,
    // Media keys
    AudioVolumeDown,
    AudioVolumeMute,
    AudioVolumeUp,
    MediaPlayPause,
    MediaStop,
    MediaTrackNext,
    MediaTrackPrevious,
    // Browser keys
    BrowserBack,
    BrowserFavorites,
    BrowserForward,
    BrowserHome,
    BrowserRefresh,
    BrowserSearch,
    BrowserStop,
    // System keys
    PrintScreen,
    Pause,
    // A key that the model has no name for
    Unidentified,
}

/// Events about the keyboard.
#[derive(Debug, Clone, PartialEq, Eq)]
pub enum KeyboardEvent {
    /// A key went down or up.
    OnInput {
        window_id: u32,
        key_code: KeyCode,
        state: ElementState,
        location: KeyLocation,
        repeat: bool,
        text: Option<String>,
        modifiers: ModifiersState,
    },
    /// The modifiers held down changed.
    OnModifiersChange { window_id: u32, modifiers: ModifiersState },
    /// Text composition became available.
    OnImeEnable { window_id: u32 },
    /// Text composition is under way.
    OnImePreedit { window_id: u32, text: String, cursor_range: Option<(usize, usize)> },
    /// Text composition delivered its text.
    OnImeCommit { window_id: u32, text: String },
    /// Text composition is no longer available.
    OnImeDisable { window_id: u32 },
}

impl KeyboardEvent {
    /// The window that the event is about.
    pub open spec fn window(self) -> u32 {
        match self {
            KeyboardEvent::OnInput { window_id, .. } => window_id,
            KeyboardEvent::OnModifiersChange { window_id, .. } => window_id,
            KeyboardEvent::OnImeEnable { window_id } => window_id,
            KeyboardEvent::OnImePreedit { window_id, .. } => window_id,
            KeyboardEvent::OnImeCommit { window_id, .. } => window_id,
            KeyboardEvent::OnImeDisable { window_id } => window_id,
        }
    }
}

/// A button of a gamepad, in the standard layout.
#[derive(Debug, Clone, Copy, PartialEq, Eq, Structural)]
pub enum GamepadButton {
    // Face buttons
    South,
    East,
    West,
    North,
    // Shoulder buttons
    LeftBumper,
    RightBumper,
    LeftTrigger,
    RightTrigger,
    // Center buttons
    Select,
    Start,
    Mode,
    // Stick buttons
    LeftStick,
    RightStick,
    // Directional pad
    DpadUp,
    DpadDown,
    DpadLeft,
    DpadRight,
    // Any other button
    Other(u8),
}

/// An axis of a gamepad.
#[derive(Debug, Clone, Copy, PartialEq, Eq, Structural)]
pub enum GamepadAxis {
    LeftStickX,
    LeftStickY,
    RightStickX,
    RightStickY,
    LeftTrigger,
    RightTrigger,
    Other(u8),
}

/// Events about a gamepad.
#[derive(Debug, Clone, PartialEq, Eq)]
pub enum GamepadEvent {
    /// A gamepad was plugged in.
    OnConnect { gamepad_id: u32, name: String },
    /// A gamepad was unplugged.
    OnDisconnect { gamepad_id: u32 },
    /// A button went down or up, or its analog value changed.
    OnButton { gamepad_id: u32, button: GamepadButton, state: ElementState, value: Float32 },
    /// An axis moved.
    OnAxis { gamepad_id: u32, axis: GamepadAxis, value: Float32 },
}

impl GamepadEvent {
    /// The gamepad that the event is about.
    pub open spec fn gamepad(self) -> u32 {
        match self {
            GamepadEvent::OnConnect { gamepad_id, .. } => gamepad_id,
            GamepadEvent::OnDisconnect { gamepad_id } => gamepad_id,
            GamepadEvent::OnButton { gamepad_id, .. } => gamepad_id,
            GamepadEvent::OnAxis { gamepad_id, .. } => gamepad_id,
        }
    }
}

/// Where the hat of a joystick points.
#[derive(Debug, Clone, Copy, PartialEq, Eq, Structural)]
pub enum JoystickHatPosition {
    Centered,
    Up,
    RightUp,
    Right,
    RightDown,
    Down,
    LeftDown,
    Left,
    LeftUp,
}

/// Events about a joystick that follows no standard layout.
#[derive(Debug, Clone, PartialEq, Eq)]
pub enum JoystickEvent {
    /// A joystick was plugged in.
    OnConnect {
        joystick_id: u32,
        name: String,
        axes_count: u32,
        buttons_count: u32,
        hats_count: u32,
    },
    /// A joystick was unplugged.
    OnDisconnect { joystick_id: u32 },
    /// A button went down or up.
    OnButton { joystick_id: u32, button_index: u32, state: ElementState },
    /// An axis moved.
    OnAxis { joystick_id: u32, axis_index: u32, value: Float32 },
    /// The hat moved.
    OnHat { joystick_id: u32, hat_index: u32, position: JoystickHatPosition },
}

/// Events about the application as a whole.
#[derive(Debug, Clone, Copy, PartialEq, Eq, Structural)]
pub enum SystemEvent {
    /// The application runs again after a suspension.
    OnResume,
    /// The application was suspended.
    OnSuspend,
    /// Memory is running low.
    OnMemoryWarning,
    /// The application is about to exit.
    OnExit,
}

} // verus!
