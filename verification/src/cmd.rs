//! Commands, events and the envelopes that carry them.
//!
//! An envelope pairs a correlation identifier with a command or an event. The
//! host chooses the identifier of a command; the answer to the command carries
//! the same identifier. An event that answers no command carries zero.

use vstd::prelude::*;
use crate::events::{
    GamepadEvent, JoystickEvent, KeyboardEvent, PointerEvent, SystemEvent, WindowEvent,
};
use crate::units::{IVector2, Size};

verus! {

/// The correlation identifier of an event that answers no command.
pub const UNSOLICITED: u64 = 0;

/// How a window is shown at first.
#[derive(Debug, Clone, Copy, PartialEq, Eq, Structural)]
pub enum EngineWindowState {
    Minimized,
    Maximized,
    Windowed,
    Fullscreen,
    WindowedFullscreen,
}

impl Default for EngineWindowState {
    fn default() -> (r: EngineWindowState)
        ensures
            r == EngineWindowState::Windowed,
    {
        EngineWindowState::Windowed
    }
}

/// The size of a window whose command names none.
pub fn window_size_default() -> (r: Size)
    ensures
        r == [800u32, 600u32],
{
    [800, 600]
}

/// What the host asks of a new window.
#[derive(Debug, Clone, PartialEq, Eq)]
pub struct CmdWindowCreateArgs {
    pub title: String,
    pub size: Size,
    pub position: IVector2,
    pub borderless: bool,
    pub resizable: bool,
    pub always_on_top: bool,
    pub initial_state: EngineWindowState,
}

impl Default for CmdWindowCreateArgs {
    fn default() -> (r: CmdWindowCreateArgs)
        ensures
            r.title@ == Seq::<char>::empty(),
            r.size == [0u32, 0u32],
            r.position == [0i32, 0i32],
            !r.borderless,
            !r.resizable,
            !r.always_on_top,
            r.initial_state == EngineWindowState::Windowed,
    {
        CmdWindowCreateArgs {
            title: String::new(),
            size: [0, 0],
            position: [0, 0],
            borderless: false,
            resizable: false,
            always_on_top: false,
            initial_state: EngineWindowState::Windowed,
        }
    }
}

/// The answer to a command that asks for a window.
#[derive(Debug, Clone, Copy, PartialEq, Eq, Structural)]
pub struct CmdResultWindowCreate {
    /// The identifier of the new window; zero where none was made.
    pub id: u32,
    pub success: bool,
}

impl CmdResultWindowCreate {
    /// The answer that reports a failure.
    pub open spec fn failure() -> CmdResultWindowCreate {
        CmdResultWindowCreate { id: 0, success: false }
    }

    /// The answer that reports the window `id`.
    pub open spec fn created(id: u32) -> CmdResultWindowCreate {
        CmdResultWindowCreate { id, success: true }
    }
}

impl Default for CmdResultWindowCreate {
    fn default() -> (r: CmdResultWindowCreate)
        ensures
            r == CmdResultWindowCreate::failure(),
    {
        CmdResultWindowCreate { id: 0, success: false }
    }
}

/// A command of the host.
#[derive(Debug, Clone, PartialEq, Eq)]
pub enum EngineCmd {
    CmdWindowCreate(CmdWindowCreateArgs),
}

/// An event for the host: a notification of one of the six families, or the
/// answer to a command.
#[derive(Debug, Clone, PartialEq, Eq)]
pub enum EngineEvent {
    Window(WindowEvent),
    Pointer(PointerEvent),
    Keyboard(KeyboardEvent),
    Gamepad(GamepadEvent),
    Joystick(JoystickEvent),
    System(SystemEvent),
    WindowCreate(CmdResultWindowCreate),
}

impl EngineEvent {
    /// The window that the event is about, where it is about one.
    pub open spec fn window(self) -> Option<u32> {
        match self {
            EngineEvent::Window(event) => Some(event.window()),
            EngineEvent::Pointer(event) => Some(event.window()),
            EngineEvent::Keyboard(event) => Some(event.window()),
            _ => None,
        }
    }
}

/// A command with its correlation identifier.
#[derive(Debug, Clone, PartialEq, Eq)]
pub struct EngineCmdEnvelope {
    pub id: u64,
    pub cmd: EngineCmd,
}

/// An event with its correlation identifier.
#[derive(Debug, Clone, PartialEq, Eq)]
pub struct EngineEventEnvelope {
    pub id: u64,
    pub event: EngineEvent,
}

/// Commands in the order in which the host wrote them.
pub type EngineBatchCmds = Vec<EngineCmdEnvelope>;

/// Events in the order in which they arose.
pub type EngineBatchEvents = Vec<EngineEventEnvelope>;

impl EngineEventEnvelope {
    /// The envelope of an event that answers no command.
    pub open spec fn unsolicited(event: EngineEvent) -> EngineEventEnvelope {
        EngineEventEnvelope { id: UNSOLICITED, event }
    }
}

} // verus!
