//! The command that asks for a window.
//!
//! Making a window is work for the collaborators: the windowing collaborator
//! opens it, the GPU collaborator gives it a surface and, for the first window
//! only, negotiates the device that all windows share. The core says what to
//! ask for, takes the report of how it went, and does the bookkeeping: the
//! identifier of the window, the way back from the collaborator's handle, the
//! setup of the surface.

use vstd::prelude::*;
use crate::cmd::CmdWindowCreateArgs;
use crate::result::EngineResult;
use crate::state::{EngineState, EngineStateView, WindowState, caps_content};
use crate::surface::{SurfaceCaps, SurfaceCapsView, chosen_config, select_config, usable};
use crate::units::{IVector2, Size};

verus! {

/// What to ask of the windowing collaborator for a new window.
#[derive(Debug, Clone, PartialEq, Eq)]
pub struct WindowAttributes {
    pub title: String,
    pub decorations: bool,
    pub resizable: bool,
    pub inner_size: Size,
    pub position: IVector2,
    pub transparent: bool,
}

/// The attributes that a command asks for: a frame unless the command wants
/// none, and always a transparent background.
pub open spec fn attributes_of(args: CmdWindowCreateArgs) -> WindowAttributes {
    WindowAttributes {
        title: args.title,
        decorations: !args.borderless,
        resizable: args.resizable,
        inner_size: args.size,
        position: args.position,
        transparent: true,
    }
}

/// Says what to ask of the windowing collaborator.
pub fn window_attributes(args: &CmdWindowCreateArgs) -> (r: WindowAttributes)
    ensures
        r == attributes_of(*args),
{
    WindowAttributes {
        title: args.title.clone(),
        decorations: !args.borderless,
        resizable: args.resizable,
        inner_size: args.size,
        position: args.position,
        transparent: true,
    }
}

/// How the collaborators fared with one window.
///
/// The steps come in a fixed order: the window, its surface, and then, where
/// no device has been negotiated yet, the adapter and the device. The report
/// names the first step that failed, or tells that all went well. From the
/// window on it carries the collaborator's handle of the window.
#[derive(Debug, Clone, PartialEq, Eq)]
pub enum WindowCreateReport {
    /// The window could not be opened.
    WindowFailed,
    /// The window is open, but got no surface.
    SurfaceFailed { native: u64 },
    /// No adapter fits the surface.
    AdapterFailed { native: u64 },
    /// The adapter gave no device.
    DeviceFailed { native: u64 },
    /// Window and surface are there. `caps` is what the surface supports,
    /// where a device was negotiated for this window.
    Ready { native: u64, caps: Option<SurfaceCaps> },
}

impl WindowCreateReport {
    /// The handle of the window, where the report has one.
    pub open spec fn native(self) -> Option<u64> {
        match self {
            WindowCreateReport::WindowFailed => None,
            WindowCreateReport::SurfaceFailed { native } => Some(native),
            WindowCreateReport::AdapterFailed { native } => Some(native),
            WindowCreateReport::DeviceFailed { native } => Some(native),
            WindowCreateReport::Ready { native, .. } => Some(native),
        }
    }
}

/// The capabilities that count once a report has arrived: those negotiated
/// before where there are any, else those of the report.
pub open spec fn caps_after(
    known: Option<SurfaceCapsView>,
    reported: Option<SurfaceCaps>,
) -> Option<SurfaceCapsView> {
    if known is Some {
        known
    } else {
        caps_content(reported)
    }
}

/// What a window-creation command does, given the report of the
/// collaborators: the result, and the state after it.
///
/// Without a window nothing changes. With one, the window gets the next
/// identifier and the way back from its handle is recorded, whatever comes
/// after; only when the identifiers are used up is the window turned away. A
/// missing surface counts as a failure of the windowing side, a missing
/// adapter or device as a failure of the GPU side, and so does a surface that
/// supports no format or no alpha mode. A report that all went well while no
/// capabilities are known, before or from the report, is an inner fault.
/// Where all is well the window is recorded with the setup of its surface.
pub open spec fn window_create(
    state: EngineStateView,
    args: CmdWindowCreateArgs,
    report: WindowCreateReport,
) -> (EngineResult, EngineStateView) {
    match report.native() {
        None => (EngineResult::WinitCreateWindowError, state),
        Some(native) => if state.window_id_counter == u32::MAX {
            (EngineResult::WinitCreateWindowError, state)
        } else {
            let id = state.window_id_counter;
            let named = state.with_window_id(native);
            match report {
                WindowCreateReport::Ready { caps, .. } => match caps_after(state.caps, caps) {
                    None => (EngineResult::UnknownError, named),
                    Some(known) => {
                        let negotiated = named.with_caps(Some(known));
                        if usable(known) {
                            (
                                EngineResult::Success,
                                negotiated.with_window(
                                    id,
                                    WindowState {
                                        native,
                                        config: chosen_config(known, args.size[0], args.size[1]),
                                    },
                                ),
                            )
                        } else {
                            (EngineResult::WgpuInstanceError, negotiated)
                        }
                    },
                },
                WindowCreateReport::SurfaceFailed { .. } => (
                    EngineResult::WinitCreateWindowError,
                    named,
                ),
                _ => (EngineResult::WgpuInstanceError, named),
            }
        },
    }
}

/// Handles a window-creation command, given the report of the collaborators.
pub fn engine_cmd_window_create(
    engine: &mut EngineState,
    args: &CmdWindowCreateArgs,
    report: &WindowCreateReport,
) -> (r: EngineResult)
    ensures
        r == window_create(old(engine)@, *args, *report).0,
        final(engine)@ == window_create(old(engine)@, *args, *report).1,
{
    let native = match report {
        WindowCreateReport::WindowFailed => {
            return EngineResult::WinitCreateWindowError;
        },
        WindowCreateReport::SurfaceFailed { native } => *native,
        WindowCreateReport::AdapterFailed { native } => *native,
        WindowCreateReport::DeviceFailed { native } => *native,
        WindowCreateReport::Ready { native, .. } => *native,
    };
    let win_id = match engine.allocate_window_id(native) {
        Some(id) => id,
        None => {
            return EngineResult::WinitCreateWindowError;
        },
    };
    match report {
        WindowCreateReport::Ready { caps, .. } => {
            if !engine.device_ready() {
                match caps {
                    Some(reported) => {
                        engine.set_caps(reported.duplicate());
                    },
                    None => {
                        return EngineResult::UnknownError;
                    },
                }
            }
            let config = match engine.caps() {
                Some(known) => select_config(known, args.size[0], args.size[1]),
                None => None,
            };
            match config {
                Some(config) => {
                    engine.insert_window(win_id, WindowState { native, config });
                    EngineResult::Success
                },
                None => EngineResult::WgpuInstanceError,
            }
        },
        WindowCreateReport::SurfaceFailed { .. } => EngineResult::WinitCreateWindowError,
        _ => EngineResult::WgpuInstanceError,
    }
}

} // verus!
