//! The event normalizer: from raw notifications to events of the model.
//!
//! Every notification becomes at most one event. The event goes to the end of
//! the queue with the correlation identifier zero, so the queue keeps the
//! order of arrival. A window notification names the window by the
//! collaborator's handle; a handle that the engine does not know means a
//! window that the engine did not make or no longer has, and the notification
//! is dropped.

use vstd::prelude::*;
use crate::cmd::{EngineEvent, EngineEventEnvelope, UNSOLICITED};
use crate::convert::{
    convert_gilrs_axis, convert_gilrs_button, convert_key_code, convert_key_location,
    convert_mouse_button, convert_touch_phase, gamepad_axis_of, gamepad_button_of, key_code_of,
    key_location_of, mouse_button_of, touch_phase_of,
};
use crate::events::{
    ElementState, GamepadEvent, KeyboardEvent, ModifiersState, PointerEvent, PointerType,
    ScrollDelta, SystemEvent, WindowEvent,
};
use crate::raw::{
    RawIme, RawPadButton, RawPadEvent, RawPadEventType, RawScrollDelta, RawTheme, RawWindowEvent,
};
use crate::state::{EngineState, EngineStateView};
use crate::units::{Float32, ONE_BITS};

verus! {

/// The pointer identifier of the mouse.
pub const MOUSE_POINTER: u64 = 0;

/// The modifiers that count as held once a notification has arrived: those it
/// reports where it reports a change, else those held before.
pub open spec fn modifiers_after(current: ModifiersState, event: RawWindowEvent) -> ModifiersState {
    match event {
        RawWindowEvent::ModifiersChanged { shift, control, alt, super_key } => ModifiersState {
            shift,
            ctrl: control,
            alt,
            meta: super_key,
        },
        _ => current,
    }
}

/// The event that a step of text composition becomes.
pub open spec fn ime_event_of(window_id: u32, ime: RawIme) -> KeyboardEvent {
    match ime {
        RawIme::Enabled => KeyboardEvent::OnImeEnable { window_id },
        RawIme::Preedit(text, cursor_range) => KeyboardEvent::OnImePreedit {
            window_id,
            text,
            cursor_range,
        },
        RawIme::Commit(text) => KeyboardEvent::OnImeCommit { window_id, text },
        RawIme::Disabled => KeyboardEvent::OnImeDisable { window_id },
    }
}

/// The scroll of the model that a raw scroll stands for.
pub open spec fn scroll_delta_of(delta: RawScrollDelta) -> ScrollDelta {
    match delta {
        RawScrollDelta::LineDelta(x, y) => ScrollDelta::Line([x, y]),
        RawScrollDelta::PixelDelta(x, y) => ScrollDelta::Pixel([x, y]),
    }
}

/// The event that a notification about the window `window_id` becomes, if it
/// becomes one.
///
/// `modifiers` are the modifiers that count as held once the notification has
/// arrived. `has_window` tells whether the engine keeps a window under
/// `window_id`.
///
/// Keyboard input that the platform made up is dropped, and so are
/// activation tokens, axis motion and touchpad pressure. Whatever the mouse
/// does is reported for the pointer zero of kind `Mouse`; a mouse button
/// carries the position zero, since the position comes with the moves.
pub open spec fn window_event_of(
    window_id: u32,
    modifiers: ModifiersState,
    has_window: bool,
    event: RawWindowEvent,
) -> Option<EngineEvent> {
    match event {
        RawWindowEvent::Resized { width, height } => Some(
            EngineEvent::Window(WindowEvent::OnResize { window_id, width, height }),
        ),
        RawWindowEvent::Moved { x, y } => Some(
            EngineEvent::Window(WindowEvent::OnMove { window_id, position: [x, y] }),
        ),
        RawWindowEvent::CloseRequested => Some(
            EngineEvent::Window(WindowEvent::OnCloseRequest { window_id }),
        ),
        RawWindowEvent::Destroyed => Some(
            EngineEvent::Window(WindowEvent::OnDestroy { window_id }),
        ),
        RawWindowEvent::DroppedFile { path } => Some(
            EngineEvent::Window(WindowEvent::OnFileDrop { window_id, path }),
        ),
        RawWindowEvent::HoveredFile { path } => Some(
            EngineEvent::Window(WindowEvent::OnFileHover { window_id, path }),
        ),
        RawWindowEvent::HoveredFileCancelled => Some(
            EngineEvent::Window(WindowEvent::OnFileHoverCancel { window_id }),
        ),
        RawWindowEvent::Focused(focused) => Some(
            EngineEvent::Window(WindowEvent::OnFocus { window_id, focused }),
        ),
        RawWindowEvent::KeyboardInput {
            physical_key,
            location,
            state,
            repeat,
            text,
            is_synthetic,
        } => if is_synthetic {
            None
        } else {
            Some(
                EngineEvent::Keyboard(
                    KeyboardEvent::OnInput {
                        window_id,
                        key_code: key_code_of(physical_key),
                        state,
                        location: key_location_of(location),
                        repeat,
                        text,
                        modifiers,
                    },
                ),
            )
        },
        RawWindowEvent::ModifiersChanged { .. } => Some(
            EngineEvent::Keyboard(KeyboardEvent::OnModifiersChange { window_id, modifiers }),
        ),
        RawWindowEvent::Ime(ime) => Some(EngineEvent::Keyboard(ime_event_of(window_id, ime))),
        RawWindowEvent::CursorMoved { position } => Some(
            EngineEvent::Pointer(
                PointerEvent::OnMove {
                    window_id,
                    pointer_type: PointerType::Mouse,
                    pointer_id: MOUSE_POINTER,
                    position,
                },
            ),
        ),
        RawWindowEvent::CursorEntered => Some(
            EngineEvent::Pointer(
                PointerEvent::OnEnter {
                    window_id,
                    pointer_type: PointerType::Mouse,
                    pointer_id: MOUSE_POINTER,
                },
            ),
        ),
        RawWindowEvent::CursorLeft => Some(
            EngineEvent::Pointer(
                PointerEvent::OnLeave {
                    window_id,
                    pointer_type: PointerType::Mouse,
                    pointer_id: MOUSE_POINTER,
                },
            ),
        ),
        RawWindowEvent::MouseWheel { delta, phase } => Some(
            EngineEvent::Pointer(
                PointerEvent::OnScroll {
                    window_id,
                    delta: scroll_delta_of(delta),
                    phase: touch_phase_of(phase),
                },
            ),
        ),
        RawWindowEvent::MouseInput { state, button } => Some(
            EngineEvent::Pointer(
                PointerEvent::OnButton {
                    window_id,
                    pointer_type: PointerType::Mouse,
                    pointer_id: MOUSE_POINTER,
                    button: mouse_button_of(button),
                    state,
                    position: [Float32::zero(), Float32::zero()],
                },
            ),
        ),
        RawWindowEvent::PinchGesture { delta, phase } => Some(
            EngineEvent::Pointer(
                PointerEvent::OnPinchGesture { window_id, delta, phase: touch_phase_of(phase) },
            ),
        ),
        RawWindowEvent::PanGesture { delta, phase } => Some(
            EngineEvent::Pointer(
                PointerEvent::OnPanGesture { window_id, delta, phase: touch_phase_of(phase) },
            ),
        ),
        RawWindowEvent::RotationGesture { delta, phase } => Some(
            EngineEvent::Pointer(
                PointerEvent::OnRotationGesture { window_id, delta, phase: touch_phase_of(phase) },
            ),
        ),
        RawWindowEvent::DoubleTapGesture => Some(
            EngineEvent::Pointer(PointerEvent::OnDoubleTapGesture { window_id }),
        ),
        RawWindowEvent::Touch { id, phase, location, force } => Some(
            EngineEvent::Pointer(
                PointerEvent::OnTouch {
                    window_id,
                    pointer_id: id,
                    phase: touch_phase_of(phase),
                    position: location,
                    pressure: force,
                },
            ),
        ),
        RawWindowEvent::ScaleFactorChanged { scale_factor, inner_size } => Some(
            EngineEvent::Window(
                WindowEvent::OnScaleFactorChange {
                    window_id,
                    scale_factor,
                    new_width: if has_window {
                        inner_size[0]
                    } else {
                        0
                    },
                    new_height: if has_window {
                        inner_size[1]
                    } else {
                        0
                    },
                },
            ),
        ),
        RawWindowEvent::ThemeChanged(theme) => Some(
            EngineEvent::Window(
                WindowEvent::OnThemeChange { window_id, dark_mode: theme == RawTheme::Dark },
            ),
        ),
        RawWindowEvent::Occluded(occluded) => Some(
            EngineEvent::Window(WindowEvent::OnOcclude { window_id, occluded }),
        ),
        RawWindowEvent::RedrawRequested => Some(
            EngineEvent::Window(WindowEvent::OnRedrawRequest { window_id }),
        ),
        RawWindowEvent::ActivationTokenDone => None,
        RawWindowEvent::AxisMotion => None,
        RawWindowEvent::TouchpadPressure => None,
    }
}

/// The state after a notification about the window with the handle `native`.
///
/// An unknown handle leaves the state as it is. Else the modifiers are
/// brought up to date first, and the event, if there is one, goes to the end
/// of the queue.
pub open spec fn after_window_event(
    state: EngineStateView,
    native: u64,
    event: RawWindowEvent,
) -> EngineStateView {
    if !state.window_id_map.contains_key(native) {
        state
    } else {
        let window_id = state.window_id_map[native];
        let modifiers = modifiers_after(state.modifiers_state, event);
        let noted = state.with_modifiers(modifiers);
        match window_event_of(window_id, modifiers, state.windows.contains_key(window_id), event) {
            Some(translated) => noted.push_event(EngineEventEnvelope::unsolicited(translated)),
            None => noted,
        }
    }
}

/// The state after a notification about the application as a whole.
pub open spec fn after_system_event(state: EngineStateView, event: SystemEvent) -> EngineStateView {
    state.push_event(EngineEventEnvelope::unsolicited(EngineEvent::System(event)))
}

/// The number by which the model knows a gamepad: the low 32 bits of the
/// collaborator's number.
pub open spec fn gamepad_id_of(id: usize) -> u32 {
    (id as int % 0x1_0000_0000) as u32
}

/// The event that a gamepad notification becomes, if it becomes one.
///
/// A press reports the value one and a release the value zero. A change of
/// the analog value reports that value, and counts as pressed where the value
/// is greater than one half. Repeats, dropped notifications and the end of a
/// force-feedback effect are not reported.
pub open spec fn gamepad_event_of(event: RawPadEvent) -> Option<EngineEvent> {
    let gamepad_id = gamepad_id_of(event.id);
    match event.event {
        RawPadEventType::Connected { name } => Some(
            EngineEvent::Gamepad(GamepadEvent::OnConnect { gamepad_id, name }),
        ),
        RawPadEventType::Disconnected => Some(
            EngineEvent::Gamepad(GamepadEvent::OnDisconnect { gamepad_id }),
        ),
        RawPadEventType::ButtonPressed(button) => Some(
            EngineEvent::Gamepad(
                GamepadEvent::OnButton {
                    gamepad_id,
                    button: gamepad_button_of(button),
                    state: ElementState::Pressed,
                    value: Float32::one(),
                },
            ),
        ),
        RawPadEventType::ButtonReleased(button) => Some(
            EngineEvent::Gamepad(
                GamepadEvent::OnButton {
                    gamepad_id,
                    button: gamepad_button_of(button),
                    state: ElementState::Released,
                    value: Float32::zero(),
                },
            ),
        ),
        RawPadEventType::ButtonChanged(button, value) => Some(
            EngineEvent::Gamepad(
                GamepadEvent::OnButton {
                    gamepad_id,
                    button: gamepad_button_of(button),
                    state: if value.above_half() {
                        ElementState::Pressed
                    } else {
                        ElementState::Released
                    },
                    value,
                },
            ),
        ),
        RawPadEventType::AxisChanged(axis, value) => Some(
            EngineEvent::Gamepad(
                GamepadEvent::OnAxis { gamepad_id, axis: gamepad_axis_of(axis), value },
            ),
        ),
        RawPadEventType::ButtonRepeated(_) => None,
        RawPadEventType::Dropped => None,
        RawPadEventType::ForceFeedbackEffectCompleted => None,
    }
}

/// The state after a gamepad notification.
pub open spec fn after_gamepad_event(
    state: EngineStateView,
    event: RawPadEvent,
) -> EngineStateView {
    match gamepad_event_of(event) {
        Some(translated) => state.push_event(EngineEventEnvelope::unsolicited(translated)),
        None => state,
    }
}

/// Translates a step of text composition.
fn translate_ime(window_id: u32, ime: RawIme) -> (r: KeyboardEvent)
    ensures
        r == ime_event_of(window_id, ime),
{
    match ime {
        RawIme::Enabled => KeyboardEvent::OnImeEnable { window_id },
        RawIme::Preedit(text, cursor_range) => KeyboardEvent::OnImePreedit {
            window_id,
            text,
            cursor_range,
        },
        RawIme::Commit(text) => KeyboardEvent::OnImeCommit { window_id, text },
        RawIme::Disabled => KeyboardEvent::OnImeDisable { window_id },
    }
}

/// Translates a scroll.
fn translate_scroll(delta: RawScrollDelta) -> (r: ScrollDelta)
    ensures
        r == scroll_delta_of(delta),
{
    match delta {
        RawScrollDelta::LineDelta(x, y) => ScrollDelta::Line([x, y]),
        RawScrollDelta::PixelDelta(x, y) => ScrollDelta::Pixel([x, y]),
    }
}

/// Translates a notification about the window `window_id`.
pub fn translate_window_event(
    window_id: u32,
    modifiers: ModifiersState,
    has_window: bool,
    event: RawWindowEvent,
) -> (r: Option<EngineEvent>)
    ensures
        r == window_event_of(window_id, modifiers, has_window, event),
{
    match event {
        RawWindowEvent::Resized { width, height } => Some(
            EngineEvent::Window(WindowEvent::OnResize { window_id, width, height }),
        ),
        RawWindowEvent::Moved { x, y } => Some(
            EngineEvent::Window(WindowEvent::OnMove { window_id, position: [x, y] }),
        ),
        RawWindowEvent::CloseRequested => Some(
            EngineEvent::Window(WindowEvent::OnCloseRequest { window_id }),
        ),
        RawWindowEvent::Destroyed => Some(
            EngineEvent::Window(WindowEvent::OnDestroy { window_id }),
        ),
        RawWindowEvent::DroppedFile { path } => Some(
            EngineEvent::Window(WindowEvent::OnFileDrop { window_id, path }),
        ),
        RawWindowEvent::HoveredFile { path } => Some(
            EngineEvent::Window(WindowEvent::OnFileHover { window_id, path }),
        ),
        RawWindowEvent::HoveredFileCancelled => Some(
            EngineEvent::Window(WindowEvent::OnFileHoverCancel { window_id }),
        ),
        RawWindowEvent::Focused(focused) => Some(
            EngineEvent::Window(WindowEvent::OnFocus { window_id, focused }),
        ),
        RawWindowEvent::KeyboardInput {
            physical_key,
            location,
            state,
            repeat,
            text,
            is_synthetic,
        } => {
            if is_synthetic {
                return None;
            }
            let key_code = convert_key_code(&physical_key);
            let location = convert_key_location(location);
            Some(
                EngineEvent::Keyboard(
                    KeyboardEvent::OnInput {
                        window_id,
                        key_code,
                        state,
                        location,
                        repeat,
                        text,
                        modifiers,
                    },
                ),
            )
        },
        RawWindowEvent::ModifiersChanged { .. } => Some(
            EngineEvent::Keyboard(KeyboardEvent::OnModifiersChange { window_id, modifiers }),
        ),
        RawWindowEvent::Ime(ime) => Some(EngineEvent::Keyboard(translate_ime(window_id, ime))),
        RawWindowEvent::CursorMoved { position } => Some(
            EngineEvent::Pointer(
                PointerEvent::OnMove {
                    window_id,
                    pointer_type: PointerType::Mouse,
                    pointer_id: MOUSE_POINTER,
                    position,
                },
            ),
        ),
        RawWindowEvent::CursorEntered => Some(
            EngineEvent::Pointer(
                PointerEvent::OnEnter {
                    window_id,
                    pointer_type: PointerType::Mouse,
                    pointer_id: MOUSE_POINTER,
                },
            ),
        ),
        RawWindowEvent::CursorLeft => Some(
            EngineEvent::Pointer(
                PointerEvent::OnLeave {
                    window_id,
                    pointer_type: PointerType::Mouse,
                    pointer_id: MOUSE_POINTER,
                },
            ),
        ),
        RawWindowEvent::MouseWheel { delta, phase } => {
            let scroll_delta = translate_scroll(delta);
            let touch_phase = convert_touch_phase(phase);
            Some(
                EngineEvent::Pointer(
                    PointerEvent::OnScroll { window_id, delta: scroll_delta, phase: touch_phase },
                ),
            )
        },
        RawWindowEvent::MouseInput { state, button } => {
            let btn = convert_mouse_button(button);
            Some(
                EngineEvent::Pointer(
                    PointerEvent::OnButton {
                        window_id,
                        pointer_type: PointerType::Mouse,
                        pointer_id: MOUSE_POINTER,
                        button: btn,
                        state,
                        position: [Float32 { bits: 0 }, Float32 { bits: 0 }],
                    },
                ),
            )
        },
        RawWindowEvent::PinchGesture { delta, phase } => Some(
            EngineEvent::Pointer(
                PointerEvent::OnPinchGesture {
                    window_id,
                    delta,
                    phase: convert_touch_phase(phase),
                },
            ),
        ),
        RawWindowEvent::PanGesture { delta, phase } => Some(
            EngineEvent::Pointer(
                PointerEvent::OnPanGesture { window_id, delta, phase: convert_touch_phase(phase) },
            ),
        ),
        RawWindowEvent::RotationGesture { delta, phase } => Some(
            EngineEvent::Pointer(
                PointerEvent::OnRotationGesture {
                    window_id,
                    delta,
                    phase: convert_touch_phase(phase),
                },
            ),
        ),
        RawWindowEvent::DoubleTapGesture => Some(
            EngineEvent::Pointer(PointerEvent::OnDoubleTapGesture { window_id }),
        ),
        RawWindowEvent::Touch { id, phase, location, force } => {
            let phase = convert_touch_phase(phase);
            Some(
                EngineEvent::Pointer(
                    PointerEvent::OnTouch {
                        window_id,
                        pointer_id: id,
                        phase,
                        position: location,
                        pressure: force,
                    },
                ),
            )
        },
        RawWindowEvent::ScaleFactorChanged { scale_factor, inner_size } => {
            let (new_width, new_height) = if has_window {
                (inner_size[0], inner_size[1])
            } else {
                (0, 0)
            };
            Some(
                EngineEvent::Window(
                    WindowEvent::OnScaleFactorChange {
                        window_id,
                        scale_factor,
                        new_width,
                        new_height,
                    },
                ),
            )
        },
        RawWindowEvent::ThemeChanged(theme) => {
            let dark_mode = match theme {
                RawTheme::Dark => true,
                RawTheme::Light => false,
            };
            Some(EngineEvent::Window(WindowEvent::OnThemeChange { window_id, dark_mode }))
        },
        RawWindowEvent::Occluded(occluded) => Some(
            EngineEvent::Window(WindowEvent::OnOcclude { window_id, occluded }),
        ),
        RawWindowEvent::RedrawRequested => Some(
            EngineEvent::Window(WindowEvent::OnRedrawRequest { window_id }),
        ),
        // Notifications that the host has no use for
        RawWindowEvent::ActivationTokenDone => None,
        RawWindowEvent::AxisMotion => None,
        RawWindowEvent::TouchpadPressure => None,
    }
}

/// Translates a gamepad notification.
pub fn translate_gamepad_event(event: RawPadEvent) -> (r: Option<EngineEvent>)
    ensures
        r == gamepad_event_of(event),
{
    let gamepad_id: u32 = (event.id as u64 % 0x1_0000_0000) as u32;
    match event.event {
        RawPadEventType::Connected { name } => Some(
            EngineEvent::Gamepad(GamepadEvent::OnConnect { gamepad_id, name }),
        ),
        RawPadEventType::Disconnected => Some(
            EngineEvent::Gamepad(GamepadEvent::OnDisconnect { gamepad_id }),
        ),
        RawPadEventType::ButtonPressed(button) => {
            let button_mapped = convert_gilrs_button(button);
            Some(
                EngineEvent::Gamepad(
                    GamepadEvent::OnButton {
                        gamepad_id,
                        button: button_mapped,
                        state: ElementState::Pressed,
                        value: Float32 { bits: ONE_BITS },
                    },
                ),
            )
        },
        RawPadEventType::ButtonReleased(button) => {
            let button_mapped = convert_gilrs_button(button);
            Some(
                EngineEvent::Gamepad(
                    GamepadEvent::OnButton {
                        gamepad_id,
                        button: button_mapped,
                        state: ElementState::Released,
                        value: Float32 { bits: 0 },
                    },
                ),
            )
        },
        RawPadEventType::ButtonChanged(button, value) => {
            let button_mapped = convert_gilrs_button(button);
            let state = if value.is_above_half() {
                ElementState::Pressed
            } else {
                ElementState::Released
            };
            Some(
                EngineEvent::Gamepad(
                    GamepadEvent::OnButton { gamepad_id, button: button_mapped, state, value },
                ),
            )
        },
        RawPadEventType::AxisChanged(axis, value) => {
            let axis_mapped = convert_gilrs_axis(axis);
            Some(
                EngineEvent::Gamepad(
                    GamepadEvent::OnAxis { gamepad_id, axis: axis_mapped, value },
                ),
            )
        },
        _ => None,
    }
}

impl EngineState {
    /// Takes a notification about the window with the handle `winit_window_id`.
    pub fn window_event(&mut self, winit_window_id: u64, event: RawWindowEvent)
        ensures
            final(self)@ == after_window_event(old(self)@, winit_window_id, event),
    {
        let window_id = match self.window_id(winit_window_id) {
            Some(id) => id,
            None => return ,
        };
        let modifiers = match &event {
            RawWindowEvent::ModifiersChanged { shift, control, alt, super_key } => ModifiersState {
                shift: *shift,
                ctrl: *control,
                alt: *alt,
                meta: *super_key,
            },
            _ => self.modifiers_state(),
        };
        self.set_modifiers(modifiers);
        let has_window = self.window(window_id).is_some();
        match translate_window_event(window_id, modifiers, has_window, event) {
            Some(translated) => {
                self.push_event(EngineEventEnvelope { id: UNSOLICITED, event: translated });
            },
            None => {},
        }
    }

    /// Takes a notification about the application as a whole.
    pub fn system_event(&mut self, event: SystemEvent)
        ensures
            final(self)@ == after_system_event(old(self)@, event),
    {
        self.push_event(EngineEventEnvelope { id: UNSOLICITED, event: EngineEvent::System(event) });
    }

    /// The application runs again.
    pub fn resumed(&mut self)
        ensures
            final(self)@ == after_system_event(old(self)@, SystemEvent::OnResume),
    {
        self.system_event(SystemEvent::OnResume);
    }

    /// The application was suspended.
    pub fn suspended(&mut self)
        ensures
            final(self)@ == after_system_event(old(self)@, SystemEvent::OnSuspend),
    {
        self.system_event(SystemEvent::OnSuspend);
    }

    /// The application is about to exit.
    pub fn exiting(&mut self)
        ensures
            final(self)@ == after_system_event(old(self)@, SystemEvent::OnExit),
    {
        self.system_event(SystemEvent::OnExit);
    }

    /// Memory is running low.
    pub fn memory_warning(&mut self)
        ensures
            final(self)@ == after_system_event(old(self)@, SystemEvent::OnMemoryWarning),
    {
        self.system_event(SystemEvent::OnMemoryWarning);
    }
}

/// Takes a gamepad notification.
pub fn process_gilrs_event(engine_state: &mut EngineState, event: RawPadEvent)
    ensures
        final(engine_state)@ == after_gamepad_event(old(engine_state)@, event),
{
    match translate_gamepad_event(event) {
        Some(translated) => {
            engine_state.push_event(EngineEventEnvelope { id: UNSOLICITED, event: translated });
        },
        None => {},
    }
}

/// A window notification becomes an event about the window that the handle
/// stands for, and about no other.
pub proof fn law_event_names_its_window(
    window_id: u32,
    modifiers: ModifiersState,
    has_window: bool,
    event: RawWindowEvent,
)
    ensures
        window_event_of(window_id, modifiers, has_window, event) matches Some(translated)
            ==> translated.window() == Some(window_id),
{
}

/// A gamepad notification becomes an event about the gamepad that it names.
pub proof fn law_event_names_its_gamepad(event: RawPadEvent)
    ensures
        gamepad_event_of(event) matches Some(translated) ==> {
            &&& translated matches EngineEvent::Gamepad(inner)
            &&& inner.gamepad() == gamepad_id_of(event.id)
        },
{
}

/// A notification about a window that the engine does not know changes
/// nothing.
pub proof fn law_unknown_window_is_dropped(
    state: EngineStateView,
    native: u64,
    event: RawWindowEvent,
)
    requires
        !state.window_id_map.contains_key(native),
    ensures
        after_window_event(state, native, event) == state,
{
}

/// A notification adds at most one event, at the end of the queue and with
/// the correlation identifier zero; what the queue held stays in its place.
/// Besides the queue a window notification touches the modifiers only, and
/// the other notifications touch nothing.
pub proof fn law_notification_adds_at_most_one_event(
    state: EngineStateView,
    native: u64,
    window_event: RawWindowEvent,
    gamepad_event: RawPadEvent,
    system_event: SystemEvent,
)
    ensures
        ({
            let next = after_window_event(state, native, window_event);
            &&& next.with_events(state.event_queue).with_modifiers(state.modifiers_state) == state
            &&& next.event_queue == state.event_queue || (next.event_queue.len()
                == state.event_queue.len() + 1 && next.event_queue.drop_last() == state.event_queue
                && next.event_queue.last().id == UNSOLICITED)
        }),
        ({
            let next = after_gamepad_event(state, gamepad_event);
            &&& next.with_events(state.event_queue) == state
            &&& next.event_queue == state.event_queue || (next.event_queue.len()
                == state.event_queue.len() + 1 && next.event_queue.drop_last() == state.event_queue
                && next.event_queue.last().id == UNSOLICITED)
        }),
        ({
            let next = after_system_event(state, system_event);
            &&& next.with_events(state.event_queue) == state
            &&& next.event_queue.len() == state.event_queue.len() + 1
            &&& next.event_queue.drop_last() == state.event_queue
            &&& next.event_queue.last() == EngineEventEnvelope::unsolicited(
                EngineEvent::System(system_event),
            )
        }),
{
}

/// A change of modifiers is noted before it is queued, so the key input that
/// comes right after it carries the new modifiers.
pub proof fn law_key_input_carries_new_modifiers(
    state: EngineStateView,
    native: u64,
    shift: bool,
    control: bool,
    alt: bool,
    super_key: bool,
    input: RawWindowEvent,
)
    requires
        state.window_id_map.contains_key(native),
        input matches RawWindowEvent::KeyboardInput { is_synthetic, .. } && !is_synthetic,
    ensures
        ({
            let held = ModifiersState { shift, ctrl: control, alt, meta: super_key };
            let changed = after_window_event(
                state,
                native,
                RawWindowEvent::ModifiersChanged { shift, control, alt, super_key },
            );
            let next = after_window_event(changed, native, input);
            &&& changed.modifiers_state == held
            &&& changed.event_queue.last().event == EngineEvent::Keyboard(
                KeyboardEvent::OnModifiersChange {
                    window_id: state.window_id_map[native],
                    modifiers: held,
                },
            )
            &&& next.event_queue.len() == state.event_queue.len() + 2
            &&& next.event_queue.last().event matches EngineEvent::Keyboard(
                KeyboardEvent::OnInput { modifiers, .. },
            ) && modifiers == held
        }),
{
}

/// A button whose analog value changed counts as pressed exactly where the
/// value is greater than one half, and the event carries the value as it
/// came.
pub proof fn law_button_threshold(id: usize, button: RawPadButton, value: Float32)
    ensures
        gamepad_event_of(
            RawPadEvent { id, event: RawPadEventType::ButtonChanged(button, value) },
        ) matches Some(EngineEvent::Gamepad(GamepadEvent::OnButton { state, value: carried, .. }))
            && carried == value && (state == ElementState::Pressed <==> value.above_half()) && (
        state == ElementState::Released <==> !value.above_half()),
{
}

} // verus!
