//! The state of the one engine instance.
//!
//! The state knows each window by a 32-bit identifier of its own making, and
//! keeps the way back from the collaborator's handle to that identifier. It
//! owns the buffer store and the queue of events that wait for the host.

use vstd::prelude::*;
use std::collections::HashMap;
use crate::cmd::{EngineBatchEvents, EngineEventEnvelope};
use crate::events::ModifiersState;
use crate::surface::{SurfaceCaps, SurfaceCapsView, SurfaceConfig};

verus! {

/// What the core keeps of one window.
#[derive(Debug, Clone, Copy, PartialEq, Eq, Structural)]
pub struct WindowState {
    /// The collaborator's handle of the window.
    pub native: u64,
    /// How the surface of the window is set up.
    pub config: SurfaceConfig,
}

/// The engine state.
pub struct EngineState {
    windows: HashMap<u32, WindowState>,
    window_id_map: HashMap<u64, u32>,
    window_id_counter: u32,
    caps: Option<SurfaceCaps>,
    buffers: HashMap<u64, Vec<u8>>,
    event_queue: EngineBatchEvents,
    time: u64,
    delta_time: u32,
    modifiers_state: ModifiersState,
}

/// The mathematical content of an `EngineState`.
#[verifier::ext_equal]
pub struct EngineStateView {
    /// The windows, by identifier.
    pub windows: Map<u32, WindowState>,
    /// The identifier that stands for each handle of the collaborator.
    pub window_id_map: Map<u64, u32>,
    /// The identifier that the next window gets.
    pub window_id_counter: u32,
    /// What surfaces support, once a device has been negotiated.
    pub caps: Option<SurfaceCapsView>,
    /// The buffer store.
    pub buffers: Map<u64, Seq<u8>>,
    /// The events that wait for the host, oldest first.
    pub event_queue: Seq<EngineEventEnvelope>,
    /// The time of the current tick.
    pub time: u64,
    /// The time since the tick before.
    pub delta_time: u32,
    /// The modifiers last reported as held.
    pub modifiers_state: ModifiersState,
}

impl EngineStateView {
    /// The state of a fresh instance.
    pub open spec fn fresh() -> EngineStateView {
        EngineStateView {
            windows: Map::empty(),
            window_id_map: Map::empty(),
            window_id_counter: 0,
            caps: None,
            buffers: Map::empty(),
            event_queue: Seq::empty(),
            time: 0,
            delta_time: 0,
            modifiers_state: ModifiersState::none(),
        }
    }

    /// Whether every identifier in use lies below the counter, so that the
    /// next identifier is new.
    pub open spec fn ids_below_counter(self) -> bool {
        &&& forall|native: u64| #[trigger]
            self.window_id_map.contains_key(native) ==> self.window_id_map[native]
                < self.window_id_counter
        &&& forall|id: u32| #[trigger] self.windows.contains_key(id) ==> id < self.window_id_counter
    }

    /// The same state with another queue of events.
    pub open spec fn with_events(self, event_queue: Seq<EngineEventEnvelope>) -> EngineStateView {
        EngineStateView { event_queue, ..self }
    }

    /// The same state with one more event at the end of the queue.
    pub open spec fn push_event(self, envelope: EngineEventEnvelope) -> EngineStateView {
        self.with_events(self.event_queue.push(envelope))
    }

    /// The same state with other modifiers.
    pub open spec fn with_modifiers(self, modifiers_state: ModifiersState) -> EngineStateView {
        EngineStateView { modifiers_state, ..self }
    }

    /// The same state at another time.
    pub open spec fn at_time(self, time: u64, delta_time: u32) -> EngineStateView {
        EngineStateView { time, delta_time, ..self }
    }

    /// The same state with another buffer store.
    pub open spec fn with_buffers(self, buffers: Map<u64, Seq<u8>>) -> EngineStateView {
        EngineStateView { buffers, ..self }
    }

    /// The same state after `native` was given the next identifier.
    pub open spec fn with_window_id(self, native: u64) -> EngineStateView
        recommends
            self.window_id_counter < u32::MAX,
    {
        EngineStateView {
            window_id_map: self.window_id_map.insert(native, self.window_id_counter),
            window_id_counter: (self.window_id_counter + 1) as u32,
            ..self
        }
    }

    /// The same state with other surface capabilities.
    pub open spec fn with_caps(self, caps: Option<SurfaceCapsView>) -> EngineStateView {
        EngineStateView { caps, ..self }
    }

    /// The same state with the window `id` set to `window`.
    pub open spec fn with_window(self, id: u32, window: WindowState) -> EngineStateView {
        EngineStateView { windows: self.windows.insert(id, window), ..self }
    }
}

/// The content of a store of byte buffers.
pub open spec fn buffers_content(store: Map<u64, Vec<u8>>) -> Map<u64, Seq<u8>> {
    Map::new(|key: u64| store.contains_key(key), |key: u64| store[key]@)
}

/// The content of optional surface capabilities.
pub open spec fn caps_content(caps: Option<SurfaceCaps>) -> Option<SurfaceCapsView> {
    match caps {
        Some(c) => Some(c@),
        None => None,
    }
}

impl View for EngineState {
    type V = EngineStateView;

    closed spec fn view(&self) -> EngineStateView {
        EngineStateView {
            windows: self.windows@,
            window_id_map: self.window_id_map@,
            window_id_counter: self.window_id_counter,
            caps: caps_content(self.caps),
            buffers: buffers_content(self.buffers@),
            event_queue: self.event_queue@,
            time: self.time,
            delta_time: self.delta_time,
            modifiers_state: self.modifiers_state,
        }
    }
}

impl EngineState {
    /// A fresh state: no window, no buffer, no event, time zero.
    pub fn new() -> (state: EngineState)
        ensures
            state@ == EngineStateView::fresh(),
    {
        EngineState {
            windows: HashMap::new(),
            window_id_map: HashMap::new(),
            window_id_counter: 0,
            caps: None,
            buffers: HashMap::new(),
            event_queue: Vec::new(),
            time: 0,
            delta_time: 0,
            modifiers_state: ModifiersState { shift: false, ctrl: false, alt: false, meta: false },
        }
    }

    /// The identifier that stands for a handle of the collaborator.
    pub fn window_id(&self, native: u64) -> (r: Option<u32>)
        ensures
            r == (if self@.window_id_map.contains_key(native) {
                Some(self@.window_id_map[native])
            } else {
                None
            }),
    {
        match self.window_id_map.get(&native) {
            Some(id) => Some(*id),
            None => None,
        }
    }

    /// What the core keeps of the window `id`.
    pub fn window(&self, id: u32) -> (r: Option<WindowState>)
        ensures
            r == (if self@.windows.contains_key(id) {
                Some(self@.windows[id])
            } else {
                None
            }),
    {
        match self.windows.get(&id) {
            Some(window) => Some(*window),
            None => None,
        }
    }

    /// The identifier that the next window gets.
    pub fn window_id_counter(&self) -> (r: u32)
        ensures
            r == self@.window_id_counter,
    {
        self.window_id_counter
    }

    /// What surfaces support, once a device has been negotiated.
    pub fn caps(&self) -> (r: Option<&SurfaceCaps>)
        ensures
            match r {
                Some(c) => self@.caps == Some(c@),
                None => self@.caps is None,
            },
    {
        self.caps.as_ref()
    }

    /// Whether a device has been negotiated.
    pub fn device_ready(&self) -> (r: bool)
        ensures
            r == self@.caps is Some,
    {
        self.caps.is_some()
    }

    /// The events that wait for the host, oldest first.
    pub fn event_queue(&self) -> (r: &EngineBatchEvents)
        ensures
            r@ == self@.event_queue,
    {
        &self.event_queue
    }

    /// The time of the current tick.
    pub fn time(&self) -> (r: u64)
        ensures
            r == self@.time,
    {
        self.time
    }

    /// The time since the tick before.
    pub fn delta_time(&self) -> (r: u32)
        ensures
            r == self@.delta_time,
    {
        self.delta_time
    }

    /// The modifiers last reported as held.
    pub fn modifiers_state(&self) -> (r: ModifiersState)
        ensures
            r == self@.modifiers_state,
    {
        self.modifiers_state
    }

    /// The buffer stored under `key`.
    pub fn buffer(&self, key: u64) -> (r: Option<&Vec<u8>>)
        ensures
            match r {
                Some(bytes) => self@.buffers.contains_key(key) && self@.buffers[key] == bytes@,
                None => !self@.buffers.contains_key(key),
            },
    {
        self.buffers.get(&key)
    }

    /// Stores `bytes` under `key`, in place of what was there.
    pub fn upload(&mut self, key: u64, bytes: Vec<u8>)
        ensures
            final(self)@ == old(self)@.with_buffers(old(self)@.buffers.insert(key, bytes@)),
    {
        self.buffers.insert(key, bytes);
    }

    /// Removes what is stored under `key`, if anything.
    pub fn clear(&mut self, key: u64)
        ensures
            final(self)@ == old(self)@.with_buffers(old(self)@.buffers.remove(key)),
    {
        self.buffers.remove(&key);
    }

    /// Appends an event to the queue.
    pub(crate) fn push_event(&mut self, envelope: EngineEventEnvelope)
        ensures
            final(self)@ == old(self)@.push_event(envelope),
    {
        self.event_queue.push(envelope);
    }

    /// Empties the queue of events.
    pub(crate) fn clear_events(&mut self)
        ensures
            final(self)@ == old(self)@.with_events(Seq::empty()),
    {
        self.event_queue.clear();
    }

    /// Records the modifiers that are held.
    pub(crate) fn set_modifiers(&mut self, modifiers_state: ModifiersState)
        ensures
            final(self)@ == old(self)@.with_modifiers(modifiers_state),
    {
        self.modifiers_state = modifiers_state;
    }

    /// Records the time of the tick.
    pub(crate) fn set_time(&mut self, time: u64, delta_time: u32)
        ensures
            final(self)@ == old(self)@.at_time(time, delta_time),
    {
        self.time = time;
        self.delta_time = delta_time;
    }

    /// Gives `native` the next identifier, unless the identifiers are used up.
    pub(crate) fn allocate_window_id(&mut self, native: u64) -> (r: Option<u32>)
        ensures
            old(self)@.window_id_counter < u32::MAX ==> r == Some(old(self)@.window_id_counter)
                && final(self)@ == old(self)@.with_window_id(native),
            old(self)@.window_id_counter == u32::MAX ==> r is None && final(self)@ == old(self)@,
    {
        if self.window_id_counter == u32::MAX {
            return None;
        }
        let id = self.window_id_counter;
        self.window_id_counter = id + 1;
        self.window_id_map.insert(native, id);
        Some(id)
    }

    /// Records what surfaces support.
    pub(crate) fn set_caps(&mut self, caps: SurfaceCaps)
        ensures
            final(self)@ == old(self)@.with_caps(Some(caps@)),
    {
        self.caps = Some(caps);
    }

    /// Records the window `id`.
    pub(crate) fn insert_window(&mut self, id: u32, window: WindowState)
        ensures
            final(self)@ == old(self)@.with_window(id, window),
    {
        self.windows.insert(id, window);
    }
}

} // verus!
