//! The lifecycle of the engine and the entry points of the boundary.
//!
//! There is at most one engine instance. It lives in a context that the host
//! side keeps and passes to every entry point, together with the identity of
//! the calling thread. The thread that first initializes the engine becomes
//! its owner, and stays the owner for good: no other thread can take its
//! place, not even after the instance was disposed of. Every entry point but
//! `engine_init` turns away any other thread before it does anything else, so
//! the state is only ever touched from the owner thread.

use vstd::prelude::*;
use vstd::slice::slice_to_vec;
use crate::cmd::{EngineBatchCmds, EngineCmdEnvelope};
use crate::dispatch::engine_process_batch;
use crate::exchange::{read_copies, read_destination, read_result, two_phase_read};
use crate::normalize::process_gilrs_event;
use crate::raw::RawPadEvent;
use crate::result::EngineResult;
use crate::state::{EngineState, EngineStateView};
use crate::tick::{PlatformEvent, after_gamepad_events, after_platform_events, after_tick};
use crate::wire::{batch_bytes, encodings, frame_batch};

verus! {

/// The instance: the engine state, and the batches of commands that wait for
/// the next tick.
struct EngineSingleton {
    state: EngineState,
    pending: Vec<EngineBatchCmds>,
}

/// The context of the boundary: who owns the engine, and the instance, while
/// there is one.
pub struct Engine {
    owner: Option<u64>,
    instance: Option<EngineSingleton>,
}

/// The mathematical content of an instance.
#[verifier::ext_equal]
pub struct InstanceView {
    /// The engine state.
    pub state: EngineStateView,
    /// The batches of commands that wait, oldest first.
    pub pending: Seq<Seq<EngineCmdEnvelope>>,
}

/// The mathematical content of an `Engine`.
#[verifier::ext_equal]
pub struct EngineView {
    /// The owner thread, once there is one.
    pub owner: Option<u64>,
    /// The instance, while there is one.
    pub instance: Option<InstanceView>,
}

/// What a read by the two-phase convention leaves behind.
#[verifier::ext_equal]
pub struct ReadOutcome {
    pub result: EngineResult,
    /// The length that comes out.
    pub length: nat,
    /// The destination after the read, where there was one.
    pub dest: Option<Seq<u8>>,
    /// The engine after the read.
    pub engine: EngineView,
}

/// The batches that a list of vectors holds.
pub open spec fn batches(pending: Seq<Vec<EngineCmdEnvelope>>) -> Seq<Seq<EngineCmdEnvelope>> {
    Seq::new(pending.len(), |i: int| pending[i]@)
}

/// The content of an optional batch.
pub open spec fn batch_content(decoded: Option<EngineBatchCmds>) -> Option<Seq<EngineCmdEnvelope>> {
    match decoded {
        Some(batch) => Some(batch@),
        None => None,
    }
}

/// The content of optional encodings.
pub open spec fn encodings_content(encoded: Option<Vec<Vec<u8>>>) -> Option<Seq<Seq<u8>>> {
    match encoded {
        Some(items) => Some(encodings(items@)),
        None => None,
    }
}

impl InstanceView {
    /// A fresh instance.
    pub open spec fn fresh() -> InstanceView {
        InstanceView { state: EngineStateView::fresh(), pending: Seq::empty() }
    }
}

impl EngineView {
    /// The context before the engine was ever initialized.
    pub open spec fn uninitialized() -> EngineView {
        EngineView { owner: None, instance: None }
    }

    /// What holds of the context at all times: an instance has an owner, and
    /// the identifiers in use lie below the counter.
    pub open spec fn well_formed(self) -> bool {
        self.instance matches Some(instance) ==> self.owner is Some
            && instance.state.ids_below_counter()
    }

    /// Whether the caller is a thread other than the owner.
    pub open spec fn is_foreign(self, caller: u64) -> bool {
        self.owner matches Some(owner) && owner != caller
    }

    /// Whether a caller may reach the instance: `NotInitialized` while no
    /// thread owns the engine, `WrongThread` for any thread but the owner,
    /// `NotInitialized` while there is no instance, else `Success`.
    pub open spec fn access(self, caller: u64) -> EngineResult {
        match self.owner {
            None => EngineResult::NotInitialized,
            Some(owner) => if owner != caller {
                EngineResult::WrongThread
            } else if self.instance is None {
                EngineResult::NotInitialized
            } else {
                EngineResult::Success
            },
        }
    }

    /// The same context with another engine state.
    pub open spec fn with_state(self, state: EngineStateView) -> EngineView
        recommends
            self.instance is Some,
    {
        EngineView {
            instance: Some(InstanceView { state, pending: self.instance->0.pending }),
            ..self
        }
    }

    /// The same context with other batches waiting.
    pub open spec fn with_pending(self, pending: Seq<Seq<EngineCmdEnvelope>>) -> EngineView
        recommends
            self.instance is Some,
    {
        EngineView {
            instance: Some(InstanceView { state: self.instance->0.state, pending }),
            ..self
        }
    }

    /// Initialization: a thread other than the owner is turned away with
    /// `WrongThread`; an instance that exists already gives
    /// `AlreadyInitialized`; else the caller owns the engine from now on and a
    /// fresh instance exists.
    pub open spec fn init(self, caller: u64) -> (EngineResult, EngineView) {
        if self.is_foreign(caller) {
            (EngineResult::WrongThread, self)
        } else if self.instance is Some {
            (EngineResult::AlreadyInitialized, EngineView { owner: Some(caller), ..self })
        } else {
            (
                EngineResult::Success,
                EngineView { owner: Some(caller), instance: Some(InstanceView::fresh()) },
            )
        }
    }

    /// Disposal: for a caller with access the instance is gone; the owner
    /// stays.
    pub open spec fn dispose(self, caller: u64) -> (EngineResult, EngineView) {
        if self.access(caller) == EngineResult::Success {
            (EngineResult::Success, EngineView { instance: None, ..self })
        } else {
            (self.access(caller), self)
        }
    }

    /// Submission of a batch, decoded or not: a thread other than the owner is
    /// turned away first; then a batch that did not decode is rejected whole
    /// with `CmdInvalidCborError`; for a caller with access the batch waits
    /// behind those that came before.
    pub open spec fn send_queue(self, caller: u64, decoded: Option<Seq<EngineCmdEnvelope>>) -> (
        EngineResult,
        EngineView,
    ) {
        if self.is_foreign(caller) {
            (EngineResult::WrongThread, self)
        } else if decoded is None {
            (EngineResult::CmdInvalidCborError, self)
        } else if self.access(caller) != EngineResult::Success {
            (self.access(caller), self)
        } else {
            (EngineResult::Success, self.with_pending(self.instance->0.pending.push(decoded->0)))
        }
    }

    /// A tick, with what the collaborators told since the tick before: for a
    /// caller with access the instance is moved on.
    pub open spec fn tick(
        self,
        caller: u64,
        time: u64,
        delta_time: u32,
        gamepad: Seq<RawPadEvent>,
        platform: Seq<PlatformEvent>,
    ) -> (EngineResult, EngineView) {
        if self.access(caller) == EngineResult::Success {
            (
                EngineResult::Success,
                EngineView {
                    instance: Some(
                        after_tick(self.instance->0, time, delta_time, gamepad, platform),
                    ),
                    ..self
                },
            )
        } else {
            (self.access(caller), self)
        }
    }

    /// An upload: for a caller with access the bytes stand under the key, in
    /// place of what was there.
    pub open spec fn upload_buffer(self, caller: u64, key: u64, bytes: Seq<u8>) -> (
        EngineResult,
        EngineView,
    ) {
        if self.access(caller) == EngineResult::Success {
            let state = self.instance->0.state;
            (
                EngineResult::Success,
                self.with_state(state.with_buffers(state.buffers.insert(key, bytes))),
            )
        } else {
            (self.access(caller), self)
        }
    }

    /// A clearance: for a caller with access nothing stands under the key. A
    /// key that held nothing is no error.
    pub open spec fn clear_buffer(self, caller: u64, key: u64) -> (EngineResult, EngineView) {
        if self.access(caller) == EngineResult::Success {
            let state = self.instance->0.state;
            (EngineResult::Success, self.with_state(state.with_buffers(state.buffers.remove(key))))
        } else {
            (self.access(caller), self)
        }
    }

    /// A read that ends before anything is read: the length and the
    /// destination stay as they came, and so does the engine.
    pub open spec fn unread(self, result: EngineResult, dest: Option<Seq<u8>>, capacity: usize)
        -> ReadOutcome {
        ReadOutcome { result, length: capacity as nat, dest, engine: self }
    }

    /// A download by the two-phase convention: for a caller with access, a key
    /// that holds nothing gives `UnknownError`; else the buffer under the key
    /// is read. The store stays as it is in every case.
    pub open spec fn download_buffer(
        self,
        caller: u64,
        key: u64,
        dest: Option<Seq<u8>>,
        capacity: usize,
    ) -> ReadOutcome {
        if self.access(caller) != EngineResult::Success {
            self.unread(self.access(caller), dest, capacity)
        } else if !self.instance->0.state.buffers.contains_key(key) {
            self.unread(EngineResult::UnknownError, dest, capacity)
        } else {
            let source = self.instance->0.state.buffers[key];
            ReadOutcome {
                result: read_result(source.len(), dest is None, capacity),
                length: source.len(),
                dest: read_destination(source, dest, capacity),
                engine: self,
            }
        }
    }

    /// Whether the encodings are one for each event that waits.
    pub open spec fn encodes_queue(self, encoded: Option<Seq<Seq<u8>>>) -> bool
        recommends
            self.instance is Some,
    {
        encoded matches Some(items) && items.len() == self.instance->0.state.event_queue.len()
    }

    /// A read of the event queue by the two-phase convention, given the
    /// encoding of each event that waits: for a caller with access, encodings
    /// that are missing or not one for each event give `UnknownError`; else
    /// the framed batch is read. Only a read that copies the batch empties the
    /// queue.
    pub open spec fn receive_queue(
        self,
        caller: u64,
        encoded: Option<Seq<Seq<u8>>>,
        dest: Option<Seq<u8>>,
        capacity: usize,
    ) -> ReadOutcome {
        if self.access(caller) != EngineResult::Success {
            self.unread(self.access(caller), dest, capacity)
        } else if !self.encodes_queue(encoded) {
            self.unread(EngineResult::UnknownError, dest, capacity)
        } else {
            let source = batch_bytes(encoded->0);
            ReadOutcome {
                result: read_result(source.len(), dest is None, capacity),
                length: source.len(),
                dest: read_destination(source, dest, capacity),
                engine: if read_copies(source.len(), dest is None, capacity) {
                    self.with_state(self.instance->0.state.with_events(Seq::empty()))
                } else {
                    self
                },
            }
        }
    }
}

impl View for EngineSingleton {
    type V = InstanceView;

    closed spec fn view(&self) -> InstanceView {
        InstanceView { state: self.state@, pending: batches(self.pending@) }
    }
}

impl View for Engine {
    type V = EngineView;

    closed spec fn view(&self) -> EngineView {
        EngineView {
            owner: self.owner,
            instance: match self.instance {
                Some(singleton) => Some(singleton@),
                None => None,
            },
        }
    }
}

impl Engine {
    /// The engine state of the instance, as the value that code works on.
    pub closed spec fn state(&self) -> EngineState
        recommends
            self@.instance is Some,
    {
        self.instance->0.state
    }

    /// The content of `state()` is the state that the view shows.
    pub proof fn lemma_state(&self)
        requires
            self@.instance is Some,
        ensures
            self.state()@ == self@.instance->0.state,
    {
    }

    /// The context before the engine was ever initialized.
    pub fn new() -> (engine: Engine)
        ensures
            engine@ == EngineView::uninitialized(),
    {
        Engine { owner: None, instance: None }
    }
}

/// Hands the instance to a caller with access, or tells why it has none.
fn with_engine_singleton(engine: &mut Engine, caller: u64) -> (r: Result<
    &mut EngineSingleton,
    EngineResult,
>)
    ensures
        match r {
            Ok(singleton) => {
                &&& old(engine)@.access(caller) == EngineResult::Success
                &&& old(engine).instance == Some(*singleton)
                &&& final(engine).owner == old(engine).owner
                &&& final(engine).instance == Some(*final(singleton))
            },
            Err(e) => {
                &&& e == old(engine)@.access(caller)
                &&& e != EngineResult::Success
                &&& *final(engine) == *old(engine)
            },
        },
{
    match engine.owner {
        None => {
            return Err(EngineResult::NotInitialized);
        },
        Some(owner) => {
            if owner != caller {
                return Err(EngineResult::WrongThread);
            }
        },
    }
    match &mut engine.instance {
        Some(singleton) => Ok(singleton),
        None => Err(EngineResult::NotInitialized),
    }
}

/// Makes the instance and binds the calling thread as the owner.
pub fn engine_init(engine: &mut Engine, caller: u64) -> (r: EngineResult)
    ensures
        r == old(engine)@.init(caller).0,
        final(engine)@ == old(engine)@.init(caller).1,
{
    match engine.owner {
        Some(owner) => {
            if owner != caller {
                return EngineResult::WrongThread;
            }
        },
        None => {
            engine.owner = Some(caller);
        },
    }
    if engine.instance.is_some() {
        return EngineResult::AlreadyInitialized;
    }
    engine.instance = Some(EngineSingleton { state: EngineState::new(), pending: Vec::new() });
    EngineResult::Success
}

/// Destroys the instance.
pub fn engine_dispose(engine: &mut Engine, caller: u64) -> (r: EngineResult)
    ensures
        r == old(engine)@.dispose(caller).0,
        final(engine)@ == old(engine)@.dispose(caller).1,
{
    match with_engine_singleton(engine, caller) {
        Err(e) => {
            return e;
        },
        Ok(_) => {},
    }
    engine.instance = None;
    EngineResult::Success
}

/// Runs `f` on the engine state, for the owner thread and while there is an
/// instance.
///
/// This is the way by which every other entry point reaches the state. Where
/// the caller has no access, `f` is not run, nothing changes and the error
/// tells why. Else the result is what `f` returns, and the state is as `f`
/// left it.
pub fn with_engine<F, R>(engine: &mut Engine, caller: u64, f: F) -> (r: Result<R, EngineResult>)
    where F: FnOnce(&mut EngineState) -> R
    requires
        forall|x: &mut EngineState|
            old(engine)@.access(caller) == EngineResult::Success && *x == old(engine).state()
                ==> #[trigger] f.requires((x,)),
    ensures
        match r {
            Ok(v) => {
                &&& old(engine)@.access(caller) == EngineResult::Success
                &&& exists|x: &mut EngineState|
                    {
                        &&& *x == old(engine).state()
                        &&& #[trigger] f.ensures((x,), v)
                        &&& *final(x) == final(engine).state()
                        &&& final(engine)@ == old(engine)@.with_state(final(x)@)
                    }
            },
            Err(e) => {
                &&& e == old(engine)@.access(caller)
                &&& e != EngineResult::Success
                &&& final(engine)@ == old(engine)@
            },
        },
{
    let ghost before = *engine;
    let r = match with_engine_singleton(engine, caller) {
        Err(e) => Err(e),
        Ok(singleton) => Ok(f(&mut singleton.state)),
    };
    proof {
        // the borrow that `f` worked on bears witness
        if r is Ok {
            let v = r->Ok_0;
            assert(exists|x: &mut EngineState|
                {
                    &&& *x == before.state()
                    &&& #[trigger] f.ensures((x,), v)
                    &&& *final(x) == engine.state()
                    &&& engine@ == before@.with_state(final(x)@)
                });
        }
    }
    r
}

/// Takes a batch of commands from the host, decoded or not, and lets it wait
/// for the next tick.
///
/// `decoded` is what the codec made of the bytes of the host: the commands in
/// their order, or `None` where the bytes did not decode.
pub fn engine_send_queue(engine: &mut Engine, caller: u64, decoded: Option<EngineBatchCmds>) -> (r:
    EngineResult)
    ensures
        r == old(engine)@.send_queue(caller, batch_content(decoded)).0,
        final(engine)@ == old(engine)@.send_queue(caller, batch_content(decoded)).1,
{
    match engine.owner {
        Some(owner) => {
            if owner != caller {
                return EngineResult::WrongThread;
            }
        },
        None => {},
    }
    let batch = match decoded {
        None => {
            return EngineResult::CmdInvalidCborError;
        },
        Some(batch) => batch,
    };
    match with_engine_singleton(engine, caller) {
        Err(e) => e,
        Ok(singleton) => {
            singleton.pending.push(batch);
            EngineResult::Success
        },
    }
}

/// Shows the batches of commands that wait, oldest first.
pub fn engine_waiting_commands(engine: &Engine, caller: u64) -> (r: Result<
    &Vec<EngineBatchCmds>,
    EngineResult,
>)
    ensures
        match r {
            Ok(waiting) => engine@.access(caller) == EngineResult::Success && batches(waiting@)
                == engine@.instance->0.pending,
            Err(e) => e == engine@.access(caller) && e != EngineResult::Success,
        },
{
    match engine.owner {
        None => {
            return Err(EngineResult::NotInitialized);
        },
        Some(owner) => {
            if owner != caller {
                return Err(EngineResult::WrongThread);
            }
        },
    }
    match &engine.instance {
        Some(singleton) => Ok(&singleton.pending),
        None => Err(EngineResult::NotInitialized),
    }
}

/// Hands the events that wait to the host, by the two-phase convention.
///
/// `encoded` is what the codec made of the events that wait, one encoding for
/// each event and in their order, or `None` where the codec failed. `out_ptr`
/// is the destination, `None` for a probe; `out_length` holds the room of the
/// destination going in. The room that the host names must lie within the
/// destination.
pub fn engine_receive_queue(
    engine: &mut Engine,
    caller: u64,
    encoded: Option<Vec<Vec<u8>>>,
    out_ptr: Option<&mut [u8]>,
    out_length: &mut usize,
) -> (r: EngineResult)
    requires
        out_ptr matches Some(d) ==> *old(out_length) <= d@.len(),
    ensures
        ({
            let outcome = old(engine)@.receive_queue(
                caller,
                encodings_content(encoded),
                match out_ptr {
                    Some(d) => Some(d@),
                    None => None,
                },
                *old(out_length),
            );
            &&& r == outcome.result
            &&& *final(out_length) == outcome.length
            &&& final(engine)@ == outcome.engine
            &&& match out_ptr {
                Some(d) => Some(final(d)@) == outcome.dest,
                None => outcome.dest is None,
            }
        }),
{
    let singleton = match with_engine_singleton(engine, caller) {
        Err(e) => {
            return e;
        },
        Ok(singleton) => singleton,
    };
    let items = match encoded {
        None => {
            return EngineResult::UnknownError;
        },
        Some(items) => items,
    };
    if items.len() != singleton.state.event_queue().len() {
        return EngineResult::UnknownError;
    }
    let serialized = frame_batch(&items);
    let copies = out_ptr.is_some() && serialized.len() <= *out_length;
    let r = two_phase_read(serialized.as_slice(), out_ptr, out_length);
    if copies {
        singleton.state.clear_events();
    }
    r
}

/// Stores a copy of `data` under the key `bfr_id`.
pub fn engine_upload_buffer(engine: &mut Engine, caller: u64, bfr_id: u64, data: &[u8]) -> (r:
    EngineResult)
    ensures
        r == old(engine)@.upload_buffer(caller, bfr_id, data@).0,
        final(engine)@ == old(engine)@.upload_buffer(caller, bfr_id, data@).1,
{
    match with_engine_singleton(engine, caller) {
        Err(e) => e,
        Ok(singleton) => {
            singleton.state.upload(bfr_id, slice_to_vec(data));
            EngineResult::Success
        },
    }
}

/// Hands the buffer under the key `bfr_id` to the host, by the two-phase
/// convention.
///
/// `bfr_ptr` is the destination, `None` for a probe; `bfr_length` holds the
/// room of the destination going in. The room that the host names must lie
/// within the destination.
pub fn engine_download_buffer(
    engine: &mut Engine,
    caller: u64,
    bfr_id: u64,
    bfr_ptr: Option<&mut [u8]>,
    bfr_length: &mut usize,
) -> (r: EngineResult)
    requires
        bfr_ptr matches Some(d) ==> *old(bfr_length) <= d@.len(),
    ensures
        ({
            let outcome = old(engine)@.download_buffer(
                caller,
                bfr_id,
                match bfr_ptr {
                    Some(d) => Some(d@),
                    None => None,
                },
                *old(bfr_length),
            );
            &&& r == outcome.result
            &&& *final(bfr_length) == outcome.length
            &&& final(engine)@ == outcome.engine
            &&& match bfr_ptr {
                Some(d) => Some(final(d)@) == outcome.dest,
                None => outcome.dest is None,
            }
        }),
{
    let singleton = match with_engine_singleton(engine, caller) {
        Err(e) => {
            return e;
        },
        Ok(singleton) => singleton,
    };
    let buffer = match singleton.state.buffer(bfr_id) {
        Some(buf) => buf,
        None => {
            return EngineResult::UnknownError;
        },
    };
    two_phase_read(buffer.as_slice(), bfr_ptr, bfr_length)
}

/// Removes the buffer under the key `bfr_id`, if there is one.
pub fn engine_clear_buffer(engine: &mut Engine, caller: u64, bfr_id: u64) -> (r: EngineResult)
    ensures
        r == old(engine)@.clear_buffer(caller, bfr_id).0,
        final(engine)@ == old(engine)@.clear_buffer(caller, bfr_id).1,
{
    match with_engine_singleton(engine, caller) {
        Err(e) => e,
        Ok(singleton) => {
            singleton.state.clear(bfr_id);
            EngineResult::Success
        },
    }
}

/// Moves the engine on by one tick.
///
/// `gamepad` is what the gamepads told since the tick before, `platform` what
/// the platform told, each in the order of arrival. The tick records the time,
/// takes the gamepad notifications, then the platform's; at each mark of a
/// prepared batch it handles the oldest batch that waits.
pub fn engine_tick(
    engine: &mut Engine,
    caller: u64,
    time: u64,
    delta_time: u32,
    gamepad: Vec<RawPadEvent>,
    platform: Vec<PlatformEvent>,
) -> (r: EngineResult)
    ensures
        r == old(engine)@.tick(caller, time, delta_time, gamepad@, platform@).0,
        final(engine)@ == old(engine)@.tick(caller, time, delta_time, gamepad@, platform@).1,
{
    let singleton = match with_engine_singleton(engine, caller) {
        Err(e) => {
            return e;
        },
        Ok(singleton) => singleton,
    };
    let ghost before = singleton@;
    singleton.state.set_time(time, delta_time);
    let ghost timed = singleton.state@;
    let ghost gamepad_events = gamepad@;
    for event in it: gamepad.into_iter()
        invariant
            it.seq() == gamepad_events,
            singleton.state@ == after_gamepad_events(timed, gamepad_events, it.index() as nat),
            batches(singleton.pending@) == before.pending,
    {
        process_gilrs_event(&mut singleton.state, event);
    }
    let ghost polled = singleton@;
    let ghost platform_events = platform@;
    for event in it: platform.into_iter()
        invariant
            it.seq() == platform_events,
            singleton@ == after_platform_events(polled, platform_events, it.index() as nat),
    {
        match event {
            PlatformEvent::Window { native, event } => {
                singleton.state.window_event(native, event);
            },
            PlatformEvent::System(event) => {
                singleton.state.system_event(event);
            },
            PlatformEvent::Commands { reports } => {
                if singleton.pending.len() > 0 {
                    let ghost waiting = singleton.pending@;
                    let batch = singleton.pending.remove(0);
                    let _ = engine_process_batch(&mut singleton.state, batch, &reports);
                }
            },
        }
    }
    EngineResult::Success
}

} // verus!
