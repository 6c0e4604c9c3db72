//! What holds of the boundary over more than one call.
//!
//! Each entry point is described by a function of `EngineView` that gives its
//! result and the engine after it. The laws here are stated over those
//! functions, so they hold of every state and of every sequence of calls.

use vstd::prelude::*;
use crate::cmd::{CmdWindowCreateArgs, EngineCmd, EngineCmdEnvelope};
use crate::dispatch::{
    after_batch, after_command, answers, law_batch_is_answered_in_order,
    lemma_batch_keeps_ids_fresh, lemma_command_keeps_ids_fresh,
};
use crate::engine::EngineView;
use crate::events::SystemEvent;
use crate::exchange::overwritten;
use crate::normalize::{after_gamepad_event, after_system_event, after_window_event};
use crate::raw::{RawPadEvent, RawWindowEvent};
use crate::result::EngineResult;
use crate::state::EngineStateView;
use crate::tick::{PlatformEvent, after_gamepad_events, after_platform_events, law_tick_effect};
use crate::win::{WindowCreateReport, window_create};
use crate::wire::{batch_bytes, item_start, law_items_stand_in_order};

verus! {

/// A second initialization without a disposal in between gives
/// `AlreadyInitialized`, and changes nothing.
pub proof fn law_second_init_is_refused(engine: EngineView, caller: u64)
    requires
        engine.init(caller).0 == EngineResult::Success,
    ensures
        engine.init(caller).1.init(caller).0 == EngineResult::AlreadyInitialized,
        engine.init(caller).1.init(caller).1 == engine.init(caller).1,
{
}

/// A disposal needs an instance: before any initialization it gives
/// `NotInitialized`, and so does a second disposal right after a first.
pub proof fn law_dispose_needs_instance(engine: EngineView, caller: u64)
    ensures
        EngineView::uninitialized().dispose(caller).0 == EngineResult::NotInitialized,
        engine.dispose(caller).0 == EngineResult::Success ==> engine.dispose(caller).1.dispose(
            caller,
        ).0 == EngineResult::NotInitialized,
{
}

/// After a disposal the owner thread can initialize the engine again, and
/// finds a fresh instance.
pub proof fn law_init_after_dispose(engine: EngineView, caller: u64)
    requires
        engine.dispose(caller).0 == EngineResult::Success,
    ensures
        engine.dispose(caller).1.init(caller).0 == EngineResult::Success,
        engine.dispose(caller).1.init(caller).1 == EngineView::uninitialized().init(caller).1,
{
}

/// The owner thread is bound for good: once a thread owns the engine, no
/// entry point makes another thread the owner, whoever calls it and whatever
/// it is given.
pub proof fn law_owner_is_permanent(
    engine: EngineView,
    caller: u64,
    decoded: Option<Seq<EngineCmdEnvelope>>,
    encoded: Option<Seq<Seq<u8>>>,
    key: u64,
    bytes: Seq<u8>,
    dest: Option<Seq<u8>>,
    capacity: usize,
    time: u64,
    delta_time: u32,
    gamepad: Seq<RawPadEvent>,
    platform: Seq<PlatformEvent>,
)
    requires
        engine.owner is Some,
    ensures
        engine.init(caller).1.owner == engine.owner,
        engine.dispose(caller).1.owner == engine.owner,
        engine.send_queue(caller, decoded).1.owner == engine.owner,
                engine.tick(caller, time, delta_time, gamepad, platform).1.owner == engine.owner,
        engine.upload_buffer(caller, key, bytes).1.owner == engine.owner,
        engine.clear_buffer(caller, key).1.owner == engine.owner,
        engine.download_buffer(caller, key, dest, capacity).engine.owner == engine.owner,
        engine.receive_queue(caller, encoded, dest, capacity).engine.owner == engine.owner,
{
}

/// A thread other than the owner is turned away by every entry point with
/// `WrongThread`, whatever it passes, and nothing changes: not the engine, and
/// for a read neither the length nor the destination.
pub proof fn law_foreign_thread_is_turned_away(
    engine: EngineView,
    caller: u64,
    decoded: Option<Seq<EngineCmdEnvelope>>,
    encoded: Option<Seq<Seq<u8>>>,
    key: u64,
    bytes: Seq<u8>,
    dest: Option<Seq<u8>>,
    capacity: usize,
    time: u64,
    delta_time: u32,
    gamepad: Seq<RawPadEvent>,
    platform: Seq<PlatformEvent>,
)
    requires
        engine.is_foreign(caller),
    ensures
        engine.access(caller) == EngineResult::WrongThread,
        engine.init(caller) == (EngineResult::WrongThread, engine),
        engine.dispose(caller) == (EngineResult::WrongThread, engine),
        engine.send_queue(caller, decoded) == (EngineResult::WrongThread, engine),
                engine.tick(caller, time, delta_time, gamepad, platform) == (
            EngineResult::WrongThread,
            engine,
        ),
        engine.upload_buffer(caller, key, bytes) == (EngineResult::WrongThread, engine),
        engine.clear_buffer(caller, key) == (EngineResult::WrongThread, engine),
        engine.download_buffer(caller, key, dest, capacity) == engine.unread(
            EngineResult::WrongThread,
            dest,
            capacity,
        ),
        engine.receive_queue(caller, encoded, dest, capacity) == engine.unread(
            EngineResult::WrongThread,
            dest,
            capacity,
        ),
{
}

/// A batch that did not decode is rejected whole: nothing of it waits
/// afterwards, and the engine is as it was.
pub proof fn law_undecoded_batch_changes_nothing(engine: EngineView, caller: u64)
    ensures
        engine.send_queue(caller, None).1 == engine,
        engine.send_queue(caller, None).0 != EngineResult::Success,
        !engine.is_foreign(caller) ==> engine.send_queue(caller, None).0
            == EngineResult::CmdInvalidCborError,
{
}

/// Batches wait in the order in which they were submitted, and each keeps the
/// order of its commands.
pub proof fn law_batches_wait_in_order(
    engine: EngineView,
    caller: u64,
    first: Seq<EngineCmdEnvelope>,
    second: Seq<EngineCmdEnvelope>,
)
    requires
        engine.access(caller) == EngineResult::Success,
    ensures
        ({
            let once = engine.send_queue(caller, Some(first)).1;
            let twice = once.send_queue(caller, Some(second)).1;
            twice.instance->0.pending == engine.instance->0.pending.push(first).push(second)
        }),
{
}

/// A batch that was submitted is answered by the tick that brings its mark:
/// one answer for each command, in the order of the batch and after what the
/// queue held, each with the correlation identifier of its command. Afterwards
/// the batch waits no more.
pub proof fn law_submitted_batch_is_answered(
    engine: EngineView,
    caller: u64,
    batch: Seq<EngineCmdEnvelope>,
    mark: PlatformEvent,
    time: u64,
    delta_time: u32,
)
    requires
        engine.access(caller) == EngineResult::Success,
        engine.instance->0.pending.len() == 0,
        mark is Commands,
    ensures
        ({
            let before = engine.instance->0.state;
            let submitted = engine.send_queue(caller, Some(batch)).1;
            let ticked = submitted.tick(caller, time, delta_time, Seq::empty(), seq![mark]);
            let given = answers(
                before.at_time(time, delta_time),
                batch,
                mark->reports@,
                batch.len(),
            );
            &&& ticked.0 == EngineResult::Success
            &&& ticked.1.instance->0.pending.len() == 0
            &&& ticked.1.instance->0.state.event_queue == before.event_queue + given
            &&& given.len() == batch.len()
            &&& forall|i: int| 0 <= i < batch.len() ==> (#[trigger] given[i]).id == batch[i].id
        }),
{
    let timed = engine.instance->0.state.at_time(time, delta_time);
    reveal_with_fuel(after_platform_events, 2);
    reveal_with_fuel(after_gamepad_events, 1);
    law_batch_is_answered_in_order(timed, batch, mark->reports@, batch.len());
}

/// Order survives the whole way from a batch of commands to the bytes that
/// the host reads. Where nothing waits and the queue is empty, a batch that is
/// submitted and handled leaves one event for each command, in the order of
/// the batch; and a read into room enough, given the encoding of each of these
/// events, copies the encodings in that same order: the encoding at the place
/// `i` stands right after the head and the encodings before it. Nothing is
/// ordered anew, neither by identifier nor by kind.
pub proof fn law_order_survives_from_batch_to_bytes(
    engine: EngineView,
    caller: u64,
    batch: Seq<EngineCmdEnvelope>,
    mark: PlatformEvent,
    time: u64,
    delta_time: u32,
    encoded: Seq<Seq<u8>>,
    dest: Seq<u8>,
    capacity: usize,
)
    requires
        engine.access(caller) == EngineResult::Success,
        engine.instance->0.pending.len() == 0,
        engine.instance->0.state.event_queue.len() == 0,
        mark is Commands,
        encoded.len() == batch.len(),
        batch_bytes(encoded).len() <= capacity <= dest.len(),
    ensures
        ({
            let submitted = engine.send_queue(caller, Some(batch)).1;
            let handled = submitted.tick(caller, time, delta_time, Seq::empty(), seq![mark]).1;
            let queue = handled.instance->0.state.event_queue;
            let read = handled.receive_queue(caller, Some(encoded), Some(dest), capacity);
            &&& queue.len() == batch.len()
            &&& forall|i: int| 0 <= i < batch.len() ==> (#[trigger] queue[i]).id == batch[i].id
            &&& read.result == EngineResult::Success
            &&& read.dest is Some
            &&& forall|i: int|
                0 <= i < encoded.len() ==> item_start(encoded, (i + 1) as nat) <= read.dest->0.len()
                    && read.dest->0.subrange(
                    item_start(encoded, i as nat) as int,
                    item_start(encoded, (i + 1) as nat) as int,
                ) == #[trigger] encoded[i]
        }),
{
    law_submitted_batch_is_answered(engine, caller, batch, mark, time, delta_time);
    let submitted = engine.send_queue(caller, Some(batch)).1;
    let handled = submitted.tick(caller, time, delta_time, Seq::empty(), seq![mark]).1;
    let read = handled.receive_queue(caller, Some(encoded), Some(dest), capacity);
    assert forall|i: int| 0 <= i < encoded.len() implies item_start(encoded, (i + 1) as nat)
        <= read.dest->0.len() && read.dest->0.subrange(
        item_start(encoded, i as nat) as int,
        item_start(encoded, (i + 1) as nat) as int,
    ) == #[trigger] encoded[i] by {
        law_items_stand_in_order(encoded, i as nat);
    }
}

/// A probe of the event queue changes nothing, so two probes in a row give
/// the same result, and where they succeed the same length, whatever length
/// went in.
pub proof fn law_probe_of_queue_repeats(
    engine: EngineView,
    caller: u64,
    encoded: Option<Seq<Seq<u8>>>,
    first_length: usize,
    second_length: usize,
)
    ensures
        ({
            let first = engine.receive_queue(caller, encoded, None, first_length);
            let second = first.engine.receive_queue(caller, encoded, None, second_length);
            &&& first.engine == engine
            &&& second.engine == engine
            &&& second.result == first.result
            &&& first.result == EngineResult::Success ==> second.length == first.length
        }),
{
}

/// A probe of a buffer changes nothing, so two probes in a row give the same
/// result, and where they succeed the same length, whatever length went in.
pub proof fn law_probe_of_buffer_repeats(
    engine: EngineView,
    caller: u64,
    key: u64,
    first_length: usize,
    second_length: usize,
)
    ensures
        ({
            let first = engine.download_buffer(caller, key, None, first_length);
            let second = first.engine.download_buffer(caller, key, None, second_length);
            &&& first.engine == engine
            &&& second.engine == engine
            &&& second.result == first.result
            &&& first.result == EngineResult::Success ==> second.length == first.length
        }),
{
}

/// A read of the event queue into too little room gives `BufferOverflow` and
/// the length that is needed, copies nothing and leaves the queue alone: the
/// same read afterwards, with whatever room, names the same length.
pub proof fn law_queue_overflow_is_harmless(
    engine: EngineView,
    caller: u64,
    encoded: Option<Seq<Seq<u8>>>,
    dest: Seq<u8>,
    capacity: usize,
    next_dest: Option<Seq<u8>>,
    next_capacity: usize,
)
    requires
        engine.access(caller) == EngineResult::Success,
        engine.encodes_queue(encoded),
        capacity < batch_bytes(encoded->0).len(),
    ensures
        ({
            let first = engine.receive_queue(caller, encoded, Some(dest), capacity);
            let second = first.engine.receive_queue(caller, encoded, next_dest, next_capacity);
            &&& first.result == EngineResult::BufferOverflow
            &&& first.length == batch_bytes(encoded->0).len()
            &&& first.dest == Some(dest)
            &&& first.engine == engine
            &&& second.length == first.length
        }),
{
}

/// A download into too little room gives `BufferOverflow` and the length that
/// is needed, copies nothing and leaves the store alone: the same read
/// afterwards, with whatever room, names the same length.
pub proof fn law_buffer_overflow_is_harmless(
    engine: EngineView,
    caller: u64,
    key: u64,
    dest: Seq<u8>,
    capacity: usize,
    next_dest: Option<Seq<u8>>,
    next_capacity: usize,
)
    requires
        engine.access(caller) == EngineResult::Success,
        engine.instance->0.state.buffers.contains_key(key),
        capacity < engine.instance->0.state.buffers[key].len(),
    ensures
        ({
            let first = engine.download_buffer(caller, key, Some(dest), capacity);
            let second = first.engine.download_buffer(caller, key, next_dest, next_capacity);
            &&& first.result == EngineResult::BufferOverflow
            &&& first.length == engine.instance->0.state.buffers[key].len()
            &&& first.dest == Some(dest)
            &&& first.engine == engine
            &&& second.length == first.length
        }),
{
}

/// The event queue is drained all at once or not at all. A read into room
/// enough copies the whole batch and leaves the queue empty, and nothing else
/// changed; a read into too little room leaves the queue exactly as it was.
/// After a drain, a probe with the encodings of no events finds the empty
/// batch.
pub proof fn law_drain_is_atomic(
    engine: EngineView,
    caller: u64,
    encoded: Option<Seq<Seq<u8>>>,
    dest: Seq<u8>,
    capacity: usize,
)
    requires
        engine.access(caller) == EngineResult::Success,
        engine.encodes_queue(encoded),
    ensures
        ({
            let outcome = engine.receive_queue(caller, encoded, Some(dest), capacity);
            let batch = batch_bytes(encoded->0);
            let state = engine.instance->0.state;
            &&& batch.len() <= capacity ==> {
                &&& outcome.result == EngineResult::Success
                &&& outcome.length == batch.len()
                &&& outcome.dest == Some(overwritten(dest, batch))
                &&& outcome.engine == engine.with_state(state.with_events(Seq::empty()))
                &&& outcome.engine.receive_queue(caller, Some(Seq::empty()), None, capacity).length
                    == batch_bytes(Seq::<Seq<u8>>::empty()).len()
            }
            &&& batch.len() > capacity ==> {
                &&& outcome.result == EngineResult::BufferOverflow
                &&& outcome.engine == engine
                &&& outcome.dest == Some(dest)
            }
        }),
{
}

/// What was uploaded is what a download finds, until the key is uploaded
/// again or cleared: a read into room enough copies those very bytes. After a
/// clearance the key holds nothing, and a download gives `UnknownError`.
pub proof fn law_store_keeps_what_was_uploaded(
    engine: EngineView,
    caller: u64,
    key: u64,
    bytes: Seq<u8>,
    dest: Seq<u8>,
    capacity: usize,
)
    requires
        engine.access(caller) == EngineResult::Success,
        bytes.len() <= capacity,
    ensures
        ({
            let stored = engine.upload_buffer(caller, key, bytes).1;
            let read = stored.download_buffer(caller, key, Some(dest), capacity);
            let cleared = stored.clear_buffer(caller, key).1;
            &&& read.result == EngineResult::Success
            &&& read.length == bytes.len()
            &&& read.dest == Some(overwritten(dest, bytes))
            &&& read.engine == stored
            &&& cleared.download_buffer(caller, key, Some(dest), capacity).result
                == EngineResult::UnknownError
            &&& engine.clear_buffer(caller, key).0 == EngineResult::Success
        }),
{
}

/// The identifier that the next window gets is always a new one: in a fresh
/// state every identifier in use lies below the counter, and whatever is done
/// to the state keeps it so.
pub proof fn law_state_keeps_identifiers_fresh(
    state: EngineStateView,
    native: u64,
    window_event: RawWindowEvent,
    gamepad_event: RawPadEvent,
    system_event: SystemEvent,
    batch: Seq<EngineCmdEnvelope>,
    reports: Seq<WindowCreateReport>,
    envelope: EngineCmdEnvelope,
    args: CmdWindowCreateArgs,
    report: WindowCreateReport,
    key: u64,
    bytes: Seq<u8>,
)
    requires
        state.ids_below_counter(),
    ensures
        EngineStateView::fresh().ids_below_counter(),
        window_create(state, args, report).1.ids_below_counter(),
        after_command(state, envelope, Some(report)).ids_below_counter(),
        after_command(state, envelope, None).ids_below_counter(),
        after_window_event(state, native, window_event).ids_below_counter(),
        after_gamepad_event(state, gamepad_event).ids_below_counter(),
        after_system_event(state, system_event).ids_below_counter(),
        after_batch(state, batch, reports).ids_below_counter(),
        state.with_buffers(state.buffers.insert(key, bytes)).ids_below_counter(),
        state.with_buffers(state.buffers.remove(key)).ids_below_counter(),
{
    lemma_batch_keeps_ids_fresh(state, batch, reports, batch.len());
    lemma_command_keeps_ids_fresh(state, envelope, Some(report));
    lemma_command_keeps_ids_fresh(state, envelope, None);
    lemma_command_keeps_ids_fresh(
        state,
        EngineCmdEnvelope { id: envelope.id, cmd: EngineCmd::CmdWindowCreate(args) },
        Some(report),
    );
}

/// The context is well formed before the first initialization, and every
/// entry point keeps it so: there is never an instance without an owner, and
/// the identifier that the next window gets is always a new one.
pub proof fn law_engine_stays_well_formed(
    engine: EngineView,
    caller: u64,
    decoded: Option<Seq<EngineCmdEnvelope>>,
    encoded: Option<Seq<Seq<u8>>>,
    key: u64,
    bytes: Seq<u8>,
    dest: Option<Seq<u8>>,
    capacity: usize,
    time: u64,
    delta_time: u32,
    gamepad: Seq<RawPadEvent>,
    platform: Seq<PlatformEvent>,
)
    requires
        engine.well_formed(),
    ensures
        EngineView::uninitialized().well_formed(),
        engine.init(caller).1.well_formed(),
        engine.dispose(caller).1.well_formed(),
        engine.send_queue(caller, decoded).1.well_formed(),
        engine.tick(caller, time, delta_time, gamepad, platform).1.well_formed(),
        engine.upload_buffer(caller, key, bytes).1.well_formed(),
        engine.clear_buffer(caller, key).1.well_formed(),
        engine.download_buffer(caller, key, dest, capacity).engine.well_formed(),
        engine.receive_queue(caller, encoded, dest, capacity).engine.well_formed(),
{
    if engine.instance is Some {
        law_tick_effect(engine.instance->0, time, delta_time, gamepad, platform);
    }
}

} // verus!
