//! What one tick does to the instance.
//!
//! A tick is one call of the host that moves the engine on. The host side
//! brings what the collaborators had to tell since the tick before: the
//! notifications of the gamepads, and those of the platform in the order in
//! which they came. Among the latter stand the marks that the collaborators
//! did their part of a batch of commands. The tick records its time, takes
//! the gamepad notifications, then the platform's one by one. At each mark it
//! handles the oldest batch that waits. It never waits for anything: what did
//! not come with the call is left for a later tick.

use vstd::prelude::*;
use crate::dispatch::{after_batch, law_batch_is_answered_in_order, lemma_batch_keeps_ids_fresh};
use crate::engine::InstanceView;
use crate::events::SystemEvent;
use crate::normalize::{after_gamepad_event, after_system_event, after_window_event};
use crate::raw::{RawPadEvent, RawWindowEvent};
use crate::state::EngineStateView;
use crate::win::WindowCreateReport;

verus! {

/// What the platform had to tell.
#[derive(Debug, Clone, PartialEq, Eq)]
pub enum PlatformEvent {
    /// A notification about the window with the handle `native`.
    Window { native: u64, event: RawWindowEvent },
    /// A notification about the application as a whole.
    System(SystemEvent),
    /// The collaborators did their part of the oldest batch that waits; the
    /// report at a place belongs to the command at the same place.
    Commands { reports: Vec<WindowCreateReport> },
}

/// The state after the first `n` of some gamepad notifications.
pub open spec fn after_gamepad_events(
    state: EngineStateView,
    events: Seq<RawPadEvent>,
    n: nat,
) -> EngineStateView
    decreases n,
{
    if n == 0 {
        state
    } else {
        after_gamepad_event(after_gamepad_events(state, events, (n - 1) as nat), events[n - 1])
    }
}

/// The instance after one thing that the platform told. A mark that a batch
/// was prepared handles the oldest batch that waits and takes it from those
/// that wait; where none waits, it does nothing.
pub open spec fn after_platform_event(
    instance: InstanceView,
    event: PlatformEvent,
) -> InstanceView {
    match event {
        PlatformEvent::Window { native, event } => InstanceView {
            state: after_window_event(instance.state, native, event),
            ..instance
        },
        PlatformEvent::System(event) => InstanceView {
            state: after_system_event(instance.state, event),
            ..instance
        },
        PlatformEvent::Commands { reports } => if instance.pending.len() == 0 {
            instance
        } else {
            InstanceView {
                state: after_batch(instance.state, instance.pending[0], reports@),
                pending: instance.pending.remove(0),
            }
        },
    }
}

/// The instance after the first `n` things that the platform told.
pub open spec fn after_platform_events(
    instance: InstanceView,
    events: Seq<PlatformEvent>,
    n: nat,
) -> InstanceView
    decreases n,
{
    if n == 0 {
        instance
    } else {
        after_platform_event(
            after_platform_events(instance, events, (n - 1) as nat),
            events[n - 1],
        )
    }
}

/// The instance after a whole tick: the time is recorded, then the gamepad
/// notifications are taken, then what the platform told.
pub open spec fn after_tick(
    instance: InstanceView,
    time: u64,
    delta_time: u32,
    gamepad: Seq<RawPadEvent>,
    platform: Seq<PlatformEvent>,
) -> InstanceView {
    let timed = instance.state.at_time(time, delta_time);
    let polled = after_gamepad_events(timed, gamepad, gamepad.len());
    after_platform_events(InstanceView { state: polled, ..instance }, platform, platform.len())
}

/// How many of the first `n` things that the platform told are marks of a
/// prepared batch.
pub open spec fn marks(events: Seq<PlatformEvent>, n: nat) -> nat
    decreases n,
{
    if n == 0 {
        0
    } else {
        marks(events, (n - 1) as nat) + if events[n - 1] is Commands {
            1nat
        } else {
            0nat
        }
    }
}

/// Gamepad notifications touch nothing but the queue of events, and what the
/// queue held stays at its start.
pub proof fn lemma_gamepad_events_extend_queue(
    state: EngineStateView,
    events: Seq<RawPadEvent>,
    n: nat,
)
    ensures
        after_gamepad_events(state, events, n).with_events(state.event_queue) == state,
        state.event_queue.is_prefix_of(after_gamepad_events(state, events, n).event_queue),
    decreases n,
{
    if n > 0 {
        lemma_gamepad_events_extend_queue(state, events, (n - 1) as nat);
    }
}

/// What the platform told never takes an event from the queue, never touches
/// the buffers or the time, and keeps every identifier that was in use below
/// the counter.
pub proof fn lemma_platform_event_effect(instance: InstanceView, event: PlatformEvent)
    ensures
        instance.state.event_queue.is_prefix_of(
            after_platform_event(instance, event).state.event_queue,
        ),
        after_platform_event(instance, event).state.buffers == instance.state.buffers,
        after_platform_event(instance, event).state.time == instance.state.time,
        after_platform_event(instance, event).state.delta_time == instance.state.delta_time,
        instance.state.ids_below_counter() ==> after_platform_event(
            instance,
            event,
        ).state.ids_below_counter(),
{
    match event {
        PlatformEvent::Commands { reports } => {
            if instance.pending.len() > 0 {
                let batch = instance.pending[0];
                law_batch_is_answered_in_order(instance.state, batch, reports@, batch.len());
                if instance.state.ids_below_counter() {
                    lemma_batch_keeps_ids_fresh(instance.state, batch, reports@, batch.len());
                }
            }
        },
        _ => {},
    }
}

/// Batches are handled in the order in which they were submitted, each at
/// most once: after the first `n` things that the platform told, as many of
/// the oldest batches are gone as there were marks, and the others wait in
/// their order.
pub proof fn law_batches_leave_in_order(
    instance: InstanceView,
    events: Seq<PlatformEvent>,
    n: nat,
)
    ensures
        ({
            let gone = if marks(events, n) <= instance.pending.len() {
                marks(events, n)
            } else {
                instance.pending.len()
            };
            after_platform_events(instance, events, n).pending == instance.pending.subrange(
                gone as int,
                instance.pending.len() as int,
            )
        }),
    decreases n,
{
    if n > 0 {
        law_batches_leave_in_order(instance, events, (n - 1) as nat);
    }
}

/// A tick never takes an event from the queue and never touches the buffers;
/// it leaves the time at what the host named; and it keeps every identifier
/// in use below the counter.
pub proof fn law_tick_effect(
    instance: InstanceView,
    time: u64,
    delta_time: u32,
    gamepad: Seq<RawPadEvent>,
    platform: Seq<PlatformEvent>,
)
    ensures
        instance.state.event_queue.is_prefix_of(
            after_tick(instance, time, delta_time, gamepad, platform).state.event_queue,
        ),
        after_tick(instance, time, delta_time, gamepad, platform).state.buffers
            == instance.state.buffers,
        after_tick(instance, time, delta_time, gamepad, platform).state.time == time,
        after_tick(instance, time, delta_time, gamepad, platform).state.delta_time == delta_time,
        instance.state.ids_below_counter() ==> after_tick(
            instance,
            time,
            delta_time,
            gamepad,
            platform,
        ).state.ids_below_counter(),
{
    let timed = instance.state.at_time(time, delta_time);
    lemma_gamepad_events_extend_queue(timed, gamepad, gamepad.len());
    let polled = after_gamepad_events(timed, gamepad, gamepad.len());
    lemma_platform_events_effect(
        InstanceView { state: polled, ..instance },
        platform,
        platform.len(),
    );
}

/// What holds of one thing that the platform told holds of many.
pub proof fn lemma_platform_events_effect(
    instance: InstanceView,
    events: Seq<PlatformEvent>,
    n: nat,
)
    ensures
        instance.state.event_queue.is_prefix_of(
            after_platform_events(instance, events, n).state.event_queue,
        ),
        after_platform_events(instance, events, n).state.buffers == instance.state.buffers,
        after_platform_events(instance, events, n).state.time == instance.state.time,
        after_platform_events(instance, events, n).state.delta_time == instance.state.delta_time,
        instance.state.ids_below_counter() ==> after_platform_events(
            instance,
            events,
            n,
        ).state.ids_below_counter(),
    decreases n,
{
    if n > 0 {
        lemma_platform_events_effect(instance, events, (n - 1) as nat);
        lemma_platform_event_effect(
            after_platform_events(instance, events, (n - 1) as nat),
            events[n - 1],
        );
    }
}

} // verus!
