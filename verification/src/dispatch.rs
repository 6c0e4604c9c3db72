//! The dispatcher: from a batch of commands to their effects and answers.
//!
//! Commands are handled one by one, in the order of the batch. Each command
//! has one handler. Whatever the handler reports, the command is answered by
//! one event that carries the correlation identifier of the command, and the
//! batch goes on: a command that fails does not stop those after it.

use vstd::prelude::*;
use crate::cmd::{
    CmdResultWindowCreate, EngineBatchCmds, EngineCmd, EngineCmdEnvelope, EngineEvent,
    EngineEventEnvelope,
};
use crate::result::EngineResult;
use crate::state::{EngineState, EngineStateView};
use crate::win::{WindowCreateReport, engine_cmd_window_create, window_create};

verus! {

/// The answer to a window-creation command that ended with `result`, where
/// `id` is the identifier that the window was to get.
pub open spec fn window_answer(result: EngineResult, id: u32) -> CmdResultWindowCreate {
    if result == EngineResult::Success {
        CmdResultWindowCreate::created(id)
    } else {
        CmdResultWindowCreate::failure()
    }
}

/// The result of one command, given the report of the collaborators. A
/// command for which no report came ends with `UnknownError`.
pub open spec fn command_result(
    state: EngineStateView,
    envelope: EngineCmdEnvelope,
    report: Option<WindowCreateReport>,
) -> EngineResult {
    match envelope.cmd {
        EngineCmd::CmdWindowCreate(args) => match report {
            Some(r) => window_create(state, args, r).0,
            None => EngineResult::UnknownError,
        },
    }
}

/// The answer that one command gets.
pub open spec fn command_answer(
    state: EngineStateView,
    envelope: EngineCmdEnvelope,
    report: Option<WindowCreateReport>,
) -> EngineEventEnvelope {
    match envelope.cmd {
        EngineCmd::CmdWindowCreate(_) => EngineEventEnvelope {
            id: envelope.id,
            event: EngineEvent::WindowCreate(
                window_answer(command_result(state, envelope, report), state.window_id_counter),
            ),
        },
    }
}

/// The state after one command: what its handler left, with the answer at the
/// end of the queue. A command without a report changes nothing but the queue.
pub open spec fn after_command(
    state: EngineStateView,
    envelope: EngineCmdEnvelope,
    report: Option<WindowCreateReport>,
) -> EngineStateView {
    let handled = match envelope.cmd {
        EngineCmd::CmdWindowCreate(args) => match report {
            Some(r) => window_create(state, args, r).1,
            None => state,
        },
    };
    handled.push_event(command_answer(state, envelope, report))
}

/// The report for the command at the place `i` of a batch, if one came.
pub open spec fn report_at(reports: Seq<WindowCreateReport>, i: int) -> Option<WindowCreateReport> {
    if 0 <= i < reports.len() {
        Some(reports[i])
    } else {
        None
    }
}

/// The state after the first `n` commands of a batch, handled in order. The
/// report at a place belongs to the command at the same place.
pub open spec fn after_commands(
    state: EngineStateView,
    batch: Seq<EngineCmdEnvelope>,
    reports: Seq<WindowCreateReport>,
    n: nat,
) -> EngineStateView
    decreases n,
{
    if n == 0 {
        state
    } else {
        after_command(
            after_commands(state, batch, reports, (n - 1) as nat),
            batch[n - 1],
            report_at(reports, n - 1),
        )
    }
}

/// The state after a whole batch.
pub open spec fn after_batch(
    state: EngineStateView,
    batch: Seq<EngineCmdEnvelope>,
    reports: Seq<WindowCreateReport>,
) -> EngineStateView {
    after_commands(state, batch, reports, batch.len())
}

/// Handles one command and queues its answer. The result is that of the
/// handler.
pub fn process_command(
    engine: &mut EngineState,
    envelope: &EngineCmdEnvelope,
    report: Option<&WindowCreateReport>,
) -> (r: EngineResult)
    ensures
        r == command_result(
            old(engine)@,
            *envelope,
            match report {
                Some(x) => Some(*x),
                None => None,
            },
        ),
        final(engine)@ == after_command(
            old(engine)@,
            *envelope,
            match report {
                Some(x) => Some(*x),
                None => None,
            },
        ),
{
    match &envelope.cmd {
        EngineCmd::CmdWindowCreate(args) => {
            let id = engine.window_id_counter();
            let result = match report {
                Some(r) => engine_cmd_window_create(engine, args, r),
                None => EngineResult::UnknownError,
            };
            let answer = match result {
                EngineResult::Success => CmdResultWindowCreate { id, success: true },
                _ => CmdResultWindowCreate { id: 0, success: false },
            };
            engine.push_event(
                EngineEventEnvelope { id: envelope.id, event: EngineEvent::WindowCreate(answer) },
            );
            result
        },
    }
}

/// Handles a batch of commands in order, each with the report at its place.
///
/// The result is `Success` whatever the single commands came to: what became
/// of a command is told by its answer.
pub fn engine_process_batch(
    engine: &mut EngineState,
    batch: EngineBatchCmds,
    reports: &Vec<WindowCreateReport>,
) -> (r: EngineResult)
    ensures
        r == EngineResult::Success,
        final(engine)@ == after_batch(old(engine)@, batch@, reports@),
{
    let n = batch.len();
    let mut i: usize = 0;
    while i < n
        invariant
            n == batch@.len(),
            i <= n,
            engine@ == after_commands(old(engine)@, batch@, reports@, i as nat),
        decreases n - i,
    {
        let report = if i < reports.len() {
            Some(&reports[i])
        } else {
            None
        };
        let _ = process_command(engine, &batch[i], report);
        i += 1;
    }
    EngineResult::Success
}

/// The answers that the first `n` commands of a batch get, in order.
pub open spec fn answers(
    state: EngineStateView,
    batch: Seq<EngineCmdEnvelope>,
    reports: Seq<WindowCreateReport>,
    n: nat,
) -> Seq<EngineEventEnvelope>
    decreases n,
{
    if n == 0 {
        Seq::empty()
    } else {
        answers(state, batch, reports, (n - 1) as nat).push(
            command_answer(
                after_commands(state, batch, reports, (n - 1) as nat),
                batch[n - 1],
                report_at(reports, n - 1),
            ),
        )
    }
}

/// One command leaves untouched what the queue held, and adds its answer and
/// nothing else. It leaves the buffers, the time and the modifiers alone, and
/// never lowers the counter of identifiers.
pub proof fn lemma_command_effect(
    state: EngineStateView,
    envelope: EngineCmdEnvelope,
    report: Option<WindowCreateReport>,
)
    ensures
        after_command(state, envelope, report).event_queue == state.event_queue.push(
            command_answer(state, envelope, report),
        ),
        command_answer(state, envelope, report).id == envelope.id,
        after_command(state, envelope, report).buffers == state.buffers,
        after_command(state, envelope, report).time == state.time,
        after_command(state, envelope, report).delta_time == state.delta_time,
        after_command(state, envelope, report).modifiers_state == state.modifiers_state,
        after_command(state, envelope, report).window_id_counter >= state.window_id_counter,
{
}

/// A batch leaves untouched what the queue held and adds one answer for each
/// command, in the order of the batch, each with the correlation identifier of
/// its command. It leaves the buffers, the time and the modifiers alone.
pub proof fn law_batch_is_answered_in_order(
    state: EngineStateView,
    batch: Seq<EngineCmdEnvelope>,
    reports: Seq<WindowCreateReport>,
    n: nat,
)
    requires
        n <= batch.len(),
    ensures
        after_commands(state, batch, reports, n).event_queue == state.event_queue + answers(
            state,
            batch,
            reports,
            n,
        ),
        answers(state, batch, reports, n).len() == n,
        forall|i: int|
            0 <= i < n ==> (#[trigger] answers(state, batch, reports, n)[i]).id == batch[i].id,
        forall|i: int|
            0 <= i < n ==> (#[trigger] answers(state, batch, reports, n)[i]).event is WindowCreate,
        after_commands(state, batch, reports, n).buffers == state.buffers,
        after_commands(state, batch, reports, n).time == state.time,
        after_commands(state, batch, reports, n).delta_time == state.delta_time,
        after_commands(state, batch, reports, n).modifiers_state == state.modifiers_state,
    decreases n,
{
    if n > 0 {
        let m = (n - 1) as nat;
        law_batch_is_answered_in_order(state, batch, reports, m);
        let before = after_commands(state, batch, reports, m);
        lemma_command_effect(before, batch[n - 1], report_at(reports, n - 1));
    }
}

/// A window that a command makes gets an identifier that no window had
/// before: where every identifier in use lies below the counter, this still
/// holds after the command, and a new window has the old counter as its
/// identifier.
pub proof fn lemma_command_keeps_ids_fresh(
    state: EngineStateView,
    envelope: EngineCmdEnvelope,
    report: Option<WindowCreateReport>,
)
    requires
        state.ids_below_counter(),
    ensures
        after_command(state, envelope, report).ids_below_counter(),
        command_result(state, envelope, report) == EngineResult::Success ==> {
            &&& !state.windows.contains_key(state.window_id_counter)
            &&& after_command(state, envelope, report).windows.contains_key(
                state.window_id_counter,
            )
            &&& command_answer(state, envelope, report).event == EngineEvent::WindowCreate(
                CmdResultWindowCreate::created(state.window_id_counter),
            )
        },
{
}

/// Every identifier in use lies below the counter after a batch, where it did
/// so before.
pub proof fn lemma_batch_keeps_ids_fresh(
    state: EngineStateView,
    batch: Seq<EngineCmdEnvelope>,
    reports: Seq<WindowCreateReport>,
    n: nat,
)
    requires
        state.ids_below_counter(),
        n <= batch.len(),
    ensures
        after_commands(state, batch, reports, n).ids_below_counter(),
    decreases n,
{
    if n > 0 {
        let m = (n - 1) as nat;
        lemma_batch_keeps_ids_fresh(state, batch, reports, m);
        lemma_command_keeps_ids_fresh(
            after_commands(state, batch, reports, m),
            batch[n - 1],
            report_at(reports, n - 1),
        );
    }
}

} // verus!
