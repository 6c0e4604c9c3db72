use engine_core::cmd::{CmdWindowCreateArgs, EngineCmd, EngineCmdEnvelope};
use engine_core::engine::{
    engine_clear_buffer, engine_dispose, engine_download_buffer, engine_init,
    engine_receive_queue, engine_send_queue, engine_tick, engine_waiting_commands,
    engine_upload_buffer, with_engine, Engine,
};
use engine_core::result::EngineResult;
use engine_core::state::EngineState;

const OWNER: u64 = 11;
const OTHER: u64 = 12;

fn one_command(id: u64) -> Vec<EngineCmdEnvelope> {
    vec![EngineCmdEnvelope { id, cmd: EngineCmd::CmdWindowCreate(CmdWindowCreateArgs::default()) }]
}

#[test]
fn init_makes_the_caller_owner() {
    let mut engine = Engine::new();
    assert_eq!(engine_init(&mut engine, OWNER), EngineResult::Success);
    assert_eq!(with_engine(&mut engine, OWNER, |state: &mut EngineState| state.time()), Ok(0));
}

#[test]
fn second_init_is_already_initialized() {
    let mut engine = Engine::new();
    assert_eq!(engine_init(&mut engine, OWNER), EngineResult::Success);
    assert_eq!(engine_init(&mut engine, OWNER), EngineResult::AlreadyInitialized);
    assert_eq!(engine_init(&mut engine, OWNER), EngineResult::AlreadyInitialized);
}

#[test]
fn init_from_another_thread_is_wrong_thread() {
    let mut engine = Engine::new();
    assert_eq!(engine_init(&mut engine, OWNER), EngineResult::Success);
    assert_eq!(engine_init(&mut engine, OTHER), EngineResult::WrongThread);
    assert_eq!(engine_dispose(&mut engine, OWNER), EngineResult::Success);
    // the owner stays bound after the instance is gone
    assert_eq!(engine_init(&mut engine, OTHER), EngineResult::WrongThread);
    assert_eq!(engine_init(&mut engine, OWNER), EngineResult::Success);
}

#[test]
fn dispose_without_init_is_not_initialized() {
    let mut engine = Engine::new();
    assert_eq!(engine_dispose(&mut engine, OWNER), EngineResult::NotInitialized);
}

#[test]
fn second_dispose_is_not_initialized() {
    let mut engine = Engine::new();
    assert_eq!(engine_init(&mut engine, OWNER), EngineResult::Success);
    assert_eq!(engine_dispose(&mut engine, OWNER), EngineResult::Success);
    assert_eq!(engine_dispose(&mut engine, OWNER), EngineResult::NotInitialized);
}

#[test]
fn init_after_dispose_gives_a_fresh_instance() {
    let mut engine = Engine::new();
    assert_eq!(engine_init(&mut engine, OWNER), EngineResult::Success);
    assert_eq!(engine_upload_buffer(&mut engine, OWNER, 1, &[9, 9]), EngineResult::Success);
    assert_eq!(engine_tick(&mut engine, OWNER, 40, 4, vec![], vec![]), EngineResult::Success);
    assert_eq!(engine_dispose(&mut engine, OWNER), EngineResult::Success);
    assert_eq!(engine_init(&mut engine, OWNER), EngineResult::Success);
    let mut length = 0usize;
    assert_eq!(
        engine_download_buffer(&mut engine, OWNER, 1, None, &mut length),
        EngineResult::UnknownError
    );
    assert_eq!(with_engine(&mut engine, OWNER, |state: &mut EngineState| state.time()), Ok(0));
}

#[test]
fn every_entry_point_is_not_initialized_before_init() {
    let mut engine = Engine::new();
    let mut length = 3usize;
    assert_eq!(engine_send_queue(&mut engine, OWNER, Some(one_command(1))), EngineResult::NotInitialized);
    assert_eq!(engine_waiting_commands(&engine, OWNER), Err(EngineResult::NotInitialized));
    assert_eq!(engine_tick(&mut engine, OWNER, 1, 1, vec![], vec![]), EngineResult::NotInitialized);
    assert_eq!(
        engine_receive_queue(&mut engine, OWNER, Some(vec![]), None, &mut length),
        EngineResult::NotInitialized
    );
    assert_eq!(engine_upload_buffer(&mut engine, OWNER, 5, &[1]), EngineResult::NotInitialized);
    assert_eq!(
        engine_download_buffer(&mut engine, OWNER, 5, None, &mut length),
        EngineResult::NotInitialized
    );
    assert_eq!(engine_clear_buffer(&mut engine, OWNER, 5), EngineResult::NotInitialized);
    assert_eq!(
        with_engine(&mut engine, OWNER, |state: &mut EngineState| state.time()),
        Err(EngineResult::NotInitialized)
    );
    assert_eq!(length, 3);
}

#[test]
fn every_entry_point_turns_another_thread_away() {
    let mut engine = Engine::new();
    assert_eq!(engine_init(&mut engine, OWNER), EngineResult::Success);
    assert_eq!(engine_upload_buffer(&mut engine, OWNER, 5, &[1, 2, 3]), EngineResult::Success);
    let mut length = 8usize;
    let mut dest = [0u8; 8];
    assert_eq!(engine_send_queue(&mut engine, OTHER, Some(one_command(1))), EngineResult::WrongThread);
    assert_eq!(engine_send_queue(&mut engine, OTHER, None), EngineResult::WrongThread);
    assert_eq!(engine_waiting_commands(&engine, OTHER), Err(EngineResult::WrongThread));
    assert_eq!(engine_tick(&mut engine, OTHER, 77, 7, vec![], vec![]), EngineResult::WrongThread);
    assert_eq!(
        engine_receive_queue(&mut engine, OTHER, Some(vec![]), Some(&mut dest[..]), &mut length),
        EngineResult::WrongThread
    );
    assert_eq!(engine_upload_buffer(&mut engine, OTHER, 5, &[7]), EngineResult::WrongThread);
    assert_eq!(
        engine_download_buffer(&mut engine, OTHER, 5, Some(&mut dest[..]), &mut length),
        EngineResult::WrongThread
    );
    assert_eq!(engine_clear_buffer(&mut engine, OTHER, 5), EngineResult::WrongThread);
    assert_eq!(
        with_engine(&mut engine, OTHER, |state: &mut EngineState| state.time()),
        Err(EngineResult::WrongThread)
    );
    assert_eq!(engine_dispose(&mut engine, OTHER), EngineResult::WrongThread);
    // nothing was touched
    assert_eq!(length, 8);
    assert_eq!(dest, [0u8; 8]);
    assert_eq!(with_engine(&mut engine, OWNER, |state: &mut EngineState| state.time()), Ok(0));
    assert_eq!(
        engine_download_buffer(&mut engine, OWNER, 5, Some(&mut dest[..]), &mut length),
        EngineResult::Success
    );
    assert_eq!(&dest[..3], &[1, 2, 3]);
    assert_eq!(engine_waiting_commands(&engine, OWNER), Ok(&vec![]));
}

#[test]
fn another_thread_is_turned_away_after_dispose_too() {
    let mut engine = Engine::new();
    assert_eq!(engine_init(&mut engine, OWNER), EngineResult::Success);
    assert_eq!(engine_dispose(&mut engine, OWNER), EngineResult::Success);
    assert_eq!(engine_tick(&mut engine, OTHER, 1, 1, vec![], vec![]), EngineResult::WrongThread);
    assert_eq!(engine_tick(&mut engine, OWNER, 1, 1, vec![], vec![]), EngineResult::NotInitialized);
}

#[test]
fn with_engine_runs_the_operation_on_the_state() {
    let mut engine = Engine::new();
    assert_eq!(engine_init(&mut engine, OWNER), EngineResult::Success);
    let r = with_engine(&mut engine, OWNER, |state: &mut EngineState| {
        state.upload(3, vec![4, 5]);
        17u32
    });
    assert_eq!(r, Ok(17));
    let mut length = 0usize;
    assert_eq!(engine_download_buffer(&mut engine, OWNER, 3, None, &mut length), EngineResult::Success);
    assert_eq!(length, 2);
}

#[test]
fn tick_records_time_and_delta() {
    let mut engine = Engine::new();
    assert_eq!(engine_init(&mut engine, OWNER), EngineResult::Success);
    assert_eq!(engine_tick(&mut engine, OWNER, 1234, 16, vec![], vec![]), EngineResult::Success);
    let seen = with_engine(&mut engine, OWNER, |state: &mut EngineState| {
        (state.time(), state.delta_time())
    });
    assert_eq!(seen, Ok((1234, 16)));
}

#[test]
fn undecoded_batch_is_rejected_whole() {
    let mut engine = Engine::new();
    // the decode error comes before the engine is looked for
    assert_eq!(engine_send_queue(&mut engine, OWNER, None), EngineResult::CmdInvalidCborError);
    assert_eq!(engine_init(&mut engine, OWNER), EngineResult::Success);
    assert_eq!(engine_send_queue(&mut engine, OWNER, None), EngineResult::CmdInvalidCborError);
    assert_eq!(engine_waiting_commands(&engine, OWNER), Ok(&vec![]));
}

#[test]
fn batches_wait_in_the_order_of_submission() {
    let mut engine = Engine::new();
    assert_eq!(engine_init(&mut engine, OWNER), EngineResult::Success);
    let mut first = one_command(9);
    first.extend(one_command(3));
    assert_eq!(engine_send_queue(&mut engine, OWNER, Some(first.clone())), EngineResult::Success);
    assert_eq!(engine_send_queue(&mut engine, OWNER, Some(vec![])), EngineResult::Success);
    assert_eq!(engine_send_queue(&mut engine, OWNER, Some(one_command(1))), EngineResult::Success);
    let waiting = engine_waiting_commands(&engine, OWNER).unwrap();
    assert_eq!(waiting, &vec![first, vec![], one_command(1)]);
    assert_eq!(waiting[0][0].id, 9);
    assert_eq!(waiting[0][1].id, 3);
    // looking at them does not take them
    assert_eq!(engine_waiting_commands(&engine, OWNER).map(|w| w.len()), Ok(3));
}
