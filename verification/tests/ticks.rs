use engine_core::cmd::{
    CmdResultWindowCreate, CmdWindowCreateArgs, EngineCmd, EngineCmdEnvelope, EngineEvent,
    EngineEventEnvelope,
};
use engine_core::engine::{
    engine_init, engine_send_queue, engine_tick, engine_upload_buffer, engine_waiting_commands,
    with_engine, Engine,
};
use engine_core::events::{GamepadEvent, SystemEvent, WindowEvent};
use engine_core::raw::{RawPadEvent, RawPadEventType, RawWindowEvent};
use engine_core::result::EngineResult;
use engine_core::state::EngineState;
use engine_core::surface::{AlphaMode, PresentMode, SurfaceCaps};
use engine_core::tick::PlatformEvent;
use engine_core::win::WindowCreateReport;

const OWNER: u64 = 3;

fn ready() -> Engine {
    let mut engine = Engine::new();
    assert_eq!(engine_init(&mut engine, OWNER), EngineResult::Success);
    engine
}

fn caps() -> SurfaceCaps {
    SurfaceCaps {
        formats_srgb: vec![true],
        present_modes: vec![PresentMode::Mailbox],
        alpha_modes: vec![AlphaMode::Auto],
    }
}

fn create(id: u64) -> EngineCmdEnvelope {
    EngineCmdEnvelope { id, cmd: EngineCmd::CmdWindowCreate(CmdWindowCreateArgs::default()) }
}

fn made(native: u64) -> WindowCreateReport {
    WindowCreateReport::Ready { native, caps: Some(caps()) }
}

fn answer(id: u64, window: u32, success: bool) -> EngineEventEnvelope {
    EngineEventEnvelope {
        id,
        event: EngineEvent::WindowCreate(CmdResultWindowCreate { id: window, success }),
    }
}

fn unsolicited(event: EngineEvent) -> EngineEventEnvelope {
    EngineEventEnvelope { id: 0, event }
}

fn queue(engine: &mut Engine) -> Vec<EngineEventEnvelope> {
    with_engine(engine, OWNER, |state: &mut EngineState| state.event_queue().clone()).unwrap()
}

#[test]
fn tick_takes_gamepads_first_then_the_platform_in_order() {
    let mut engine = ready();
    let gamepad = vec![
        RawPadEvent { id: 1, event: RawPadEventType::Disconnected },
        RawPadEvent { id: 2, event: RawPadEventType::Dropped },
        RawPadEvent { id: 3, event: RawPadEventType::Disconnected },
    ];
    let platform = vec![
        PlatformEvent::System(SystemEvent::OnResume),
        PlatformEvent::Window { native: 5, event: RawWindowEvent::CloseRequested },
        PlatformEvent::System(SystemEvent::OnMemoryWarning),
    ];
    assert_eq!(engine_tick(&mut engine, OWNER, 10, 1, gamepad, platform), EngineResult::Success);
    assert_eq!(
        queue(&mut engine),
        vec![
            unsolicited(EngineEvent::Gamepad(GamepadEvent::OnDisconnect { gamepad_id: 1 })),
            unsolicited(EngineEvent::Gamepad(GamepadEvent::OnDisconnect { gamepad_id: 3 })),
            unsolicited(EngineEvent::System(SystemEvent::OnResume)),
            unsolicited(EngineEvent::System(SystemEvent::OnMemoryWarning)),
        ]
    );
}

#[test]
fn empty_tick_only_records_the_time() {
    let mut engine = ready();
    assert_eq!(engine_upload_buffer(&mut engine, OWNER, 1, &[1]), EngineResult::Success);
    assert_eq!(engine_send_queue(&mut engine, OWNER, Some(vec![create(1)])), EngineResult::Success);
    assert_eq!(engine_tick(&mut engine, OWNER, 99, 9, vec![], vec![]), EngineResult::Success);
    let seen = with_engine(&mut engine, OWNER, |state: &mut EngineState| {
        (state.time(), state.delta_time(), state.event_queue().len(), state.buffer(1).cloned())
    });
    assert_eq!(seen, Ok((99, 9, 0, Some(vec![1]))));
    // a batch without its mark waits for a later tick
    assert_eq!(engine_waiting_commands(&engine, OWNER).map(|w| w.len()), Ok(1));
}

#[test]
fn each_mark_handles_the_oldest_batch_that_waits() {
    let mut engine = ready();
    assert_eq!(engine_send_queue(&mut engine, OWNER, Some(vec![create(7), create(8)])), EngineResult::Success);
    assert_eq!(engine_send_queue(&mut engine, OWNER, Some(vec![create(9)])), EngineResult::Success);
    assert_eq!(engine_send_queue(&mut engine, OWNER, Some(vec![create(10)])), EngineResult::Success);
    let platform = vec![
        PlatformEvent::Commands { reports: vec![made(100), WindowCreateReport::WindowFailed] },
        PlatformEvent::System(SystemEvent::OnResume),
        PlatformEvent::Commands { reports: vec![made(101)] },
    ];
    assert_eq!(engine_tick(&mut engine, OWNER, 0, 0, vec![], platform), EngineResult::Success);
    assert_eq!(
        queue(&mut engine),
        vec![
            answer(7, 0, true),
            answer(8, 0, false),
            unsolicited(EngineEvent::System(SystemEvent::OnResume)),
            answer(9, 1, true),
        ]
    );
    assert_eq!(engine_waiting_commands(&engine, OWNER), Ok(&vec![vec![create(10)]]));
    // the next tick goes on where this one stopped
    let platform = vec![PlatformEvent::Commands { reports: vec![made(102)] }];
    assert_eq!(engine_tick(&mut engine, OWNER, 1, 1, vec![], platform), EngineResult::Success);
    assert_eq!(queue(&mut engine).last(), Some(&answer(10, 2, true)));
    assert_eq!(engine_waiting_commands(&engine, OWNER), Ok(&vec![]));
}

#[test]
fn mark_without_a_waiting_batch_does_nothing() {
    let mut engine = ready();
    let platform = vec![
        PlatformEvent::Commands { reports: vec![made(100)] },
        PlatformEvent::Commands { reports: vec![] },
    ];
    assert_eq!(engine_tick(&mut engine, OWNER, 0, 0, vec![], platform), EngineResult::Success);
    assert!(queue(&mut engine).is_empty());
    let counter = with_engine(&mut engine, OWNER, |state: &mut EngineState| state.window_id_counter());
    assert_eq!(counter, Ok(0));
}

#[test]
fn new_window_is_known_to_the_notifications_right_after() {
    let mut engine = ready();
    assert_eq!(engine_send_queue(&mut engine, OWNER, Some(vec![create(4)])), EngineResult::Success);
    let platform = vec![
        // before the window exists its handle means nothing
        PlatformEvent::Window { native: 100, event: RawWindowEvent::Focused(true) },
        PlatformEvent::Commands { reports: vec![made(100)] },
        PlatformEvent::Window { native: 100, event: RawWindowEvent::Focused(true) },
    ];
    assert_eq!(engine_tick(&mut engine, OWNER, 0, 0, vec![], platform), EngineResult::Success);
    assert_eq!(
        queue(&mut engine),
        vec![
            answer(4, 0, true),
            unsolicited(EngineEvent::Window(WindowEvent::OnFocus { window_id: 0, focused: true })),
        ]
    );
}

#[test]
fn tick_keeps_what_the_queue_held() {
    let mut engine = ready();
    let first = vec![PlatformEvent::System(SystemEvent::OnSuspend)];
    assert_eq!(engine_tick(&mut engine, OWNER, 1, 1, vec![], first), EngineResult::Success);
    let second = vec![PlatformEvent::System(SystemEvent::OnResume)];
    assert_eq!(engine_tick(&mut engine, OWNER, 2, 1, vec![], second), EngineResult::Success);
    assert_eq!(
        queue(&mut engine),
        vec![
            unsolicited(EngineEvent::System(SystemEvent::OnSuspend)),
            unsolicited(EngineEvent::System(SystemEvent::OnResume)),
        ]
    );
}
