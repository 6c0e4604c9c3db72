use std::collections::BTreeMap;

use engine_core::cmd::{
    CmdResultWindowCreate, CmdWindowCreateArgs, EngineCmd, EngineCmdEnvelope, EngineEvent,
    EngineEventEnvelope, EngineWindowState,
};
use engine_core::engine::{
    engine_init, engine_receive_queue, engine_send_queue, engine_tick, engine_waiting_commands,
    with_engine, Engine,
};
use engine_core::events::{SystemEvent, WindowEvent};
use engine_core::raw::RawWindowEvent;
use engine_core::result::EngineResult;
use engine_core::state::EngineState;
use engine_core::surface::{AlphaMode, PresentMode, SurfaceCaps};
use engine_core::tick::PlatformEvent;
use engine_core::win::WindowCreateReport;
use serde_cbor::Value;

const OWNER: u64 = 1;
const NATIVE: u64 = 4242;

fn text(s: &str) -> Value {
    Value::Text(s.to_string())
}

fn map(entries: Vec<(&str, Value)>) -> Value {
    let mut m = BTreeMap::new();
    for (key, value) in entries {
        m.insert(text(key), value);
    }
    Value::Map(m)
}

/// The envelope as a value of the codec, for the events that this file uses.
fn wire_value(envelope: &EngineEventEnvelope) -> Value {
    let (tag, content) = match &envelope.event {
        EngineEvent::WindowCreate(CmdResultWindowCreate { id, success }) => (
            "window-create",
            map(vec![("id", Value::Integer(*id as i128)), ("success", Value::Bool(*success))]),
        ),
        EngineEvent::Window(WindowEvent::OnResize { window_id, width, height }) => (
            "window",
            map(vec![
                ("event", text("on-resize")),
                (
                    "data",
                    map(vec![
                        ("window_id", Value::Integer(*window_id as i128)),
                        ("width", Value::Integer(*width as i128)),
                        ("height", Value::Integer(*height as i128)),
                    ]),
                ),
            ]),
        ),
        EngineEvent::System(SystemEvent::OnResume) => {
            ("system", map(vec![("event", text("on-resume"))]))
        }
        other => panic!("no wire value for {:?}", other),
    };
    map(vec![("id", Value::Integer(envelope.id as i128)), ("type", text(tag)), ("content", content)])
}

fn encode_queue(engine: &mut Engine) -> Option<Vec<Vec<u8>>> {
    with_engine(engine, OWNER, |state: &mut EngineState| {
        state
            .event_queue()
            .iter()
            .map(|envelope| serde_cbor::to_vec(&wire_value(envelope)).ok())
            .collect::<Option<Vec<Vec<u8>>>>()
    })
    .unwrap()
}

fn window_create(id: u64, title: &str, size: [u32; 2]) -> EngineCmdEnvelope {
    EngineCmdEnvelope {
        id,
        cmd: EngineCmd::CmdWindowCreate(CmdWindowCreateArgs {
            title: title.to_string(),
            size,
            position: [0, 0],
            borderless: false,
            resizable: false,
            always_on_top: false,
            initial_state: EngineWindowState::Windowed,
        }),
    }
}

fn caps() -> SurfaceCaps {
    SurfaceCaps {
        formats_srgb: vec![true],
        present_modes: vec![PresentMode::Fifo],
        alpha_modes: vec![AlphaMode::Auto],
    }
}

/// The mark of a collaborator that made every window of the oldest batch
/// that waits.
fn all_windows_made(engine: &Engine) -> PlatformEvent {
    let waiting = engine_waiting_commands(engine, OWNER).unwrap();
    let reports = waiting[0]
        .iter()
        .enumerate()
        .map(|(i, _)| WindowCreateReport::Ready { native: NATIVE + i as u64, caps: Some(caps()) })
        .collect();
    PlatformEvent::Commands { reports }
}

#[test]
fn window_create_is_answered_and_the_queue_drains_once() {
    let mut engine = Engine::new();
    assert_eq!(engine_init(&mut engine, OWNER), EngineResult::Success);
    assert_eq!(
        engine_send_queue(&mut engine, OWNER, Some(vec![window_create(7, "A", [800, 600])])),
        EngineResult::Success
    );
    // the platform had the size of the new window at hand right away
    let platform = vec![
        all_windows_made(&engine),
        PlatformEvent::Window {
            native: NATIVE,
            event: RawWindowEvent::Resized { width: 800, height: 600 },
        },
    ];
    assert_eq!(engine_tick(&mut engine, OWNER, 0, 0, vec![], platform), EngineResult::Success);
    assert_eq!(engine_waiting_commands(&engine, OWNER), Ok(&vec![]));

    // the probe tells the length and takes nothing
    let encoded = encode_queue(&mut engine);
    let mut required = 0usize;
    assert_eq!(
        engine_receive_queue(&mut engine, OWNER, encoded.clone(), None, &mut required),
        EngineResult::Success
    );
    assert!(required > 0);
    let mut again = 0usize;
    assert_eq!(
        engine_receive_queue(&mut engine, OWNER, encoded.clone(), None, &mut again),
        EngineResult::Success
    );
    assert_eq!(again, required);

    // too little room: nothing is copied and the queue stays
    let mut small = vec![0xEEu8; required - 1];
    let mut length = required - 1;
    assert_eq!(
        engine_receive_queue(&mut engine, OWNER, encoded.clone(), Some(&mut small[..]), &mut length),
        EngineResult::BufferOverflow
    );
    assert_eq!(length, required);
    assert!(small.iter().all(|b| *b == 0xEE));
    assert_eq!(encode_queue(&mut engine), encoded);

    // room enough: the batch arrives whole and in order
    let mut dest = vec![0u8; required];
    let mut length = required;
    assert_eq!(
        engine_receive_queue(&mut engine, OWNER, encoded, Some(&mut dest[..]), &mut length),
        EngineResult::Success
    );
    assert_eq!(length, required);
    let decoded: Value = serde_cbor::from_slice(&dest).unwrap();
    assert_eq!(
        decoded,
        Value::Array(vec![
            map(vec![
                ("id", Value::Integer(7)),
                ("type", text("window-create")),
                ("content", map(vec![("id", Value::Integer(0)), ("success", Value::Bool(true))])),
            ]),
            map(vec![
                ("id", Value::Integer(0)),
                ("type", text("window")),
                (
                    "content",
                    map(vec![
                        ("event", text("on-resize")),
                        (
                            "data",
                            map(vec![
                                ("window_id", Value::Integer(0)),
                                ("width", Value::Integer(800)),
                                ("height", Value::Integer(600)),
                            ]),
                        ),
                    ]),
                ),
            ]),
        ])
    );

    // after the drain the queue is empty, and a probe finds the empty batch
    let encoded = encode_queue(&mut engine);
    assert_eq!(encoded, Some(vec![]));
    let mut empty = 99usize;
    assert_eq!(engine_receive_queue(&mut engine, OWNER, encoded, None, &mut empty), EngineResult::Success);
    assert_eq!(empty, 1);
    let mut one = [0u8; 1];
    let mut length = 1usize;
    assert_eq!(
        engine_receive_queue(&mut engine, OWNER, Some(vec![]), Some(&mut one[..]), &mut length),
        EngineResult::Success
    );
    assert_eq!(one, [0x80]);
}

#[test]
fn probe_of_the_queue_takes_nothing() {
    let mut engine = Engine::new();
    assert_eq!(engine_init(&mut engine, OWNER), EngineResult::Success);
    assert_eq!(with_engine(&mut engine, OWNER, |s: &mut EngineState| s.resumed()), Ok(()));
    let encoded = encode_queue(&mut engine);
    let mut first = 0usize;
    let mut second = 0usize;
    assert_eq!(engine_receive_queue(&mut engine, OWNER, encoded.clone(), None, &mut first), EngineResult::Success);
    assert_eq!(engine_receive_queue(&mut engine, OWNER, encoded.clone(), None, &mut second), EngineResult::Success);
    assert_eq!(first, second);
    assert_eq!(first, 1 + encoded.as_ref().unwrap()[0].len());
    let queued = with_engine(&mut engine, OWNER, |s: &mut EngineState| s.event_queue().len());
    assert_eq!(queued, Ok(1));
}

#[test]
fn drain_with_room_to_spare_empties_the_queue() {
    let mut engine = Engine::new();
    assert_eq!(engine_init(&mut engine, OWNER), EngineResult::Success);
    assert_eq!(with_engine(&mut engine, OWNER, |s: &mut EngineState| s.resumed()), Ok(()));
    let encoded = encode_queue(&mut engine);
    let mut dest = vec![0xAAu8; 64];
    let mut length = 64usize;
    assert_eq!(
        engine_receive_queue(&mut engine, OWNER, encoded, Some(&mut dest[..]), &mut length),
        EngineResult::Success
    );
    assert!(length < 64);
    let decoded: Value = serde_cbor::from_slice(&dest[..length]).unwrap();
    assert_eq!(
        decoded,
        Value::Array(vec![map(vec![
            ("id", Value::Integer(0)),
            ("type", text("system")),
            ("content", map(vec![("event", text("on-resume"))])),
        ])])
    );
    assert!(dest[length..].iter().all(|b| *b == 0xAA));
    let queued = with_engine(&mut engine, OWNER, |s: &mut EngineState| s.event_queue().len());
    assert_eq!(queued, Ok(0));
}

#[test]
fn failed_or_mismatched_encoding_is_unknown_error() {
    let mut engine = Engine::new();
    assert_eq!(engine_init(&mut engine, OWNER), EngineResult::Success);
    assert_eq!(with_engine(&mut engine, OWNER, |s: &mut EngineState| s.resumed()), Ok(()));
    let mut dest = [0u8; 16];
    let mut length = 16usize;
    assert_eq!(
        engine_receive_queue(&mut engine, OWNER, None, Some(&mut dest[..]), &mut length),
        EngineResult::UnknownError
    );
    assert_eq!(
        engine_receive_queue(&mut engine, OWNER, Some(vec![]), Some(&mut dest[..]), &mut length),
        EngineResult::UnknownError
    );
    assert_eq!(
        engine_receive_queue(&mut engine, OWNER, Some(vec![vec![1], vec![2]]), None, &mut length),
        EngineResult::UnknownError
    );
    assert_eq!(length, 16);
    assert_eq!(dest, [0u8; 16]);
    let queued = with_engine(&mut engine, OWNER, |s: &mut EngineState| s.event_queue().len());
    assert_eq!(queued, Ok(1));
}
