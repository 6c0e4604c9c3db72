use engine_core::wire::{frame_batch, write_array_head};
use serde_cbor::Value;

fn encode(value: &Value) -> Vec<u8> {
    serde_cbor::to_vec(value).unwrap()
}

fn head(n: u64) -> Vec<u8> {
    let mut out = Vec::new();
    write_array_head(&mut out, n);
    out
}

#[test]
fn empty_batch_is_one_byte() {
    assert_eq!(frame_batch(&vec![]), vec![0x80]);
    assert_eq!(frame_batch(&vec![]), encode(&Value::Array(vec![])));
}

#[test]
fn head_has_the_shortest_width_that_holds_the_count() {
    assert_eq!(head(0), vec![0x80]);
    assert_eq!(head(1), vec![0x81]);
    assert_eq!(head(23), vec![0x97]);
    assert_eq!(head(24), vec![0x98, 24]);
    assert_eq!(head(255), vec![0x98, 0xff]);
    assert_eq!(head(256), vec![0x99, 0x01, 0x00]);
    assert_eq!(head(0x1234), vec![0x99, 0x12, 0x34]);
    assert_eq!(head(0xffff), vec![0x99, 0xff, 0xff]);
    assert_eq!(head(0x1_0000), vec![0x9a, 0x00, 0x01, 0x00, 0x00]);
    assert_eq!(head(0x1234_5678), vec![0x9a, 0x12, 0x34, 0x56, 0x78]);
    assert_eq!(head(0xffff_ffff), vec![0x9a, 0xff, 0xff, 0xff, 0xff]);
    assert_eq!(head(0x1_0000_0000), vec![0x9b, 0, 0, 0, 1, 0, 0, 0, 0]);
    assert_eq!(
        head(0x0102_0304_0506_0708),
        vec![0x9b, 0x01, 0x02, 0x03, 0x04, 0x05, 0x06, 0x07, 0x08]
    );
    assert_eq!(head(u64::MAX), vec![0x9b, 0xff, 0xff, 0xff, 0xff, 0xff, 0xff, 0xff, 0xff]);
}

#[test]
fn head_is_appended_to_what_is_there() {
    let mut out = vec![1u8, 2];
    write_array_head(&mut out, 300);
    assert_eq!(out, vec![1, 2, 0x99, 0x01, 0x2c]);
}

#[test]
fn head_agrees_with_the_codec_on_how_a_number_is_written() {
    // the codec writes an unsigned number as it writes the count of an
    // array, but for the three bits that tell the kind
    for n in [
        0u64, 1, 22, 23, 24, 25, 254, 255, 256, 257, 65_534, 65_535, 65_536, 65_537, 1 << 24,
        (1 << 32) - 1, 1 << 32, (1 << 32) + 1, 1 << 40, 1 << 56, u64::MAX - 1, u64::MAX,
    ] {
        let ours = head(n);
        let theirs = encode(&Value::Integer(n as i128));
        assert_eq!(ours.len(), theirs.len(), "count {}", n);
        assert_eq!(ours[0], theirs[0] | 0x80, "count {}", n);
        assert_eq!(&ours[1..], &theirs[1..], "count {}", n);
    }
}

#[test]
fn framed_batch_is_what_the_codec_writes_for_the_array() {
    for n in [0usize, 1, 2, 23, 24, 25, 255, 256, 300, 65_535, 65_536, 70_000] {
        let values: Vec<Value> = (0..n)
            .map(|i| match i % 4 {
                0 => Value::Integer(i as i128 * 1000),
                1 => Value::Text(format!("item {}", i)),
                2 => Value::Array(vec![Value::Bool(true), Value::Null]),
                _ => Value::Bytes(vec![i as u8; i % 7]),
            })
            .collect();
        let items: Vec<Vec<u8>> = values.iter().map(encode).collect();
        assert_eq!(frame_batch(&items), encode(&Value::Array(values)), "{} items", n);
    }
}

#[test]
fn framed_batch_keeps_the_order_of_its_items() {
    let items = vec![vec![0x03], vec![0x01], vec![0x02], vec![0x01]];
    assert_eq!(frame_batch(&items), vec![0x84, 0x03, 0x01, 0x02, 0x01]);
    let decoded: Value = serde_cbor::from_slice(&frame_batch(&items)).unwrap();
    assert_eq!(
        decoded,
        Value::Array(vec![Value::Integer(3), Value::Integer(1), Value::Integer(2), Value::Integer(1)])
    );
}

#[test]
fn framed_items_stand_one_after_the_other() {
    let items = vec![vec![0x61, 0x41], vec![], vec![0x18, 0x64]];
    assert_eq!(frame_batch(&items), vec![0x83, 0x61, 0x41, 0x18, 0x64]);
}
