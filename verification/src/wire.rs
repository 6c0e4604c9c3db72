//! The frame of a batch on the wire.
//!
//! A batch travels as a CBOR array of definite length: a head that tells the
//! number of items, then the items one after the other, each in its own
//! encoding. The head is one byte for fewer than 24 items; beyond that it is a
//! byte that tells how many bytes follow, and the number in that many bytes,
//! highest byte first, in the shortest of the widths 1, 2, 4 and 8 that holds
//! it.

use vstd::prelude::*;

verus! {

/// First byte of the head of an array with fewer than 24 items, to which the
/// number of items is added.
pub const ARRAY_SHORT: u8 = 0x80;

/// First byte of the head where the number of items follows in one byte.
pub const ARRAY_U8: u8 = 0x98;

/// First byte of the head where the number of items follows in two bytes.
pub const ARRAY_U16: u8 = 0x99;

/// First byte of the head where the number of items follows in four bytes.
pub const ARRAY_U32: u8 = 0x9a;

/// First byte of the head where the number of items follows in eight bytes.
pub const ARRAY_U64: u8 = 0x9b;

/// The byte of `n` at the place `k`, counted from the lowest.
pub open spec fn byte_of(n: nat, k: nat) -> u8 {
    ((n / pow256(k)) % 256) as u8
}

/// 256 to the power `k`.
pub open spec fn pow256(k: nat) -> nat
    decreases k,
{
    if k == 0 {
        1
    } else {
        256 * pow256((k - 1) as nat)
    }
}

/// The head of an array of `n` items.
pub open spec fn array_head(n: nat) -> Seq<u8>
    recommends
        n <= u64::MAX,
{
    if n < 24 {
        seq![(ARRAY_SHORT + n) as u8]
    } else if n <= 0xff {
        seq![ARRAY_U8, byte_of(n, 0)]
    } else if n <= 0xffff {
        seq![ARRAY_U16, byte_of(n, 1), byte_of(n, 0)]
    } else if n <= 0xffff_ffff {
        seq![ARRAY_U32, byte_of(n, 3), byte_of(n, 2), byte_of(n, 1), byte_of(n, 0)]
    } else {
        seq![
            ARRAY_U64,
            byte_of(n, 7),
            byte_of(n, 6),
            byte_of(n, 5),
            byte_of(n, 4),
            byte_of(n, 3),
            byte_of(n, 2),
            byte_of(n, 1),
            byte_of(n, 0),
        ]
    }
}

/// The first `n` items of a list, one after the other.
pub open spec fn joined(items: Seq<Seq<u8>>, n: nat) -> Seq<u8>
    recommends
        n <= items.len(),
    decreases n,
{
    if n == 0 {
        Seq::empty()
    } else {
        joined(items, (n - 1) as nat) + items[n - 1]
    }
}

/// The bytes of a batch whose items have the given encodings.
pub open spec fn batch_bytes(items: Seq<Seq<u8>>) -> Seq<u8> {
    array_head(items.len()) + joined(items, items.len())
}

/// The encodings that a list of byte vectors holds.
pub open spec fn encodings(items: Seq<Vec<u8>>) -> Seq<Seq<u8>> {
    Seq::new(items.len(), |i: int| items[i]@)
}

/// The values of `pow256` that the head needs.
proof fn lemma_pow256()
    ensures
        pow256(0) == 1,
        pow256(1) == 0x100,
        pow256(2) == 0x1_0000,
        pow256(3) == 0x100_0000,
        pow256(4) == 0x1_0000_0000,
        pow256(5) == 0x100_0000_0000,
        pow256(6) == 0x1_0000_0000_0000,
        pow256(7) == 0x100_0000_0000_0000,
{
    reveal_with_fuel(pow256, 9);
}

/// Writes the head of an array of `n` items.
pub fn write_array_head(out: &mut Vec<u8>, n: u64)
    ensures
        final(out)@ == old(out)@ + array_head(n as nat),
{
    proof {
        lemma_pow256();
    }
    if n < 24 {
        out.push(ARRAY_SHORT + (n as u8));
    } else if n <= 0xff {
        out.push(ARRAY_U8);
        out.push(n as u8);
    } else if n <= 0xffff {
        out.push(ARRAY_U16);
        out.push(((n / 0x100) % 256) as u8);
        out.push((n % 256) as u8);
    } else if n <= 0xffff_ffff {
        out.push(ARRAY_U32);
        out.push(((n / 0x100_0000) % 256) as u8);
        out.push(((n / 0x1_0000) % 256) as u8);
        out.push(((n / 0x100) % 256) as u8);
        out.push((n % 256) as u8);
    } else {
        out.push(ARRAY_U64);
        out.push(((n / 0x100_0000_0000_0000) % 256) as u8);
        out.push(((n / 0x1_0000_0000_0000) % 256) as u8);
        out.push(((n / 0x100_0000_0000) % 256) as u8);
        out.push(((n / 0x1_0000_0000) % 256) as u8);
        out.push(((n / 0x100_0000) % 256) as u8);
        out.push(((n / 0x1_0000) % 256) as u8);
        out.push(((n / 0x100) % 256) as u8);
        out.push((n % 256) as u8);
    }
}

/// Appends the bytes of `item` to `out`.
fn append_item(out: &mut Vec<u8>, item: &Vec<u8>)
    ensures
        final(out)@ == old(out)@ + item@,
{
    let n = item.len();
    let mut i: usize = 0;
    while i < n
        invariant
            n == item@.len(),
            i <= n,
            out@ == old(out)@ + item@.subrange(0, i as int),
        decreases n - i,
    {
        out.push(item[i]);
        i += 1;
    }
}

/// Frames a batch: the head for the number of items, then the items in their
/// order.
pub fn frame_batch(items: &Vec<Vec<u8>>) -> (out: Vec<u8>)
    ensures
        out@ == batch_bytes(encodings(items@)),
{
    let n = items.len();
    let mut out: Vec<u8> = Vec::new();
    write_array_head(&mut out, n as u64);
    let mut i: usize = 0;
    while i < n
        invariant
            n == items@.len(),
            i <= n,
            out@ == array_head(n as nat) + joined(encodings(items@), i as nat),
        decreases n - i,
    {
        append_item(&mut out, &items[i]);
        i += 1;
    }
    out
}

/// The place in a framed batch where the item `i` begins.
pub open spec fn item_start(items: Seq<Seq<u8>>, i: nat) -> nat {
    array_head(items.len()).len() + joined(items, i).len()
}

/// The items joined up to `n` begin with the items joined up to `m`, for `m`
/// no greater than `n`.
pub proof fn lemma_joined_prefix(items: Seq<Seq<u8>>, m: nat, n: nat)
    requires
        m <= n <= items.len(),
    ensures
        joined(items, m).len() <= joined(items, n).len(),
        joined(items, n).subrange(0, joined(items, m).len() as int) == joined(items, m),
    decreases n,
{
    if m < n {
        lemma_joined_prefix(items, m, (n - 1) as nat);
    }
}

/// A framed batch holds its items in their order: the item `i` stands, byte
/// for byte, right after the head and the items before it. So an item that
/// comes earlier in the batch comes earlier in the bytes.
pub proof fn law_items_stand_in_order(items: Seq<Seq<u8>>, i: nat)
    requires
        i < items.len(),
    ensures
        item_start(items, i) + items[i as int].len() == item_start(items, i + 1),
        item_start(items, i + 1) <= batch_bytes(items).len(),
        batch_bytes(items).subrange(item_start(items, i) as int, item_start(items, i + 1) as int)
            == items[i as int],
{
    let upto = joined(items, i + 1);
    lemma_joined_prefix(items, i + 1, items.len());
    assert(upto.subrange(joined(items, i).len() as int, upto.len() as int) =~= items[i as int]);
}

/// An empty batch is the one byte that heads an array without items.
pub proof fn law_empty_batch_is_one_byte()
    ensures
        batch_bytes(Seq::<Seq<u8>>::empty()) == seq![ARRAY_SHORT],
{
}

} // verus!
