//! The two-phase exchange of a buffer whose length the host cannot know.
//!
//! The host and the engine share no allocator, so the host brings the memory.
//! It passes a destination and a length that goes in and comes out. Without a
//! destination the call is a probe: it tells the length that is needed and
//! copies nothing. With a destination the length going in is the room that the
//! host has: where the data fits it is copied, and where it does not, nothing
//! is copied at all. Either way the length coming out is the length needed, so
//! that the host can come again with enough room.

use vstd::prelude::*;
use crate::result::EngineResult;

verus! {

/// Whether a read copies the data: it has a destination with room enough.
pub open spec fn read_copies(required: nat, probe: bool, capacity: usize) -> bool {
    !probe && required <= capacity
}

/// The result of a read of `required` bytes: `BufferOverflow` where there is a
/// destination without room enough, else `Success`.
pub open spec fn read_result(required: nat, probe: bool, capacity: usize) -> EngineResult {
    if probe || required <= capacity {
        EngineResult::Success
    } else {
        EngineResult::BufferOverflow
    }
}

/// A destination after `source` was copied to its start: the bytes after the
/// copy stay as they were.
pub open spec fn overwritten(dest: Seq<u8>, source: Seq<u8>) -> Seq<u8>
    recommends
        source.len() <= dest.len(),
{
    source + dest.subrange(source.len() as int, dest.len() as int)
}

/// The destination after a read.
pub open spec fn read_destination(
    source: Seq<u8>,
    dest: Option<Seq<u8>>,
    capacity: usize,
) -> Option<Seq<u8>> {
    match dest {
        Some(d) => Some(
            if read_copies(source.len(), false, capacity) {
                overwritten(d, source)
            } else {
                d
            },
        ),
        None => None,
    }
}

/// Copies `source` to the start of `dest`.
pub fn copy_to_start(source: &[u8], dest: &mut [u8])
    requires
        source@.len() <= old(dest)@.len(),
    ensures
        final(dest)@ == overwritten(old(dest)@, source@),
{
    let n = source.len();
    let mut i: usize = 0;
    while i < n
        invariant
            n == source@.len(),
            i <= n,
            n <= dest@.len(),
            dest@.len() == old(dest)@.len(),
            forall|j: int| 0 <= j < i ==> dest@[j] == source@[j],
            forall|j: int| i <= j < dest@.len() ==> dest@[j] == old(dest)@[j],
        decreases n - i,
    {
        dest[i] = source[i];
        i += 1;
    }
}

/// Reads `source` by the two-phase convention.
///
/// `out` is the destination, `None` for a probe. `in_out_length` holds the
/// room of the destination going in and the length of `source` coming out.
/// The room that the host names must lie within the destination.
pub fn two_phase_read(source: &[u8], out: Option<&mut [u8]>, in_out_length: &mut usize) -> (r:
    EngineResult)
    requires
        out matches Some(d) ==> *old(in_out_length) <= d@.len(),
    ensures
        r == read_result(source@.len(), out is None, *old(in_out_length)),
        *final(in_out_length) == source@.len(),
        match out {
            Some(d) => Some(final(d)@) == read_destination(
                source@,
                Some(d@),
                *old(in_out_length),
            ),
            None => true,
        },
{
    let required_length = source.len();
    match out {
        None => {
            *in_out_length = required_length;
            EngineResult::Success
        },
        Some(dest) => {
            let available_length = *in_out_length;
            *in_out_length = required_length;
            if required_length <= available_length {
                copy_to_start(source, dest);
                EngineResult::Success
            } else {
                EngineResult::BufferOverflow
            }
        },
    }
}

/// A copy keeps the length of the destination and puts the data at its start.
pub proof fn law_copy_keeps_the_rest(dest: Seq<u8>, source: Seq<u8>)
    requires
        source.len() <= dest.len(),
    ensures
        overwritten(dest, source).len() == dest.len(),
        overwritten(dest, source).subrange(0, source.len() as int) == source,
        overwritten(dest, source).subrange(source.len() as int, dest.len() as int)
            == dest.subrange(source.len() as int, dest.len() as int),
{
}

} // verus!
