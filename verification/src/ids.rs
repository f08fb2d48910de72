//! Document id allocation and rendering.
//!
//! A worker allocates a fresh id by fetch-and-increment at the moment it
//! begins processing an item, and submits the id rendered as fixed-width
//! lowercase hexadecimal. Distinct counter values render as distinct
//! strings, so ids are unique across the run.

use vstd::prelude::*;
use crate::numbers::{
    format_fixed_hex, hex_fixed, is_lower_hex_char, pow16,
    lemma_hex_fixed_chars, lemma_hex_fixed_injective,
};
use crate::retry::Counters;

verus! {

/// Width of an externally visible document id, in hexadecimal digits.
pub const DOCUMENT_ID_WIDTH: usize = 11;

/// Hand out the next document id and advance the monotonic source: a
/// fetch-and-increment, taken at the moment a worker begins an item.
pub fn allocate_document_id(c: &mut Counters) -> (id: u64)
    requires
        old(c).next_document_id < u64::MAX,
    ensures
        id == old(c).next_document_id,
        *final(c) == (Counters { next_document_id: (old(c).next_document_id + 1) as u64, ..*old(c) }),
{
    let id = c.next_document_id;
    c.next_document_id = c.next_document_id + 1;
    id
}

/// Render a document id: lowercase hexadecimal, zero-padded to eleven
/// digits. Every id below `pow16(11)` renders as exactly eleven digits;
/// a larger id keeps all its digits rather than losing any.
pub fn document_id_string(id: u64) -> (r: String)
    ensures
        r@ == hex_fixed(id as nat, DOCUMENT_ID_WIDTH as nat),
        id < pow16(DOCUMENT_ID_WIDTH as nat) ==> r@.len() == DOCUMENT_ID_WIDTH,
        forall|i: int| 0 <= i < r@.len() ==> is_lower_hex_char(#[trigger] r@[i]),
{
    proof {
        lemma_hex_fixed_chars(id as nat, DOCUMENT_ID_WIDTH as nat);
    }
    format_fixed_hex(id, DOCUMENT_ID_WIDTH)
}

/// Document ids are pairwise distinct: two different allocations from the
/// monotonic source render as different eleven-digit strings, as long as
/// the ids stay inside the eleven-digit space.
pub proof fn lemma_document_ids_distinct(start: nat, i: nat, j: nat)
    requires
        i != j,
        start + i < pow16(DOCUMENT_ID_WIDTH as nat),
        start + j < pow16(DOCUMENT_ID_WIDTH as nat),
    ensures
        hex_fixed(start + i, DOCUMENT_ID_WIDTH as nat)
            != hex_fixed(start + j, DOCUMENT_ID_WIDTH as nat),
        hex_fixed(start + i, DOCUMENT_ID_WIDTH as nat).len() == DOCUMENT_ID_WIDTH,
{
    lemma_hex_fixed_chars(start + i, DOCUMENT_ID_WIDTH as nat);
    if hex_fixed(start + i, DOCUMENT_ID_WIDTH as nat)
        == hex_fixed(start + j, DOCUMENT_ID_WIDTH as nat) {
        lemma_hex_fixed_injective(start + i, start + j, DOCUMENT_ID_WIDTH as nat);
    }
}

/// The default starting document id: milliseconds since the epoch, from a
/// whole-second count and the sub-second nanoseconds beside it.
pub fn millis_from_parts(secs: u64, subsec_nanos: u32) -> (ms: u64)
    requires
        secs * 1000 + subsec_nanos / 1000000 <= u64::MAX,
    ensures
        ms == secs * 1000 + subsec_nanos / 1000000,
{
    secs * 1000 + (subsec_nanos / 1000000) as u64
}

} // verus!
