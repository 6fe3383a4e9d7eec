//! One's-complement-of-sum integrity byte covering a frame's device id,
//! length, opcode-or-error byte, and parameter bytes. This module is the
//! single source of truth for checksum semantics: frame construction and
//! frame validation both go through it.

use vstd::arithmetic::div_mod::{lemma_add_mod_noop_right, lemma_mod_bound};
use vstd::prelude::*;

verus! {

/// Sum of a byte sequence as an unbounded integer.
pub open spec fn byte_sum(s: Seq<u8>) -> int
    decreases s.len(),
{
    if s.len() == 0 {
        0
    } else {
        byte_sum(s.drop_last()) + s.last()
    }
}

pub proof fn lemma_byte_sum_nonneg(s: Seq<u8>)
    ensures
        byte_sum(s) >= 0,
    decreases s.len(),
{
    if s.len() > 0 {
        lemma_byte_sum_nonneg(s.drop_last());
    }
}

/// The checksum byte of a frame: the bitwise complement of the low eight
/// bits of the sum of every covered byte.
pub open spec fn checksum_of(id: u8, length: u8, kind: u8, parameters: Seq<u8>) -> u8 {
    (255 - ((id + length + kind + byte_sum(parameters)) % 256)) as u8
}

/// Whether a claimed checksum byte is exactly the one the covered fields
/// demand; no tolerance, no partial match.
pub open spec fn checksum_matches(
    id: u8,
    length: u8,
    kind: u8,
    parameters: Seq<u8>,
    claimed: u8,
) -> bool {
    claimed == checksum_of(id, length, kind, parameters)
}

proof fn lemma_byte_sum_step(s: Seq<u8>, i: int)
    requires
        0 <= i < s.len(),
    ensures
        byte_sum(s.take(i + 1)) == byte_sum(s.take(i)) + s[i],
{
    assert(s.take(i + 1).drop_last() =~= s.take(i));
    assert(s.take(i + 1).last() == s[i]);
}

/// Accumulate the covered bytes, reduced to the low eight bits at every
/// step so the accumulator can never overflow, then complement.
pub fn compute_checksum(id: u8, length: u8, instruction: u8, parameters: &[u8]) -> (r: u8)
    ensures
        r == checksum_of(id, length, instruction, parameters@),
{
    let mut acc: u16 = (id as u16 + length as u16 + instruction as u16) % 256;
    let ghost head: int = id + length + instruction;
    proof {
        lemma_mod_bound(head, 256);
    }
    let mut i: usize = 0;
    while i < parameters.len()
        invariant
            i <= parameters@.len(),
            0 <= acc < 256,
            acc == (head + byte_sum(parameters@.take(i as int))) % 256,
        decreases parameters@.len() - i,
    {
        let b = *vstd::slice::slice_index_get(parameters, i);
        proof {
            lemma_byte_sum_step(parameters@, i as int);
            lemma_byte_sum_nonneg(parameters@.take(i as int));
            lemma_add_mod_noop_right(b as int, head + byte_sum(parameters@.take(i as int)), 256);
            lemma_mod_bound(head + byte_sum(parameters@.take(i as int)) + b, 256);
        }
        acc = (acc + b as u16) % 256;
        i = i + 1;
    }
    proof {
        assert(parameters@.take(parameters@.len() as int) =~= parameters@);
    }
    255 - (acc as u8)
}

/// Recompute the checksum over the covered fields and compare with the
/// claimed byte for exact equality.
pub fn verify_checksum(
    id: u8,
    length: u8,
    kind: u8,
    parameters: &[u8],
    claimed: u8,
) -> (r: bool)
    ensures
        r == checksum_matches(id, length, kind, parameters@, claimed),
{
    compute_checksum(id, length, kind, parameters) == claimed
}

/// Law: a checksum computed over given fields always verifies against those
/// same fields.
pub proof fn lemma_compute_verifies(id: u8, length: u8, kind: u8, parameters: Seq<u8>)
    ensures
        checksum_matches(id, length, kind, parameters, checksum_of(id, length, kind, parameters)),
{
}

} // verus!
