//! The firmware block sub-framer: splits an extracted firmware payload into
//! consecutive 132-byte blocks, validates each block's embedded sequence
//! counter, and reassembles the 128-byte data portions into the true
//! firmware image.

use vstd::prelude::*;
use crate::types::Up2Error;
use crate::wire::{read_u32, read_u8, spec_le32};

verus! {

/// The little-endian sequence counter carried in the first 4 bytes of the
/// block at index `i` of payload `p`.
pub open spec fn block_seq(p: Seq<u8>, i: int) -> u32 {
    spec_le32(p, 132 * i)
}

/// The number of whole 132-byte blocks in payload `p`.
pub open spec fn spec_block_count(p: Seq<u8>) -> int {
    p.len() as int / 132
}

/// True when every block of `p` before index `n` carries exactly its own
/// index as its sequence counter.
pub open spec fn seqs_ok_upto(p: Seq<u8>, n: int) -> bool {
    forall|i: int| 0 <= i < n ==> (#[trigger] block_seq(p, i)) as int == i
}

/// True when `p` is a well-formed block-structured payload: a whole number
/// of 132-byte blocks, the i-th one carrying sequence counter i.
pub open spec fn blocks_ok(p: Seq<u8>) -> bool {
    &&& p.len() % 132 == 0
    &&& seqs_ok_upto(p, spec_block_count(p))
}

/// The reassembled firmware image of a well-blocked payload: the 128-byte
/// data portions of all blocks, in order, with the 4-byte sequence prefixes
/// discarded.
pub open spec fn spec_reassembled(p: Seq<u8>) -> Seq<u8> {
    Seq::new((spec_block_count(p) * 128) as nat, |j: int| p[132 * (j / 128) + 4 + (j % 128)])
}

/// Partitions `payload` into consecutive 132-byte blocks, fails with
/// `BadLength` when a final partial block is left over, checks that the
/// i-th block's leading counter equals i — the first disagreement is
/// `SequenceMismatch` and nothing is reassembled — and otherwise
/// concatenates the blocks' 128-byte data portions in order.
#[verifier::loop_isolation(false)]
pub fn reassemble_blocks(payload: &[u8]) -> (r: Result<Vec<u8>, Up2Error>)
    ensures
        ({
            let p = payload@;
            let n = spec_block_count(p);
            if p.len() % 132 != 0 {
                r == Err::<Vec<u8>, Up2Error>(
                    Up2Error::BadLength { expected: 132, actual: (p.len() % 132) as usize },
                )
            } else if !seqs_ok_upto(p, n) {
                r matches Err(e) && e matches Up2Error::SequenceMismatch { expected, actual }
                    && expected < n && seqs_ok_upto(p, expected as int) && actual == block_seq(
                    p,
                    expected as int,
                ) && actual as int != expected
            } else {
                r matches Ok(v) && v@ == spec_reassembled(p)
            }
        }),
{
    let n_bytes: usize = payload.len();
    if n_bytes % 132 != 0 {
        return Err(Up2Error::BadLength { expected: 132, actual: n_bytes % 132 });
    }
    let n: usize = n_bytes / 132;
    let mut out: Vec<u8> = Vec::new();
    let mut i: usize = 0;
    while i < n
        invariant
            i <= n,
            seqs_ok_upto(payload@, i as int),
            out@.len() == 128 * i,
            forall|j: int| 0 <= j < out@.len() ==> out@[j] == spec_reassembled(payload@)[j],
        decreases n - i,
    {
        let base: usize = i * 132;
        let seq_val: u32 = read_u32(payload, base);
        if seq_val as usize != i {
            proof {
                assert(block_seq(payload@, i as int) == seq_val);
                assert((block_seq(payload@, i as int)) as int != i as int);
                assert(!seqs_ok_upto(payload@, spec_block_count(payload@)));
            }
            return Err(Up2Error::SequenceMismatch { expected: i, actual: seq_val });
        }
        let mut k: usize = 0;
        while k < 128
            invariant
                k <= 128,
                out@.len() == 128 * i + k,
                forall|j: int| 0 <= j < out@.len() ==> out@[j] == spec_reassembled(payload@)[j],
            decreases 128 - k,
        {
            proof {
                let j = 128 * (i as int) + k as int;
                assert(j / 128 == i as int && j % 128 == k as int) by (nonlinear_arith)
                    requires
                        0 <= k < 128,
                        0 <= i,
                        j == 128 * (i as int) + k as int,
                ;
            }
            out.push(read_u8(payload, base + 4 + k));
            k = k + 1;
        }
        i = i + 1;
    }
    proof {
        assert(out@ =~= spec_reassembled(payload@));
    }
    Ok(out)
}

/// The payload `p` with the 132-byte blocks at indices `a` and `b` exchanged
/// wholesale, sequence prefixes included.
pub open spec fn swap_blocks(p: Seq<u8>, a: int, b: int) -> Seq<u8> {
    Seq::new(
        p.len(),
        |j: int|
            if 132 * a <= j < 132 * a + 132 {
                p[j - 132 * a + 132 * b]
            } else if 132 * b <= j < 132 * b + 132 {
                p[j - 132 * b + 132 * a]
            } else {
                p[j]
            },
    )
}

/// Law: permuting two distinct blocks of a well-sequenced payload, without
/// renumbering them, always leaves a block whose embedded counter disagrees
/// with its position — so reassembling the permuted payload must fail with
/// `SequenceMismatch` rather than silently reorder the data.
pub proof fn lemma_swapped_blocks_mismatch(p: Seq<u8>, a: int, b: int)
    requires
        blocks_ok(p),
        0 <= a < b < spec_block_count(p),
    ensures
        swap_blocks(p, a, b).len() == p.len(),
        !blocks_ok(swap_blocks(p, a, b)),
{
    let q = swap_blocks(p, a, b);
    assert(q.subrange(132 * a, 132 * a + 4) =~= p.subrange(132 * b, 132 * b + 4));
    assert(block_seq(q, a) == block_seq(p, b));
    assert((block_seq(p, b)) as int == b);
    assert((block_seq(q, a)) as int != a);
    assert(!seqs_ok_upto(q, spec_block_count(q)));
}

} // verus!
