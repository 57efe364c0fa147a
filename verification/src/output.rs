//! Conversion of the engine's reply into a caller-owned consensus, for both
//! observed calling conventions: a sentinel-terminated reply owned by the
//! engine, and a caller-bounded output buffer with a written-length count.

use vstd::prelude::*;

use crate::ConsensusError;

verus! {

/// Whether the reply carries a terminating sentinel at all.
pub open spec fn has_sentinel(reply: Seq<u8>) -> bool {
    exists|i: int| 0 <= i < reply.len() && reply[i] == 0
}

/// Number of payload bytes before the first sentinel.
pub open spec fn payload_len(reply: Seq<u8>) -> int
    decreases reply.len(),
{
    if reply.len() == 0 {
        0
    } else if reply[0] == 0 {
        0
    } else {
        1 + payload_len(reply.skip(1))
    }
}

/// What the binding makes of an engine-owned reply: the payload before the
/// first sentinel, to be copied into caller-owned memory. A reply with no
/// sentinel, or with nothing before it, is an abnormal outcome of the foreign
/// call and surfaces as an error rather than being downgraded to an empty
/// consensus.
pub open spec fn extract_reply(reply: Seq<u8>) -> Result<Seq<u8>, ConsensusError> {
    if has_sentinel(reply) && reply.len() > 0 && reply[0] != 0 {
        Ok(reply.take(payload_len(reply)))
    } else {
        Err(ConsensusError::EngineFailure)
    }
}

/// If the first `k` bytes are nonzero and the byte at `k` is zero, the
/// payload is exactly the first `k` bytes.
proof fn lemma_payload_len_is(reply: Seq<u8>, k: int)
    requires
        0 <= k < reply.len(),
        reply[k] == 0,
        forall|i: int| 0 <= i < k ==> reply[i] != 0,
    ensures
        payload_len(reply) == k,
        has_sentinel(reply),
    decreases k,
{
    if k > 0 {
        assert(reply.skip(1)[k - 1] == reply[k]);
        assert forall|i: int| 0 <= i < k - 1 implies reply.skip(1)[i] != 0 by {
            assert(reply.skip(1)[i] == reply[i + 1]);
        }
        lemma_payload_len_is(reply.skip(1), k - 1);
    }
}

/// Copies the payload of a sentinel-terminated engine reply into an
/// independently owned buffer, so the consensus stays valid after the
/// engine's own buffer is released.
pub fn consensus_from_reply(reply: &Vec<u8>) -> (r: Result<Vec<u8>, ConsensusError>)
    ensures
        match r {
            Ok(c) => extract_reply(reply@) == Ok::<Seq<u8>, ConsensusError>(c@),
            Err(e) => extract_reply(reply@) == Err::<Seq<u8>, ConsensusError>(e),
        },
{
    let n = reply.len();
    let mut i: usize = 0;
    while i < n
        invariant
            n == reply@.len(),
            i <= n,
            forall|j: int| 0 <= j < i ==> reply@[j] != 0,
        decreases n - i,
    {
        if reply[i] == 0 {
            proof {
                lemma_payload_len_is(reply@, i as int);
            }
            if i == 0 {
                return Err(ConsensusError::EngineFailure);
            }
            let mut out: Vec<u8> = Vec::new();
            let mut j: usize = 0;
            while j < i
                invariant
                    i <= reply@.len(),
                    j <= i,
                    out@ == reply@.subrange(0, j as int),
                decreases i - j,
            {
                out.push(reply[j]);
                proof {
                    assert(out@ =~= reply@.subrange(0, j + 1));
                }
                j = j + 1;
            }
            proof {
                assert(out@ =~= reply@.take(payload_len(reply@)));
            }
            return Ok(out);
        }
        i = i + 1;
    }
    Err(ConsensusError::EngineFailure)
}

/// Engine output under the bounded calling convention: the engine filled a
/// fixed-capacity buffer and reported how many bytes it wrote; the result is
/// the buffer cut to whichever of the two lengths is shorter, so neither side
/// can be overrun.
pub open spec fn bounded_consensus(buf: Seq<u8>, written: int) -> Seq<u8> {
    if written >= buf.len() {
        buf
    } else {
        buf.take(written)
    }
}

/// Trims a bounded output buffer to the consensus the engine reported:
/// output longer than the buffer is truncated to the buffer's capacity,
/// output shorter leaves no trailing unused capacity behind.
pub fn finalize_bounded(buf: Vec<u8>, written: usize) -> (r: Vec<u8>)
    ensures
        r@ == bounded_consensus(buf@, written as int),
{
    let ghost orig = buf@;
    let mut b = buf;
    if written < b.len() {
        b.truncate(written);
    }
    proof {
        assert(b@ =~= bounded_consensus(orig, written as int));
    }
    b
}

/// Allocates the output buffer the bounded convention hands to the engine:
/// `len` zero bytes for the engine to fill.
pub fn zero_buffer(len: usize) -> (r: Vec<u8>)
    ensures
        r@.len() == len,
        forall|i: int| 0 <= i < len ==> r@[i] == 0u8,
{
    let mut out: Vec<u8> = Vec::new();
    let mut i: usize = 0;
    while i < len
        invariant
            i <= len,
            out@.len() == i,
            forall|j: int| 0 <= j < i ==> out@[j] == 0u8,
        decreases len - i,
    {
        out.push(0u8);
        i = i + 1;
    }
    out
}

} // verus!
