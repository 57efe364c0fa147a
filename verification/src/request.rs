//! Validation of a consensus request: every sequence and quality record, the
//! record counts, and the alignment mode are checked here, before any foreign
//! call can happen.

use vstd::prelude::*;

use crate::{AlignmentConfig, ConsensusError, ConsensusPlan, all_records_ok, record_ok};

verus! {

/// The three alignment mode codes the engine accepts.
pub open spec fn valid_mode(mode: i32) -> bool {
    mode == 0 || mode == 1 || mode == 2
}

/// Index of the first malformed record; meaningful only when one exists.
pub open spec fn first_bad(rs: Seq<Seq<u8>>) -> int
    decreases rs.len(),
{
    if rs.len() == 0 {
        0
    } else if !record_ok(rs[0]) {
        0
    } else {
        1 + first_bad(rs.skip(1))
    }
}

/// The view of an optional quality collection.
pub open spec fn quals_view(quals: Option<&Vec<Vec<u8>>>) -> Option<Seq<Seq<u8>>> {
    match quals {
        Some(q) => Some(q.deep_view()),
        None => None,
    }
}

/// The decision the binding takes on a request, before any foreign call.
///
/// An empty sequence collection short-circuits to the empty consensus, so the
/// engine never sees a zero-length call. Otherwise the checks run in a fixed
/// order — record counts, sequence records, quality records, mode — and the
/// first violation is reported; only a request that passes them all may be
/// forwarded to the engine.
pub open spec fn decide(seqs: Seq<Seq<u8>>, quals: Option<Seq<Seq<u8>>>, mode: i32) -> Result<
    ConsensusPlan,
    ConsensusError,
> {
    if seqs.len() == 0 {
        Ok(ConsensusPlan::Empty)
    } else if quals matches Some(q) && q.len() != seqs.len() {
        Err(ConsensusError::CountMismatch(seqs.len() as usize, (quals->0).len() as usize))
    } else if !all_records_ok(seqs) {
        Err(ConsensusError::UnterminatedSequence(first_bad(seqs) as usize))
    } else if quals matches Some(q) && !all_records_ok(q) {
        Err(ConsensusError::UnterminatedQuality(first_bad(quals->0) as usize))
    } else if !valid_mode(mode) {
        Err(ConsensusError::InvalidMode(mode))
    } else {
        Ok(ConsensusPlan::Invoke)
    }
}

/// Empty-input law: with no sequence records the decision is always the
/// empty consensus, whatever the qualities or the mode, and the engine is
/// never invoked.
pub proof fn lemma_empty_input(seqs: Seq<Seq<u8>>, quals: Option<Seq<Seq<u8>>>, mode: i32)
    requires
        seqs.len() == 0,
    ensures
        decide(seqs, quals, mode) == Ok::<ConsensusPlan, ConsensusError>(ConsensusPlan::Empty),
{
}

/// Termination invariant: a malformed record among the sequences, or among
/// supplied qualities, makes the decision a precondition error — never an
/// engine invocation. (An empty sequence collection is excluded: it
/// short-circuits to the empty consensus before any record is looked at.)
pub proof fn lemma_malformed_record_rejected(
    seqs: Seq<Seq<u8>>,
    quals: Option<Seq<Seq<u8>>>,
    mode: i32,
)
    requires
        seqs.len() > 0,
        (exists|i: int| 0 <= i < seqs.len() && !record_ok(seqs[i])) || (quals matches Some(q)
            && exists|i: int| 0 <= i < q.len() && !record_ok(q[i])),
    ensures
        decide(seqs, quals, mode) is Err,
        decide(seqs, quals, mode) != Err::<ConsensusPlan, ConsensusError>(
            ConsensusError::EngineFailure,
        ),
{
    if exists|i: int| 0 <= i < seqs.len() && !record_ok(seqs[i]) {
        assert(!all_records_ok(seqs));
    } else {
        assert(!all_records_ok(quals->0));
    }
}

/// Count invariant: qualities supplied with a record count differing from a
/// nonempty sequence collection are refused, naming both counts.
pub proof fn lemma_count_mismatch_rejected(seqs: Seq<Seq<u8>>, quals: Seq<Seq<u8>>, mode: i32)
    requires
        seqs.len() > 0,
        quals.len() != seqs.len(),
    ensures
        decide(seqs, Some(quals), mode) == Err::<ConsensusPlan, ConsensusError>(
            ConsensusError::CountMismatch(seqs.len() as usize, quals.len() as usize),
        ),
{
}

/// Mode validity: a mode code outside the three the engine accepts never
/// reaches the engine; on a nonempty input it is an error (on an empty input
/// the request short-circuits to the empty consensus instead).
pub proof fn lemma_invalid_mode_rejected(seqs: Seq<Seq<u8>>, quals: Option<Seq<Seq<u8>>>, mode: i32)
    requires
        !valid_mode(mode),
    ensures
        decide(seqs, quals, mode) != Ok::<ConsensusPlan, ConsensusError>(ConsensusPlan::Invoke),
        seqs.len() > 0 ==> decide(seqs, quals, mode) is Err,
{
}

/// If the first `k` records are well formed and the one at `k` is not, then
/// `k` is exactly the first malformed index.
proof fn lemma_first_bad_is(rs: Seq<Seq<u8>>, k: int)
    requires
        0 <= k < rs.len(),
        !record_ok(rs[k]),
        forall|i: int| 0 <= i < k ==> record_ok(rs[i]),
    ensures
        first_bad(rs) == k,
        !all_records_ok(rs),
    decreases k,
{
    if k > 0 {
        assert(rs.skip(1)[k - 1] == rs[k]);
        assert forall|i: int| 0 <= i < k - 1 implies record_ok(rs.skip(1)[i]) by {
            assert(rs.skip(1)[i] == rs[i + 1]);
        }
        lemma_first_bad_is(rs.skip(1), k - 1);
    }
}

/// A record is accepted exactly when it is well formed: nonempty, sentinel
/// last, and no sentinel before the last position.
pub fn record_is_terminated(s: &Vec<u8>) -> (ok: bool)
    ensures
        ok == record_ok(s@),
{
    let n = s.len();
    if n == 0 {
        return false;
    }
    if s[n - 1] != 0 {
        return false;
    }
    let mut i: usize = 0;
    while i < n - 1
        invariant
            n == s@.len(),
            0 < n,
            i <= n - 1,
            s@[n - 1] == 0,
            forall|j: int| 0 <= j < i ==> s@[j] != 0,
        decreases n - 1 - i,
    {
        if s[i] == 0 {
            return false;
        }
        i = i + 1;
    }
    true
}

/// Index of the first malformed record of the collection, if any.
fn first_malformed(rs: &Vec<Vec<u8>>) -> (r: Option<usize>)
    ensures
        match r {
            None => all_records_ok(rs.deep_view()),
            Some(k) => !all_records_ok(rs.deep_view()) && k as int == first_bad(rs.deep_view()),
        },
{
    proof {
        lemma_records_view(rs);
    }
    let n = rs.len();
    let mut i: usize = 0;
    while i < n
        invariant
            n == rs@.len(),
            rs.deep_view().len() == rs@.len(),
            forall|j: int| 0 <= j < rs@.len() ==> rs.deep_view()[j] == rs@[j]@,
            i <= n,
            forall|j: int| 0 <= j < i ==> record_ok(rs.deep_view()[j]),
        decreases n - i,
    {
        if !record_is_terminated(&rs[i]) {
            proof {
                lemma_first_bad_is(rs.deep_view(), i as int);
            }
            return Some(i);
        }
        i = i + 1;
    }
    None
}

/// The view of each record equals the corresponding element of the
/// collection's deep view.
proof fn lemma_records_view(rs: &Vec<Vec<u8>>)
    ensures
        rs.deep_view().len() == rs@.len(),
        forall|i: int| 0 <= i < rs@.len() ==> rs.deep_view()[i] == rs@[i]@,
{
    assert forall|i: int| 0 <= i < rs@.len() implies rs.deep_view()[i] == rs@[i]@ by {
        assert(rs.deep_view()[i] =~= rs@[i]@);
    }
}

/// Validates a consensus request and decides what the shim may do with it:
/// skip the engine for an empty input, invoke it once on a fully valid input,
/// or refuse the request with the first violation found.
pub fn prepare_consensus(
    seqs: &Vec<Vec<u8>>,
    quals: Option<&Vec<Vec<u8>>>,
    config: &AlignmentConfig,
) -> (r: Result<ConsensusPlan, ConsensusError>)
    ensures
        r == decide(seqs.deep_view(), quals_view(quals), config.alignment_mode),
{
    if seqs.len() == 0 {
        return Ok(ConsensusPlan::Empty);
    }
    if let Some(q) = quals {
        if q.len() != seqs.len() {
            return Err(ConsensusError::CountMismatch(seqs.len(), q.len()));
        }
    }
    if let Some(k) = first_malformed(seqs) {
        return Err(ConsensusError::UnterminatedSequence(k));
    }
    if let Some(q) = quals {
        if let Some(k) = first_malformed(q) {
            return Err(ConsensusError::UnterminatedQuality(k));
        }
    }
    let mode = config.alignment_mode;
    if !(mode == 0 || mode == 1 || mode == 2) {
        return Err(ConsensusError::InvalidMode(mode));
    }
    Ok(ConsensusPlan::Invoke)
}

} // verus!
