//! Binding layer for an external partial-order-alignment (POA) consensus
//! engine.
//!
//! The engine derives a consensus sequence from a set of DNA or protein
//! sequences, each given as a sentinel-terminated byte buffer, with optional
//! per-position quality weights framed the same way. The alignment algorithm
//! itself belongs to the engine and is out of scope here; this crate owns the
//! near side of the foreign boundary: it validates every record before the
//! engine may see it, decides whether the engine is invoked at all, and turns
//! the engine's reply into an independently owned consensus. An unverified
//! shim performs the actual foreign call and feeds the raw reply back through
//! the verified conversion functions.

use vstd::prelude::*;

pub mod output;
pub mod request;

verus! {

/// Alignment mode and scoring parameters, handed to the engine verbatim.
///
/// The mode code selects the alignment style (0 = local, 1 = global,
/// 2 = gapped); the binding rejects any other code. The scores are signed and
/// unrestricted: their semantics belong to the engine. The second gap tier
/// enables a two-piece affine gap model.
#[derive(Clone, Copy, Debug, PartialEq, Eq, Structural)]
pub struct AlignmentConfig {
    pub alignment_mode: i32,
    pub match_score: i32,
    pub mismatch_score: i32,
    pub gap_open: i32,
    pub gap_extend: i32,
    pub gap2_open: i32,
    pub gap2_extend: i32,
}

/// What a validated request asks of the caller-side shim.
#[derive(Clone, Copy, Debug, PartialEq, Eq, Structural)]
pub enum ConsensusPlan {
    /// No input records: the consensus is empty and the engine is never
    /// invoked.
    Empty,
    /// All records and the configuration are valid: invoke the engine exactly
    /// once on them.
    Invoke,
}

/// Why a request was refused, or why the engine's reply was unusable.
///
/// The first four variants are precondition violations, detected before any
/// foreign call; each carries enough to identify the offending record or
/// parameter.
#[derive(Clone, Copy, Debug, PartialEq, Eq, Structural)]
pub enum ConsensusError {
    /// The sequence record at this index is malformed: the sentinel byte is
    /// not its final byte, or occurs before it.
    UnterminatedSequence(usize),
    /// The quality record at this index is malformed in the same way.
    UnterminatedQuality(usize),
    /// Qualities were supplied with a different record count than the
    /// sequences (sequence count, quality count).
    CountMismatch(usize, usize),
    /// The alignment mode code is not one of the three the engine accepts.
    InvalidMode(i32),
    /// The engine's reply was abnormal: absent, or empty where a consensus
    /// was owed.
    EngineFailure,
}

/// A record is well formed when the sentinel byte 0 is its final byte and
/// occurs nowhere earlier: the engine reads up to the first sentinel, so an
/// early sentinel would silently cut the record short.
pub open spec fn record_ok(s: Seq<u8>) -> bool {
    &&& s.len() > 0
    &&& s[s.len() - 1] == 0
    &&& forall|i: int| 0 <= i < s.len() - 1 ==> s[i] != 0
}

/// Every record of the collection is well formed.
pub open spec fn all_records_ok(rs: Seq<Seq<u8>>) -> bool {
    forall|i: int| 0 <= i < rs.len() ==> record_ok(rs[i])
}

/// Idempotence of the binding: both of its halves are pure functions of their
/// inputs — equal requests are decided identically, and equal engine replies
/// convert to identical consensus values. Two complete calls on the same
/// inputs can therefore differ only if the engine itself replies differently,
/// which the engine's assumed determinism rules out.
pub proof fn lemma_binding_pure(
    seqs: Seq<Seq<u8>>,
    quals: Option<Seq<Seq<u8>>>,
    mode: i32,
    reply: Seq<u8>,
    d1: Result<ConsensusPlan, ConsensusError>,
    d2: Result<ConsensusPlan, ConsensusError>,
    c1: Result<Seq<u8>, ConsensusError>,
    c2: Result<Seq<u8>, ConsensusError>,
)
    requires
        d1 == crate::request::decide(seqs, quals, mode),
        d2 == crate::request::decide(seqs, quals, mode),
        c1 == crate::output::extract_reply(reply),
        c2 == crate::output::extract_reply(reply),
    ensures
        d1 == d2,
        c1 == c2,
{
}

} // verus!
