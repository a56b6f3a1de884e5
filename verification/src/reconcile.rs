//! The reconciliation set builder: given the reference tree's content hashes
//! and the candidate tree's files with their hash results, compute the ordered
//! queue of candidate files that have no content-identical counterpart in the
//! reference tree.

use vstd::prelude::*;
use crate::media::{FileRecord, FileRecordV, views_of, rec_views, list_contains};

verus! {

/// A candidate file together with the outcome of hashing its contents:
/// `None` when the hash could not be computed.
#[derive(Debug)]
pub struct CandidateFile {
    pub record: FileRecord,
    pub hash: Option<Vec<u8>>,
}

/// The hash outcome of a candidate, as a mathematical value.
pub open spec fn cand_hash_view(c: CandidateFile) -> Option<Seq<u8>> {
    match c.hash {
        Some(h) => Some(h@),
        None => None,
    }
}

/// A candidate is classified Missing iff its content hash is absent from the
/// reference hashes, or its hash could not be computed at all: a file whose
/// contents cannot be read is reported rather than silently dropped.
pub open spec fn spec_is_missing(c: CandidateFile, refs: Seq<Seq<u8>>) -> bool {
    match c.hash {
        None => true,
        Some(h) => !refs.contains(h@),
    }
}

/// The missing queue: the records of all Missing candidates, in candidate
/// walk order, without deduplication by hash.
pub open spec fn spec_missing_records(cands: Seq<CandidateFile>, refs: Seq<Seq<u8>>) -> Seq<
    FileRecordV,
> {
    cands.filter(|c: CandidateFile| spec_is_missing(c, refs)).map_values(
        |c: CandidateFile| c.record@,
    )
}

/// Classification reads the content hash alone: two candidates with the same
/// hash outcome are classified alike, whatever their names, paths or
/// extension casing.
pub proof fn lemma_classification_content_only(
    c1: CandidateFile,
    c2: CandidateFile,
    refs: Seq<Seq<u8>>,
)
    requires
        cand_hash_view(c1) == cand_hash_view(c2),
    ensures
        spec_is_missing(c1, refs) == spec_is_missing(c2, refs),
{
}

/// A candidate whose hash was computed is classified Present iff some
/// reference file has exactly the same content hash.
pub proof fn lemma_present_iff_reference_match(c: CandidateFile, refs: Seq<Seq<u8>>, h: Vec<u8>)
    requires
        c.hash == Some(h),
    ensures
        !spec_is_missing(c, refs) <==> exists|j: int| 0 <= j < refs.len() && refs[j] == h@,
{
    if refs.contains(h@) {
        let j = choose|j: int| 0 <= j < refs.len() && refs[j] == h@;
        assert(0 <= j < refs.len() && refs[j] == h@);
    }
    if exists|j: int| 0 <= j < refs.len() && refs[j] == h@ {
        let j = choose|j: int| 0 <= j < refs.len() && refs[j] == h@;
        assert(refs.contains(h@));
    }
}

/// Every Missing candidate's record appears in the missing queue.
pub proof fn lemma_missing_queue_complete(cands: Seq<CandidateFile>, refs: Seq<Seq<u8>>, i: int)
    requires
        0 <= i < cands.len(),
        spec_is_missing(cands[i], refs),
    ensures
        spec_missing_records(cands, refs).contains(cands[i].record@),
{
    let pred = |c: CandidateFile| spec_is_missing(c, refs);
    cands.lemma_filter_contains(pred, i);
    let kept = cands.filter(pred);
    let k = choose|k: int| 0 <= k < kept.len() && kept[k] == cands[i];
    assert(kept.map_values(|c: CandidateFile| c.record@)[k] == cands[i].record@);
}

/// Nothing else does: every entry of the missing queue is the record of some
/// Missing candidate.
pub proof fn lemma_missing_queue_sound(cands: Seq<CandidateFile>, refs: Seq<Seq<u8>>, k: int)
    requires
        0 <= k < spec_missing_records(cands, refs).len(),
    ensures
        exists|i: int|
            0 <= i < cands.len() && spec_is_missing(cands[i], refs) && cands[i].record@
                == spec_missing_records(cands, refs)[k],
{
    let pred = |c: CandidateFile| spec_is_missing(c, refs);
    let kept = cands.filter(pred);
    cands.lemma_filter_pred(pred, k);
    cands.lemma_filter_contains_rev(pred, kept[k]);
    let i = choose|i: int| 0 <= i < cands.len() && cands[i] == kept[k];
    assert(spec_missing_records(cands, refs)[k] == kept[k].record@);
    assert(cands[i].record@ == spec_missing_records(cands, refs)[k]);
}

/// Reconciliation is a function of the walked candidates and the reference
/// hashes alone: re-running it over unchanged trees yields an identical
/// missing list, same paths in the same order.
pub proof fn lemma_reconcile_idempotent(
    c1: Seq<CandidateFile>,
    c2: Seq<CandidateFile>,
    r1: Seq<Seq<u8>>,
    r2: Seq<Seq<u8>>,
)
    requires
        c1 == c2,
        r1 == r2,
    ensures
        spec_missing_records(c1, r1) == spec_missing_records(c2, r2),
{
}

/// The reference hash set: the hashes of all reference files whose contents
/// could be read, in walk order.  A reference file that could not be hashed
/// is skipped: it can vouch for nothing.
pub open spec fn spec_reference_hashes(outcomes: Seq<Option<Vec<u8>>>) -> Seq<Seq<u8>> {
    outcomes.filter(|o: Option<Vec<u8>>| o is Some).map_values(|o: Option<Vec<u8>>| o->0@)
}

/// Appending one hash outcome extends the reference hash set by its hash when
/// it succeeded and leaves it unchanged when it failed.
pub proof fn lemma_reference_hashes_push(s: Seq<Option<Vec<u8>>>, o: Option<Vec<u8>>)
    ensures
        o is Some ==> spec_reference_hashes(s.push(o)) == spec_reference_hashes(s).push(o->0@),
        o is None ==> spec_reference_hashes(s.push(o)) == spec_reference_hashes(s),
{
    broadcast use vstd::prelude::Seq::lemma_filter_push;

    if o is Some {
        assert(spec_reference_hashes(s.push(o)) =~= spec_reference_hashes(s).push(o->0@));
    } else {
        assert(spec_reference_hashes(s.push(o)) =~= spec_reference_hashes(s));
    }
}

/// Collect the successful hash outcomes of the reference tree walk.
pub fn collect_reference_hashes(outcomes: &Vec<Option<Vec<u8>>>) -> (r: Vec<Vec<u8>>)
    ensures
        views_of(r@) == spec_reference_hashes(outcomes@),
{
    let n = outcomes.len();
    let mut r: Vec<Vec<u8>> = Vec::new();
    let mut i: usize = 0;
    proof {
        assert(outcomes@.take(0) =~= Seq::<Option<Vec<u8>>>::empty());
        assert(views_of(r@) =~= spec_reference_hashes(outcomes@.take(0)));
    }
    while i < n
        invariant
            n == outcomes@.len(),
            i <= n,
            views_of(r@) == spec_reference_hashes(outcomes@.take(i as int)),
        decreases n - i,
    {
        let ghost pre = outcomes@.take(i as int);
        let ghost prev = r@;
        match &outcomes[i] {
            Some(h) => {
                r.push(vstd::slice::slice_to_vec(h.as_slice()));
                proof {
                    assert(views_of(r@) =~= views_of(prev).push(h@));
                }
            },
            None => {},
        }
        proof {
            lemma_reference_hashes_push(pre, outcomes@[i as int]);
            assert(outcomes@.take(i + 1) =~= pre.push(outcomes@[i as int]));
        }
        i = i + 1;
    }
    proof {
        assert(outcomes@.take(n as int) =~= outcomes@);
    }
    r
}

/// The reconciliation core: the candidate files, in walk order, whose hash is
/// absent from the reference hash set or could not be computed.
pub fn find_files_not_in_immich(
    candidates: &Vec<CandidateFile>,
    reference_hashes: &Vec<Vec<u8>>,
) -> (missing: Vec<FileRecord>)
    ensures
        rec_views(missing@) == spec_missing_records(candidates@, views_of(reference_hashes@)),
{
    let ghost refs = views_of(reference_hashes@);
    let ghost pred = |c: CandidateFile| spec_is_missing(c, refs);
    let n = candidates.len();
    let mut missing: Vec<FileRecord> = Vec::new();
    let mut i: usize = 0;
    proof {
        assert(candidates@.take(0) =~= Seq::<CandidateFile>::empty());
        assert(rec_views(missing@) =~= spec_missing_records(candidates@.take(0), refs));
    }
    while i < n
        invariant
            n == candidates@.len(),
            i <= n,
            refs == views_of(reference_hashes@),
            pred == (|c: CandidateFile| spec_is_missing(c, refs)),
            rec_views(missing@) == spec_missing_records(candidates@.take(i as int), refs),
        decreases n - i,
    {
        let ghost pre = candidates@.take(i as int);
        let cand = &candidates[i];
        let is_missing = match &cand.hash {
            None => true,
            Some(h) => !list_contains(reference_hashes, h.as_slice()),
        };
        if is_missing {
            missing.push(cand.record.clone());
            proof {
                assert(rec_views(missing@) =~= pre.filter(pred).map_values(
                    |c: CandidateFile| c.record@,
                ).push(candidates@[i as int].record@));
            }
        }
        proof {
            pre.lemma_filter_push(candidates@[i as int], pred);
            assert(candidates@.take(i + 1) =~= pre.push(candidates@[i as int]));
            if pred(candidates@[i as int]) {
                assert(pre.push(candidates@[i as int]).filter(pred).map_values(
                    |c: CandidateFile| c.record@,
                ) =~= pre.filter(pred).map_values(|c: CandidateFile| c.record@).push(
                    candidates@[i as int].record@,
                ));
            }
        }
        i = i + 1;
    }
    proof {
        assert(candidates@.take(n as int) =~= candidates@);
    }
    missing
}

/// Compare the backup tree against the reference library: report how many
/// backup files have no content-identical counterpart there.
pub fn compare_backup_to_immich(
    candidates: &Vec<CandidateFile>,
    reference_hashes: &Vec<Vec<u8>>,
) -> (discrepancies: usize)
    ensures
        discrepancies == spec_missing_records(
            candidates@,
            views_of(reference_hashes@),
        ).len(),
{
    let missing = find_files_not_in_immich(candidates, reference_hashes);
    proof {
        assert(rec_views(missing@).len() == missing@.len());
    }
    missing.len()
}

} // verus!
