//! Filtering of the missing-file queue: one predicate — photo extensions,
//! video extensions, or a case-insensitive file-name substring — applied to
//! the unvisited tail, with an optional bulk action on the matches.

use vstd::prelude::*;
use crate::bytes_util::{spec_basename, spec_contains_sub, spec_lower, basename, contains_sub, to_lower};
use crate::media::{
    FileRecord, FileRecordV, rec_views, matches_extensions, photo_extensions, video_extensions,
    spec_matches_exts, spec_photo_exts, spec_video_exts, D_ONE, D_THREE, D_TWO, L_K, L_T,
};
use crate::session::{DispositionSession, reverse_indices};

verus! {

/// The predicate a filter applies.
#[derive(Debug)]
pub enum FilterKind {
    /// Keep files whose extension is a photo extension.
    Photos,
    /// Keep files whose extension is a video extension.
    Videos,
    /// Keep files whose name holds this byte string, case-insensitively.
    Pattern(Vec<u8>),
}

/// Parse the filter menu choice: `1` photos, `2` videos, `3` a name pattern.
pub fn parse_filter_kind(choice: u8, pattern: &[u8]) -> (r: Option<FilterKind>)
    ensures
        choice == D_ONE ==> (r matches Some(k) && k is Photos),
        choice == D_TWO ==> (r matches Some(k) && k is Videos),
        choice == D_THREE ==> (r matches Some(FilterKind::Pattern(p)) && p@ == pattern@),
        choice != D_ONE && choice != D_TWO && choice != D_THREE ==> r is None,
{
    if choice == D_ONE {
        Some(FilterKind::Photos)
    } else if choice == D_TWO {
        Some(FilterKind::Videos)
    } else if choice == D_THREE {
        Some(FilterKind::Pattern(vstd::slice::slice_to_vec(pattern)))
    } else {
        None
    }
}

/// Whether a record passes the filter.
pub open spec fn spec_filter_pred(r: FileRecord, kind: FilterKind) -> bool {
    match kind {
        FilterKind::Photos => spec_matches_exts(r.path@, spec_photo_exts()),
        FilterKind::Videos => spec_matches_exts(r.path@, spec_video_exts()),
        FilterKind::Pattern(p) => spec_contains_sub(
            spec_lower(spec_basename(r.path@)),
            spec_lower(p@),
        ),
    }
}

/// Whether `record` passes the filter `kind`.
pub fn record_matches_filter(record: &FileRecord, kind: &FilterKind) -> (r: bool)
    ensures
        r == spec_filter_pred(*record, *kind),
{
    match kind {
        FilterKind::Photos => {
            let exts = photo_extensions();
            matches_extensions(record.path.as_slice(), &exts)
        },
        FilterKind::Videos => {
            let exts = video_extensions();
            matches_extensions(record.path.as_slice(), &exts)
        },
        FilterKind::Pattern(p) => {
            let name = basename(record.path.as_slice());
            let lower_name = to_lower(name.as_slice());
            let lower_pat = to_lower(p.as_slice());
            contains_sub(lower_name.as_slice(), lower_pat.as_slice())
        },
    }
}

/// The indices of the unvisited tail whose records pass the filter, in
/// ascending order: always a subset of the tail, never an index before the
/// cursor.
pub fn filter_matches(session: &DispositionSession, kind: &FilterKind) -> (r: Vec<usize>)
    requires
        session.wf(),
    ensures
        forall|k: int|
            0 <= k < r@.len() ==> session.cursor <= #[trigger] r@[k] < session.queue@.len()
                && spec_filter_pred(session.queue@[r@[k] as int], *kind),
        forall|k1: int, k2: int| 0 <= k1 < k2 < r@.len() ==> r@[k1] < r@[k2],
        forall|i: usize|
            session.cursor <= i < session.queue@.len() && spec_filter_pred(
                session.queue@[i as int],
                *kind,
            ) ==> r@.contains(i),
{
    let n = session.queue.len();
    let mut r: Vec<usize> = Vec::new();
    let mut i: usize = session.cursor;
    while i < n
        invariant
            n == session.queue@.len(),
            session.cursor <= i <= n,
            forall|k: int|
                0 <= k < r@.len() ==> session.cursor <= #[trigger] r@[k] < i
                    && spec_filter_pred(session.queue@[r@[k] as int], *kind),
            forall|k1: int, k2: int| 0 <= k1 < k2 < r@.len() ==> r@[k1] < r@[k2],
            forall|j: usize|
                session.cursor <= j < i && spec_filter_pred(session.queue@[j as int], *kind)
                    ==> r@.contains(j),
        decreases n - i,
    {
        let ghost prev = r@;
        if record_matches_filter(&session.queue[i], kind) {
            r.push(i);
            proof {
                assert(r@[r@.len() - 1] == i);
                assert forall|j: usize|
                    session.cursor <= j < i + 1 && spec_filter_pred(
                        session.queue@[j as int],
                        *kind,
                    ) implies r@.contains(j) by {
                    if j < i {
                        assert(prev.contains(j));
                        let k = choose|k: int| 0 <= k < prev.len() && prev[k] == j;
                        assert(r@[k] == j);
                    } else {
                        assert(r@[r@.len() - 1] == j);
                    }
                }
            }
        } else {
            proof {
                assert forall|j: usize|
                    session.cursor <= j < i + 1 && spec_filter_pred(
                        session.queue@[j as int],
                        *kind,
                    ) implies r@.contains(j) by {
                    if j < i {
                        assert(prev.contains(j));
                        let k = choose|k: int| 0 <= k < prev.len() && prev[k] == j;
                        assert(r@[k] == j);
                    }
                }
            }
        }
        i = i + 1;
    }
    r
}

/// The bulk action chosen after filtering.
#[derive(Clone, Copy, Debug, PartialEq, Eq, Structural)]
pub enum FilterAction {
    Trash,
    Keep,
    NoAction,
}

/// Parse the bulk-action character offered after a filter: `t`, `k`, or
/// anything else for no action.
pub fn parse_filter_action(c: u8) -> (r: FilterAction)
    ensures
        c == L_T <==> r is Trash,
        c == L_K <==> r is Keep,
        c != L_T && c != L_K <==> r is NoAction,
{
    if c == L_T {
        FilterAction::Trash
    } else if c == L_K {
        FilterAction::Keep
    } else {
        FilterAction::NoAction
    }
}

/// Matched indices as produced by [`filter_matches`]: ascending, within the
/// tail `[cursor, len)`.
pub open spec fn spec_tail_indices(s: Seq<usize>, cursor: usize, len: nat) -> bool {
    &&& forall|k: int| 0 <= k < s.len() ==> cursor <= #[trigger] s[k] < len
    &&& forall|k1: int, k2: int| 0 <= k1 < k2 < s.len() ==> s[k1] < s[k2]
}

/// Apply the bulk action chosen after a filter.
///
/// Returns the relocation plan: the matched indices in descending order when
/// the action is Trash, empty otherwise.  The cursor advances past filtered
/// positions only when an action was applied: after a Trash it steps past
/// the current file only when that file itself matched; after a Keep it
/// skips past the last match; with no action it stays.
pub fn filter_apply(
    session: &mut DispositionSession,
    matched: &Vec<usize>,
    action: FilterAction,
) -> (plan: Vec<usize>)
    requires
        old(session).wf(),
        !old(session).spec_finished(),
        spec_tail_indices(matched@, old(session).cursor, old(session).queue@.len()),
    ensures
        final(session).wf(),
        final(session).same_but_cursor(*old(session)),
        forall|k: int|
            0 <= k < plan@.len() ==> old(session).cursor <= #[trigger] plan@[k] < old(
                session,
            ).queue@.len(),
        matched@.len() == 0 ==> plan@.len() == 0 && final(session).cursor == old(
            session,
        ).cursor,
        action is NoAction ==> plan@.len() == 0 && final(session).cursor == old(
            session,
        ).cursor,
        action is Trash && matched@.len() > 0 ==> {
            &&& plan@.len() == matched@.len()
            &&& forall|k: int|
                0 <= k < plan@.len() ==> #[trigger] plan@[k] == matched@[plan@.len() - 1 - k]
            &&& final(session).cursor == if old(session).cursor == matched@[0] {
                old(session).cursor + 1
            } else {
                old(session).cursor as int
            }
        },
        action is Keep && matched@.len() > 0 ==> plan@.len() == 0 && final(session).cursor
            == matched@[matched@.len() - 1] + 1,
{
    if matched.len() == 0 {
        return Vec::new();
    }
    match action {
        FilterAction::Trash => {
            let plan = reverse_indices(matched);
            if session.cursor == matched[0] {
                proof {
                    assert(session.cursor < session.queue.len());
                }
                session.cursor = session.cursor + 1;
            }
            plan
        },
        FilterAction::Keep => {
            let last = matched[matched.len() - 1];
            proof {
                assert(matched@[matched@.len() - 1] < session.queue.len());
            }
            session.cursor = last + 1;
            Vec::new()
        },
        FilterAction::NoAction => Vec::new(),
    }
}

/// Records passing the filter, in order, as mathematical values.
pub open spec fn spec_filtered_records(s: Seq<FileRecord>, kind: FilterKind) -> Seq<FileRecordV> {
    s.filter(|r: FileRecord| spec_filter_pred(r, kind)).map_values(|r: FileRecord| r@)
}

proof fn lemma_filtered_records_push(s: Seq<FileRecord>, r: FileRecord, kind: FilterKind)
    ensures
        spec_filter_pred(r, kind) ==> spec_filtered_records(s.push(r), kind)
            == spec_filtered_records(s, kind).push(r@),
        !spec_filter_pred(r, kind) ==> spec_filtered_records(s.push(r), kind)
            == spec_filtered_records(s, kind),
{
    broadcast use vstd::prelude::Seq::lemma_filter_push;

    if spec_filter_pred(r, kind) {
        assert(spec_filtered_records(s.push(r), kind) =~= spec_filtered_records(s, kind).push(
            r@,
        ));
    } else {
        assert(spec_filtered_records(s.push(r), kind) =~= spec_filtered_records(s, kind));
    }
}

/// Narrow a whole file list to the records passing the filter, keeping their
/// order: the up-front filter offered before interactive review begins.
pub fn apply_initial_filter(files: &Vec<FileRecord>, kind: &FilterKind) -> (r: Vec<FileRecord>)
    ensures
        rec_views(r@) == spec_filtered_records(files@, *kind),
{
    let n = files.len();
    let mut r: Vec<FileRecord> = Vec::new();
    let mut i: usize = 0;
    proof {
        assert(files@.take(0) =~= Seq::<FileRecord>::empty());
        assert(rec_views(r@) =~= spec_filtered_records(files@.take(0), *kind));
    }
    while i < n
        invariant
            n == files@.len(),
            i <= n,
            rec_views(r@) == spec_filtered_records(files@.take(i as int), *kind),
        decreases n - i,
    {
        let ghost prev = r@;
        if record_matches_filter(&files[i], kind) {
            r.push(files[i].clone());
            proof {
                assert(rec_views(r@) =~= rec_views(prev).push(files@[i as int]@));
            }
        }
        proof {
            lemma_filtered_records_push(files@.take(i as int), files@[i as int], *kind);
            assert(files@.take(i + 1) =~= files@.take(i as int).push(files@[i as int]));
        }
        i = i + 1;
    }
    proof {
        assert(files@.take(n as int) =~= files@);
    }
    r
}

} // verus!
