//! The disposition workflow: a state machine driving interactive, resumable
//! review and soft-deletion of the missing-file queue.
//!
//! The session owns the immutable queue and a cursor; single-character
//! commands drive the `Reviewing` state; batch selection and filtering work
//! over the unvisited tail.  All decisions are made here; the surrounding
//! driver only performs the effects (relocation, display, input) and reports
//! their outcomes back.

use vstd::prelude::*;
use crate::media::{
    FileRecord, L_A, L_D, L_F, L_K, L_N, L_Q, L_S, L_T, L_V, L_Y,
};

verus! {

/// The per-file decision an operator can take.
#[derive(Clone, Copy, Debug, PartialEq, Eq, Structural)]
pub enum DispositionAction {
    Trash,
    Keep,
}

/// A command in the `Reviewing` state, one per menu character.
#[derive(Clone, Copy, Debug, PartialEq, Eq, Structural)]
pub enum ReviewCommand {
    Trash,
    Keep,
    View,
    OpenDir,
    BatchSelect,
    Filter,
    ApplyAll,
    Quit,
    Other,
}

/// What the driver must do after a `Reviewing` step.
#[derive(Clone, Copy, Debug, PartialEq, Eq, Structural)]
pub enum ReviewStep {
    /// Relocate the current file to the trash, then report the outcome
    /// through [`DispositionSession::record_trash_result`].
    DoTrash,
    /// The current file was kept; the cursor has advanced.
    Advanced,
    /// Show the current file's details; the same file is reviewed again.
    ShowDetails,
    /// Open the current file's directory; the same file is reviewed again.
    ShowDirectory,
    /// Enter batch selection over the unvisited tail.
    EnterBatch,
    /// Enter filtering over the unvisited tail.
    EnterFilter,
    /// Prompt for the persistent override action, then report it through
    /// [`DispositionSession::set_override`].
    AwaitOverride,
    /// The session was quit; report partial progress.
    QuitAccepted,
    /// The input was invalid; the same file is reviewed again.
    Repeat,
}

/// The outcome of one attempted relocation, as the driver observed it.
#[derive(Clone, Copy, Debug, PartialEq, Eq, Structural)]
pub enum RelocationOutcome {
    /// Copy succeeded and the original was deleted.
    Moved,
    /// Copy succeeded but the original could not be deleted: the file now
    /// exists in both places, which is reported, never silently absorbed.
    CopiedNotDeleted,
    /// Copy failed; nothing was deleted.
    CopyFailed,
}

/// The interactive disposition session over the missing-file queue.
///
/// The queue is immutable in length once built; elements are never removed,
/// only passed by the cursor.  The cursor only ever advances; an optional
/// persistent override action applies to every subsequent file without
/// prompting.
pub struct DispositionSession {
    pub queue: Vec<FileRecord>,
    pub cursor: usize,
    pub override_action: Option<DispositionAction>,
    pub trash_root: Vec<u8>,
    pub quit: bool,
}

impl DispositionSession {
    /// The cursor never passes the end of the queue.
    pub open spec fn wf(self) -> bool {
        self.cursor <= self.queue@.len()
    }

    /// The session is over: quit explicitly, or every file reviewed.
    pub open spec fn spec_finished(self) -> bool {
        self.quit || self.cursor >= self.queue@.len()
    }

    /// Everything but the cursor is as it was.
    pub open spec fn same_but_cursor(self, other: Self) -> bool {
        &&& self.queue == other.queue
        &&& self.override_action == other.override_action
        &&& self.trash_root == other.trash_root
        &&& self.quit == other.quit
    }

    pub fn new(queue: Vec<FileRecord>, trash_root: Vec<u8>) -> (s: Self)
        ensures
            s.queue == queue,
            s.cursor == 0,
            s.override_action is None,
            s.trash_root == trash_root,
            !s.quit,
            s.wf(),
    {
        DispositionSession { queue, cursor: 0, override_action: None, trash_root, quit: false }
    }

    pub fn finished(&self) -> (r: bool)
        ensures
            r == self.spec_finished(),
    {
        self.quit || self.cursor >= self.queue.len()
    }

    /// The persistent override action, if one was set: once set, every
    /// subsequent file is processed with it, without prompting.
    pub fn pending_override(&self) -> (r: Option<DispositionAction>)
        ensures
            r == self.override_action,
    {
        self.override_action
    }

    /// One step of the `Reviewing` state: apply `cmd` to the current file.
    ///
    /// `t` requests relocation (the cursor moves when the outcome is
    /// reported), `k` keeps and advances, `v`/`d`/invalid input repeat the
    /// current file, `s`/`f` enter the sub-states, `a` asks for an override,
    /// `q` terminates.
    pub fn review_step(&mut self, cmd: ReviewCommand) -> (step: ReviewStep)
        requires
            old(self).wf(),
            !old(self).spec_finished(),
        ensures
            final(self).wf(),
            final(self).queue == old(self).queue,
            final(self).trash_root == old(self).trash_root,
            final(self).override_action == old(self).override_action,
            cmd is Trash ==> step is DoTrash && *final(self) == *old(self),
            cmd is Keep ==> step is Advanced && final(self).cursor == old(self).cursor + 1
                && final(self).same_but_cursor(*old(self)),
            cmd is View ==> step is ShowDetails && *final(self) == *old(self),
            cmd is OpenDir ==> step is ShowDirectory && *final(self) == *old(self),
            cmd is BatchSelect ==> step is EnterBatch && *final(self) == *old(self),
            cmd is Filter ==> step is EnterFilter && *final(self) == *old(self),
            cmd is ApplyAll ==> step is AwaitOverride && *final(self) == *old(self),
            cmd is Quit ==> step is QuitAccepted && final(self).quit && final(self).cursor
                == old(self).cursor,
            cmd is Other ==> step is Repeat && *final(self) == *old(self),
    {
        match cmd {
            ReviewCommand::Trash => ReviewStep::DoTrash,
            ReviewCommand::Keep => {
                proof {
                    assert(self.cursor < self.queue.len());
                }
                self.cursor = self.cursor + 1;
                ReviewStep::Advanced
            },
            ReviewCommand::View => ReviewStep::ShowDetails,
            ReviewCommand::OpenDir => ReviewStep::ShowDirectory,
            ReviewCommand::BatchSelect => ReviewStep::EnterBatch,
            ReviewCommand::Filter => ReviewStep::EnterFilter,
            ReviewCommand::ApplyAll => ReviewStep::AwaitOverride,
            ReviewCommand::Quit => {
                self.quit = true;
                ReviewStep::QuitAccepted
            },
            ReviewCommand::Other => ReviewStep::Repeat,
        }
    }

    /// Report the outcome of the relocation requested by a `DoTrash` step.
    ///
    /// The cursor advances unless the copy failed and the operator asked to
    /// retry the same file; a copy that succeeded counts as processed even
    /// when the original could not be deleted (that is warned about, and the
    /// file is present in both places until cleaned up by hand).
    pub fn record_trash_result(&mut self, outcome: RelocationOutcome, retry_requested: bool)
        requires
            old(self).wf(),
            !old(self).spec_finished(),
        ensures
            final(self).wf(),
            final(self).same_but_cursor(*old(self)),
            outcome is CopyFailed && retry_requested ==> final(self).cursor == old(self).cursor,
            !(outcome is CopyFailed && retry_requested) ==> final(self).cursor == old(self).cursor + 1,
    {
        match outcome {
            RelocationOutcome::CopyFailed => {
                if !retry_requested {
                    proof {
                        assert(self.cursor < self.queue.len());
                    }
                    self.cursor = self.cursor + 1;
                }
            },
            _ => {
                proof {
                    assert(self.cursor < self.queue.len());
                }
                self.cursor = self.cursor + 1;
            },
        }
    }

    /// Set the persistent override action; an invalid choice sets nothing
    /// and the current file is prompted for again.
    pub fn set_override(&mut self, action: Option<DispositionAction>) -> (accepted: bool)
        requires
            old(self).wf(),
        ensures
            final(self).wf(),
            final(self).queue == old(self).queue,
            final(self).cursor == old(self).cursor,
            final(self).trash_root == old(self).trash_root,
            final(self).quit == old(self).quit,
            action is Some ==> accepted && final(self).override_action == action,
            action is None ==> !accepted && final(self).override_action == old(self).override_action,
    {
        match action {
            Some(a) => {
                self.override_action = Some(a);
                true
            },
            None => false,
        }
    }

    /// Partial-progress summary: how many queue entries were processed
    /// (passed by the cursor) and how many remain.
    pub fn session_summary(&self) -> (r: (usize, usize))
        requires
            self.wf(),
        ensures
            r.0 == self.cursor,
            r.1 == self.queue@.len() - self.cursor,
            r.0 + r.1 == self.queue@.len(),
    {
        (self.cursor, self.queue.len() - self.cursor)
    }
}

/// Parse the first byte of a `Reviewing` input line; commands are
/// case-sensitive single characters.
pub fn parse_review_command(c: u8) -> (cmd: ReviewCommand)
    ensures
        c == L_T <==> cmd is Trash,
        c == L_K <==> cmd is Keep,
        c == L_V <==> cmd is View,
        c == L_D <==> cmd is OpenDir,
        c == L_S <==> cmd is BatchSelect,
        c == L_F <==> cmd is Filter,
        c == L_A <==> cmd is ApplyAll,
        c == L_Q <==> cmd is Quit,
{
    if c == L_T {
        ReviewCommand::Trash
    } else if c == L_K {
        ReviewCommand::Keep
    } else if c == L_V {
        ReviewCommand::View
    } else if c == L_D {
        ReviewCommand::OpenDir
    } else if c == L_S {
        ReviewCommand::BatchSelect
    } else if c == L_F {
        ReviewCommand::Filter
    } else if c == L_A {
        ReviewCommand::ApplyAll
    } else if c == L_Q {
        ReviewCommand::Quit
    } else {
        ReviewCommand::Other
    }
}

/// Parse a disposition action character: `t` or `k`, anything else invalid.
pub fn parse_action(c: u8) -> (r: Option<DispositionAction>)
    ensures
        c == L_T <==> r == Some(DispositionAction::Trash),
        c == L_K <==> r == Some(DispositionAction::Keep),
        c != L_T && c != L_K <==> r is None,
{
    if c == L_T {
        Some(DispositionAction::Trash)
    } else if c == L_K {
        Some(DispositionAction::Keep)
    } else {
        None
    }
}

/// Parse a batch-selection input character.
pub fn parse_batch_command(c: u8) -> (cmd: BatchCommand)
    ensures
        c == L_Y <==> cmd is Select,
        c == L_N <==> cmd is Skip,
        c == L_V <==> cmd is View,
        c == L_D <==> cmd is OpenDir,
        c == L_Q <==> cmd is Stop,
{
    if c == L_Y {
        BatchCommand::Select
    } else if c == L_N {
        BatchCommand::Skip
    } else if c == L_V {
        BatchCommand::View
    } else if c == L_D {
        BatchCommand::OpenDir
    } else if c == L_Q {
        BatchCommand::Stop
    } else {
        BatchCommand::Other
    }
}

/// A command in the `BatchSelecting` state.
#[derive(Clone, Copy, Debug, PartialEq, Eq, Structural)]
pub enum BatchCommand {
    Select,
    Skip,
    View,
    OpenDir,
    Stop,
    Other,
}

/// What the driver must do after a batch-selection step.
#[derive(Clone, Copy, Debug, PartialEq, Eq, Structural)]
pub enum BatchStep {
    /// The file was selected or skipped; the next file follows.
    Noted,
    /// Show the current file's details; the same file is offered again.
    ShowDetails,
    /// Open the current file's directory; the same file is offered again.
    ShowDirectory,
    /// Selection was aborted; move on to applying the bulk action.
    Stopped,
    /// The input was invalid; the same file is offered again.
    Repeat,
}

/// The `BatchSelecting` sub-state: a walk over the unvisited tail of the
/// queue, marking files selected or skipped.
pub struct BatchSelection {
    /// The review cursor at entry; nothing before it is ever touched.
    pub start: usize,
    /// The file currently offered for selection.
    pub pos: usize,
    /// The queue length at entry.
    pub end: usize,
    /// The selected indices, in ascending order.
    pub selected: Vec<usize>,
    /// Whether the operator stopped selecting early.
    pub stopped: bool,
}

impl BatchSelection {
    /// Selected indices stay within the tail `[start, pos)`, ascending and
    /// unique.
    pub open spec fn wf(self) -> bool {
        &&& self.start <= self.pos <= self.end
        &&& forall|k: int|
            0 <= k < self.selected@.len() ==> self.start <= #[trigger] self.selected@[k]
                < self.pos
        &&& forall|k1: int, k2: int|
            0 <= k1 < k2 < self.selected@.len() ==> self.selected@[k1] < self.selected@[k2]
    }

    /// Selection is done: the tail is exhausted or the operator stopped.
    pub open spec fn spec_done(self) -> bool {
        self.stopped || self.pos >= self.end
    }

    /// Start selecting at the session's cursor, over the tail of its queue.
    pub fn start_batch(session: &DispositionSession) -> (b: Self)
        requires
            session.wf(),
            !session.spec_finished(),
        ensures
            b.wf(),
            b.start == session.cursor,
            b.pos == session.cursor,
            b.end == session.queue@.len(),
            b.selected@.len() == 0,
            !b.stopped,
    {
        BatchSelection {
            start: session.cursor,
            pos: session.cursor,
            end: session.queue.len(),
            selected: Vec::new(),
            stopped: false,
        }
    }

    pub fn done(&self) -> (r: bool)
        ensures
            r == self.spec_done(),
    {
        self.stopped || self.pos >= self.end
    }

    /// One step of batch selection over the file at `pos`.
    pub fn batch_step(&mut self, cmd: BatchCommand) -> (step: BatchStep)
        requires
            old(self).wf(),
            !old(self).spec_done(),
        ensures
            final(self).wf(),
            final(self).start == old(self).start,
            final(self).end == old(self).end,
            cmd is Select ==> step is Noted && final(self).pos == old(self).pos + 1 && final(self).selected@ == old(self).selected@.push(old(self).pos) && !final(self).stopped,
            cmd is Skip ==> step is Noted && final(self).pos == old(self).pos + 1 && final(self).selected@ == old(self).selected@ && !final(self).stopped,
            cmd is View ==> step is ShowDetails && *final(self) == *old(self),
            cmd is OpenDir ==> step is ShowDirectory && *final(self) == *old(self),
            cmd is Stop ==> step is Stopped && final(self).stopped && final(self).pos == old(self).pos && final(self).selected@ == old(self).selected@,
            cmd is Other ==> step is Repeat && *final(self) == *old(self),
    {
        match cmd {
            BatchCommand::Select => {
                self.selected.push(self.pos);
                self.pos = self.pos + 1;
                BatchStep::Noted
            },
            BatchCommand::Skip => {
                self.pos = self.pos + 1;
                BatchStep::Noted
            },
            BatchCommand::View => BatchStep::ShowDetails,
            BatchCommand::OpenDir => BatchStep::ShowDirectory,
            BatchCommand::Stop => {
                self.stopped = true;
                BatchStep::Stopped
            },
            BatchCommand::Other => BatchStep::Repeat,
        }
    }

    pub fn selected_count(&self) -> (r: usize)
        ensures
            r == self.selected@.len(),
    {
        self.selected.len()
    }
}

/// Whether `s` holds `x`.
pub open spec fn spec_contains_index(s: Seq<usize>, x: usize) -> bool {
    s.contains(x)
}

fn contains_index(s: &Vec<usize>, x: usize) -> (r: bool)
    ensures
        r == spec_contains_index(s@, x),
{
    let n = s.len();
    let mut i: usize = 0;
    while i < n
        invariant
            n == s@.len(),
            i <= n,
            forall|j: int| 0 <= j < i ==> s@[j] != x,
        decreases n - i,
    {
        if s[i] == x {
            return true;
        }
        i = i + 1;
    }
    proof {
        if s@.contains(x) {
            let j = choose|j: int| 0 <= j < s@.len() && s@[j] == x;
            assert(s@[j] != x);
        }
    }
    false
}

/// Reverse a list of indices: bulk relocation processes them in descending
/// order so earlier indices stay valid throughout.
pub(crate) fn reverse_indices(s: &Vec<usize>) -> (r: Vec<usize>)
    ensures
        r@.len() == s@.len(),
        forall|k: int| 0 <= k < s@.len() ==> r@[k] == s@[s@.len() - 1 - k],
{
    let n = s.len();
    let mut r: Vec<usize> = Vec::new();
    let mut i: usize = n;
    while i > 0
        invariant
            n == s@.len(),
            i <= n,
            r@.len() == n - i,
            forall|k: int| 0 <= k < r@.len() ==> r@[k] == s@[n - 1 - k],
        decreases i,
    {
        i = i - 1;
        r.push(s[i]);
    }
    r
}

/// Apply the bulk action chosen after batch selection.
///
/// Returns the relocation plan: the selected indices in descending order
/// when the action is Trash, empty otherwise.  An empty selection or an
/// invalid action returns to reviewing without moving the cursor; Keep skips
/// just past the entry file, matching one pass of review; after a Trash the
/// cursor advances only past its own entry file, and only when that file was
/// among the selected.
pub fn batch_apply(
    session: &mut DispositionSession,
    batch: &BatchSelection,
    action: Option<DispositionAction>,
) -> (plan: Vec<usize>)
    requires
        old(session).wf(),
        !old(session).spec_finished(),
        batch.wf(),
        batch.start == old(session).cursor,
        batch.end == old(session).queue@.len(),
    ensures
        final(session).wf(),
        final(session).same_but_cursor(*old(session)),
        // the plan never reaches before the cursor at entry: the visited
        // head of the queue is untouched
        forall|k: int|
            0 <= k < plan@.len() ==> old(session).cursor <= #[trigger] plan@[k] < old(session).queue@.len(),
        batch.selected@.len() == 0 ==> plan@.len() == 0 && final(session).cursor == old(session).cursor,
        action is None ==> plan@.len() == 0 && final(session).cursor == old(session).cursor,
        action == Some(DispositionAction::Keep) && batch.selected@.len() > 0 ==> plan@.len()
            == 0 && final(session).cursor == batch.start + 1,
        action == Some(DispositionAction::Trash) && batch.selected@.len() > 0 ==> {
            &&& plan@.len() == batch.selected@.len()
            &&& forall|k: int|
                0 <= k < plan@.len() ==> #[trigger] plan@[k] == batch.selected@[plan@.len() - 1
                    - k]
            &&& final(session).cursor == if spec_contains_index(batch.selected@, batch.start) {
                (batch.start + 1) as int
            } else {
                batch.start as int
            }
        },
{
    if batch.selected.len() == 0 {
        return Vec::new();
    }
    match action {
        Some(DispositionAction::Trash) => {
            let plan = reverse_indices(&batch.selected);
            if contains_index(&batch.selected, batch.start) {
                session.cursor = batch.start + 1;
            } else {
                session.cursor = batch.start;
            }
            plan
        },
        Some(DispositionAction::Keep) => {
            session.cursor = batch.start + 1;
            Vec::new()
        },
        None => Vec::new(),
    }
}

/// How many of the original paths are gone at session end.
pub open spec fn spec_gone_count(s: Seq<bool>) -> nat {
    s.filter(|b: bool| !b).len()
}

/// How many of the original paths still exist at session end.
pub open spec fn spec_present_count(s: Seq<bool>) -> nat {
    s.filter(|b: bool| b).len()
}

proof fn lemma_counts_push(s: Seq<bool>, b: bool)
    ensures
        b ==> spec_gone_count(s.push(b)) == spec_gone_count(s) && spec_present_count(s.push(b))
            == spec_present_count(s) + 1,
        !b ==> spec_gone_count(s.push(b)) == spec_gone_count(s) + 1 && spec_present_count(
            s.push(b),
        ) == spec_present_count(s),
{
    broadcast use vstd::prelude::Seq::lemma_filter_push;

}

/// The end-of-session summary over the whole queue, computed from whether
/// each original path still exists: the count of files moved to trash (gone)
/// and of files kept (still present).  The filesystem is consulted, not an
/// in-memory action log, so partial relocation failures are reflected.
pub fn count_dispositions(exists_flags: &Vec<bool>) -> (r: (usize, usize))
    ensures
        r.0 == spec_gone_count(exists_flags@),
        r.1 == spec_present_count(exists_flags@),
        r.0 + r.1 == exists_flags@.len(),
{
    let n = exists_flags.len();
    let mut trashed: usize = 0;
    let mut kept: usize = 0;
    let mut i: usize = 0;
    proof {
        assert(exists_flags@.take(0) =~= Seq::<bool>::empty());
    }
    while i < n
        invariant
            n == exists_flags@.len(),
            i <= n,
            trashed == spec_gone_count(exists_flags@.take(i as int)),
            kept == spec_present_count(exists_flags@.take(i as int)),
            trashed + kept == i,
        decreases n - i,
    {
        if exists_flags[i] {
            kept = kept + 1;
        } else {
            trashed = trashed + 1;
        }
        proof {
            lemma_counts_push(exists_flags@.take(i as int), exists_flags@[i as int]);
            assert(exists_flags@.take(i + 1) =~= exists_flags@.take(i as int).push(
                exists_flags@[i as int],
            ));
        }
        i = i + 1;
    }
    proof {
        assert(exists_flags@.take(n as int) =~= exists_flags@);
    }
    (trashed, kept)
}

} // verus!
