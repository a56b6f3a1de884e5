use backup_photos::media::{FileRecord, MediaCategory};
use backup_photos::session::{
    batch_apply, count_dispositions, parse_action, parse_batch_command, parse_review_command,
    BatchCommand, BatchSelection, BatchStep, DispositionAction, DispositionSession,
    RelocationOutcome, ReviewCommand, ReviewStep,
};

fn rec(path: &[u8], category: MediaCategory) -> FileRecord {
    FileRecord { path: path.to_vec(), category }
}

fn five_file_session() -> DispositionSession {
    let queue = vec![
        rec(b"/b/a.jpg", MediaCategory::Photo),
        rec(b"/b/b.mov", MediaCategory::Video),
        rec(b"/b/c.jpg", MediaCategory::Photo),
        rec(b"/b/d.png", MediaCategory::Photo),
        rec(b"/b/e.mkv", MediaCategory::Video),
    ];
    DispositionSession::new(queue, b"/home/user/.Trash".to_vec())
}

#[test]
fn quit_after_two_of_five_reports_partial_progress() {
    let mut s = five_file_session();
    assert_eq!(s.review_step(ReviewCommand::Keep), ReviewStep::Advanced);
    assert_eq!(s.review_step(ReviewCommand::Keep), ReviewStep::Advanced);
    assert_eq!(s.review_step(ReviewCommand::Quit), ReviewStep::QuitAccepted);
    assert!(s.finished());
    let (processed, remaining) = s.session_summary();
    assert_eq!(processed, 2);
    assert_eq!(remaining, 3);
    // no further mutation: queue and override untouched
    assert_eq!(s.queue.len(), 5);
    assert_eq!(s.pending_override(), None);
}

#[test]
fn trash_command_requests_relocation_then_outcome_advances() {
    let mut s = five_file_session();
    assert_eq!(s.review_step(ReviewCommand::Trash), ReviewStep::DoTrash);
    assert_eq!(s.cursor, 0);
    s.record_trash_result(RelocationOutcome::Moved, false);
    assert_eq!(s.cursor, 1);
}

#[test]
fn failed_copy_with_retry_repeats_the_same_file() {
    let mut s = five_file_session();
    assert_eq!(s.review_step(ReviewCommand::Trash), ReviewStep::DoTrash);
    s.record_trash_result(RelocationOutcome::CopyFailed, true);
    assert_eq!(s.cursor, 0);
    s.record_trash_result(RelocationOutcome::CopyFailed, false);
    assert_eq!(s.cursor, 1);
}

#[test]
fn copied_but_not_deleted_still_counts_as_processed() {
    let mut s = five_file_session();
    assert_eq!(s.review_step(ReviewCommand::Trash), ReviewStep::DoTrash);
    s.record_trash_result(RelocationOutcome::CopiedNotDeleted, false);
    assert_eq!(s.cursor, 1);
}

#[test]
fn view_and_directory_and_invalid_input_repeat_the_file() {
    let mut s = five_file_session();
    assert_eq!(s.review_step(ReviewCommand::View), ReviewStep::ShowDetails);
    assert_eq!(s.review_step(ReviewCommand::OpenDir), ReviewStep::ShowDirectory);
    assert_eq!(s.review_step(ReviewCommand::Other), ReviewStep::Repeat);
    assert_eq!(s.cursor, 0);
}

#[test]
fn override_applies_to_all_subsequent_files() {
    let mut s = five_file_session();
    assert_eq!(s.review_step(ReviewCommand::ApplyAll), ReviewStep::AwaitOverride);
    assert!(s.set_override(parse_action(b'k')));
    assert_eq!(s.pending_override(), Some(DispositionAction::Keep));
    // an invalid override choice changes nothing
    let mut s2 = five_file_session();
    assert!(!s2.set_override(parse_action(b'x')));
    assert_eq!(s2.pending_override(), None);
}

#[test]
fn review_commands_parse_case_sensitively() {
    assert_eq!(parse_review_command(b't'), ReviewCommand::Trash);
    assert_eq!(parse_review_command(b'k'), ReviewCommand::Keep);
    assert_eq!(parse_review_command(b'v'), ReviewCommand::View);
    assert_eq!(parse_review_command(b'd'), ReviewCommand::OpenDir);
    assert_eq!(parse_review_command(b's'), ReviewCommand::BatchSelect);
    assert_eq!(parse_review_command(b'f'), ReviewCommand::Filter);
    assert_eq!(parse_review_command(b'a'), ReviewCommand::ApplyAll);
    assert_eq!(parse_review_command(b'q'), ReviewCommand::Quit);
    assert_eq!(parse_review_command(b'T'), ReviewCommand::Other);
    assert_eq!(parse_review_command(b'?'), ReviewCommand::Other);
}

#[test]
fn batch_selection_collects_marked_files_from_the_tail() {
    let mut s = five_file_session();
    s.review_step(ReviewCommand::Keep);
    // cursor is 1; batch runs over indices 1..5
    let mut b = BatchSelection::start_batch(&s);
    assert_eq!(b.batch_step(parse_batch_command(b'y')), BatchStep::Noted);  // select 1
    assert_eq!(b.batch_step(parse_batch_command(b'n')), BatchStep::Noted);  // skip 2
    assert_eq!(b.batch_step(parse_batch_command(b'v')), BatchStep::ShowDetails);
    assert_eq!(b.batch_step(parse_batch_command(b'y')), BatchStep::Noted);  // select 3
    assert_eq!(b.batch_step(parse_batch_command(b'q')), BatchStep::Stopped);
    assert!(b.done());
    assert_eq!(b.selected_count(), 2);

    let plan = batch_apply(&mut s, &b, Some(DispositionAction::Trash));
    // descending order, within the unvisited tail
    assert_eq!(plan, vec![3, 1]);
    assert!(plan.iter().all(|&i| i >= 1 && i < 5));
    // the entry file (index 1) was selected, so the cursor steps past it
    assert_eq!(s.cursor, 2);
}

#[test]
fn batch_keep_skips_past_the_entry_file() {
    let mut s = five_file_session();
    let mut b = BatchSelection::start_batch(&s);
    b.batch_step(BatchCommand::Select);
    b.batch_step(BatchCommand::Select);
    let plan = batch_apply(&mut s, &b, Some(DispositionAction::Keep));
    assert!(plan.is_empty());
    assert_eq!(s.cursor, 1);
}

#[test]
fn batch_trash_without_the_entry_file_keeps_the_cursor() {
    let mut s = five_file_session();
    let mut b = BatchSelection::start_batch(&s);
    b.batch_step(BatchCommand::Skip);     // 0 not selected
    b.batch_step(BatchCommand::Select);   // 1 selected
    b.batch_step(BatchCommand::Stop);
    let plan = batch_apply(&mut s, &b, Some(DispositionAction::Trash));
    assert_eq!(plan, vec![1]);
    assert_eq!(s.cursor, 0);
}

#[test]
fn empty_batch_selection_returns_without_moving_the_cursor() {
    let mut s = five_file_session();
    let mut b = BatchSelection::start_batch(&s);
    b.batch_step(BatchCommand::Skip);
    b.batch_step(BatchCommand::Stop);
    let plan = batch_apply(&mut s, &b, Some(DispositionAction::Trash));
    assert!(plan.is_empty());
    assert_eq!(s.cursor, 0);
}

#[test]
fn invalid_batch_action_takes_no_action() {
    let mut s = five_file_session();
    let mut b = BatchSelection::start_batch(&s);
    b.batch_step(BatchCommand::Select);
    let plan = batch_apply(&mut s, &b, parse_action(b'z'));
    assert!(plan.is_empty());
    assert_eq!(s.cursor, 0);
}

#[test]
fn end_of_session_summary_counts_by_existence() {
    // three originals gone (trashed), two still present (kept)
    let flags = vec![false, true, false, false, true];
    let (trashed, kept) = count_dispositions(&flags);
    assert_eq!(trashed, 3);
    assert_eq!(kept, 2);
    assert_eq!(trashed + kept, flags.len());
}
