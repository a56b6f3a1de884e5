use backup_photos::filter::{
    apply_initial_filter, filter_apply, filter_matches, parse_filter_action, parse_filter_kind,
    FilterAction, FilterKind,
};
use backup_photos::media::{FileRecord, MediaCategory};
use backup_photos::session::{DispositionSession, ReviewCommand};

fn rec(path: &[u8], category: MediaCategory) -> FileRecord {
    FileRecord { path: path.to_vec(), category }
}

fn mixed_session() -> DispositionSession {
    let queue = vec![
        rec(b"/b/a.jpg", MediaCategory::Photo),
        rec(b"/b/b.mov", MediaCategory::Video),
        rec(b"/b/c.jpg", MediaCategory::Photo),
        rec(b"/b/Holiday.png", MediaCategory::Photo),
        rec(b"/b/e.mkv", MediaCategory::Video),
    ];
    DispositionSession::new(queue, b"/home/user/.Trash".to_vec())
}

#[test]
fn filter_menu_choices_parse() {
    assert!(matches!(parse_filter_kind(b'1', b""), Some(FilterKind::Photos)));
    assert!(matches!(parse_filter_kind(b'2', b""), Some(FilterKind::Videos)));
    match parse_filter_kind(b'3', b"holi") {
        Some(FilterKind::Pattern(p)) => assert_eq!(p, b"holi".to_vec()),
        other => panic!("expected a pattern filter, got {:?}", other),
    }
    assert!(parse_filter_kind(b'4', b"").is_none());
}

#[test]
fn photo_filter_matches_only_tail_photos() {
    let mut s = mixed_session();
    s.review_step(ReviewCommand::Keep);  // cursor 1: index 0 is out of scope
    let matched = filter_matches(&s, &FilterKind::Photos);
    assert_eq!(matched, vec![2, 3]);
    assert!(matched.iter().all(|&i| i >= s.cursor && i < s.queue.len()));
}

#[test]
fn video_filter_matches_only_tail_videos() {
    let s = mixed_session();
    let matched = filter_matches(&s, &FilterKind::Videos);
    assert_eq!(matched, vec![1, 4]);
}

#[test]
fn pattern_filter_is_case_insensitive() {
    let s = mixed_session();
    let matched = filter_matches(&s, &FilterKind::Pattern(b"holiday".to_vec()));
    assert_eq!(matched, vec![3]);
    let matched_upper = filter_matches(&s, &FilterKind::Pattern(b"HOLIDAY".to_vec()));
    assert_eq!(matched_upper, vec![3]);
}

#[test]
fn filter_trash_plans_descending_and_steps_past_a_matching_current_file() {
    let mut s = mixed_session();
    let matched = filter_matches(&s, &FilterKind::Photos);
    assert_eq!(matched, vec![0, 2, 3]);
    let plan = filter_apply(&mut s, &matched, FilterAction::Trash);
    assert_eq!(plan, vec![3, 2, 0]);
    // the current file (index 0) matched, so the cursor steps past it
    assert_eq!(s.cursor, 1);
}

#[test]
fn filter_trash_keeps_cursor_when_current_file_does_not_match() {
    let mut s = mixed_session();
    let matched = filter_matches(&s, &FilterKind::Videos);
    let plan = filter_apply(&mut s, &matched, FilterAction::Trash);
    assert_eq!(plan, vec![4, 1]);
    assert_eq!(s.cursor, 0);
}

#[test]
fn filter_keep_skips_past_the_last_match() {
    let mut s = mixed_session();
    let matched = filter_matches(&s, &FilterKind::Photos);
    let plan = filter_apply(&mut s, &matched, FilterAction::Keep);
    assert!(plan.is_empty());
    assert_eq!(s.cursor, 4);
}

#[test]
fn filter_without_action_changes_nothing() {
    let mut s = mixed_session();
    let matched = filter_matches(&s, &FilterKind::Photos);
    let plan = filter_apply(&mut s, &matched, parse_filter_action(b'n'));
    assert!(plan.is_empty());
    assert_eq!(s.cursor, 0);
}

#[test]
fn initial_filter_narrows_the_whole_list_in_order() {
    let files = vec![
        rec(b"/b/a.jpg", MediaCategory::Photo),
        rec(b"/b/b.mov", MediaCategory::Video),
        rec(b"/b/c.JPG", MediaCategory::Photo),
    ];
    let photos = apply_initial_filter(&files, &FilterKind::Photos);
    assert_eq!(photos.len(), 2);
    assert_eq!(photos[0].path, b"/b/a.jpg".to_vec());
    assert_eq!(photos[1].path, b"/b/c.JPG".to_vec());
    let pattern = apply_initial_filter(&files, &FilterKind::Pattern(b".MO".to_vec()));
    assert_eq!(pattern.len(), 1);
    assert_eq!(pattern[0].path, b"/b/b.mov".to_vec());
}
