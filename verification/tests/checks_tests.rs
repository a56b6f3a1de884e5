use backup_photos::checks::{
    backup_photos_to_raw_dir, check_directory_exists_and_accessible,
    check_external_drive_connected, clear_export_directory, clear_export_directory_force,
    is_external_volume_path,
};
use backup_photos::errors::BackupError;
use backup_photos::workflow::{full_backup_workflow, WorkflowStep};

#[test]
fn missing_directory_is_reported_as_not_found() {
    let r = check_directory_exists_and_accessible(b"/x", false, false, None);
    assert_eq!(r, Err(BackupError::DirectoryNotFound(b"/x".to_vec())));
}

#[test]
fn non_directory_and_unreadable_metadata_are_not_accessible() {
    let r = check_directory_exists_and_accessible(b"/x", true, false, None);
    assert_eq!(r, Err(BackupError::DirectoryNotAccessible(b"/x".to_vec())));
    let r2 = check_directory_exists_and_accessible(b"/x", true, true, None);
    assert_eq!(r2, Err(BackupError::DirectoryNotAccessible(b"/x".to_vec())));
}

#[test]
fn readonly_directory_is_not_accessible_and_writable_is_fine() {
    let r = check_directory_exists_and_accessible(b"/x", true, true, Some(true));
    assert_eq!(r, Err(BackupError::DirectoryNotAccessible(b"/x".to_vec())));
    let ok = check_directory_exists_and_accessible(b"/x", true, true, Some(false));
    assert_eq!(ok, Ok(()));
}

#[test]
fn volume_paths_are_recognised() {
    assert!(is_external_volume_path(b"/Volumes/Backup/photos"));
    assert!(!is_external_volume_path(b"/home/user/photos"));
}

#[test]
fn disconnected_external_drive_is_reported() {
    // a plain path on /Volumes that does not exist
    let r = check_external_drive_connected(b"/Volumes/B/p", false, None, false, false);
    assert_eq!(r, Err(BackupError::ExternalDriveNotConnected(b"/Volumes/B/p".to_vec())));
    // a symlink whose /Volumes target is gone
    let r2 = check_external_drive_connected(
        b"/home/u/link",
        true,
        Some(b"/Volumes/B/p".to_vec()),
        false,
        true,
    );
    assert_eq!(r2, Err(BackupError::ExternalDriveNotConnected(b"/home/u/link".to_vec())));
}

#[test]
fn connected_or_internal_paths_pass_the_drive_check() {
    assert_eq!(check_external_drive_connected(b"/home/u/p", false, None, false, true), Ok(()));
    assert_eq!(
        check_external_drive_connected(b"/Volumes/B/p", false, None, false, true),
        Ok(())
    );
    assert_eq!(
        check_external_drive_connected(
            b"/home/u/link",
            true,
            Some(b"/Volumes/B/p".to_vec()),
            true,
            true,
        ),
        Ok(())
    );
}

#[test]
fn unreadable_symlink_is_an_io_error() {
    let r = check_external_drive_connected(b"/home/u/link", true, None, false, true);
    assert_eq!(r, Err(BackupError::IoError(b"/home/u/link".to_vec())));
}

#[test]
fn backup_without_media_reports_no_photos_found() {
    let paths = vec![b"/e/readme.txt".to_vec()];
    let r = backup_photos_to_raw_dir(&paths, b"/e", true, true);
    assert_eq!(r, Err(BackupError::NoPhotosFound));
}

#[test]
fn backup_with_missing_or_empty_export_dir_fails() {
    let paths = vec![b"/e/a.jpg".to_vec()];
    let r = backup_photos_to_raw_dir(&paths, b"/e", false, false);
    assert_eq!(r, Err(BackupError::DirectoryNotFound(b"/e".to_vec())));
    let r2 = backup_photos_to_raw_dir(&paths, b"/e", true, false);
    assert_eq!(r2, Err(BackupError::ExportDirEmpty(b"/e".to_vec())));
}

#[test]
fn backup_with_media_reports_the_count() {
    let paths = vec![b"/e/a.jpg".to_vec(), b"/e/b.mov".to_vec(), b"/e/c.xmp".to_vec()];
    assert_eq!(backup_photos_to_raw_dir(&paths, b"/e", true, true), Ok(3));
}

#[test]
fn clear_dry_run_counts_and_forced_clear_selects_media_only() {
    let paths = vec![
        b"/e/a.jpg".to_vec(),
        b"/e/notes.txt".to_vec(),
        b"/e/b.XMP".to_vec(),
    ];
    assert_eq!(clear_export_directory(&paths), 2);
    let to_delete = clear_export_directory_force(&paths);
    assert_eq!(to_delete, vec![b"/e/a.jpg".to_vec(), b"/e/b.XMP".to_vec()]);
}

#[test]
fn workflow_runs_backup_import_compare_in_order() {
    let s1 = full_backup_workflow(None, true);
    assert_eq!(s1, Some(WorkflowStep::Backup));
    let s2 = full_backup_workflow(s1, true);
    assert_eq!(s2, Some(WorkflowStep::Import));
    let s3 = full_backup_workflow(s2, true);
    assert_eq!(s3, Some(WorkflowStep::Compare));
    assert_eq!(full_backup_workflow(s3, true), None);
}

#[test]
fn a_failed_workflow_step_aborts_the_run() {
    assert_eq!(full_backup_workflow(Some(WorkflowStep::Backup), false), None);
    assert_eq!(full_backup_workflow(Some(WorkflowStep::Import), false), None);
}
