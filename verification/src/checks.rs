//! Decision cores of the directory checks and of the export-directory
//! operations.  The surrounding driver performs the filesystem probes and
//! walks and hands their plain results in; every decision is made and
//! verified here.

use vstd::prelude::*;
use crate::bytes_util::{SLASH, spec_starts_with, starts_with};
use crate::errors::BackupError;
use crate::media::{
    views_of, spec_count_matching, spec_matches_exts, count_files_with_extensions,
    select_matching, all_extensions, spec_photo_exts, spec_video_exts, spec_metadata_exts,
    L_E, L_L, L_M, L_O, L_S, L_U, U_V,
};

verus! {

/// The mount prefix of external volumes.
pub open spec fn spec_volumes_prefix() -> Seq<u8> {
    seq![SLASH, U_V, L_O, L_L, L_U, L_M, L_E, L_S]
}

fn volumes_prefix() -> (r: Vec<u8>)
    ensures
        r@ == spec_volumes_prefix(),
{
    let mut r: Vec<u8> = Vec::new();
    r.push(SLASH);
    r.push(U_V);
    r.push(L_O);
    r.push(L_L);
    r.push(L_U);
    r.push(L_M);
    r.push(L_E);
    r.push(L_S);
    proof {
        assert(r@ =~= spec_volumes_prefix());
    }
    r
}

/// Whether a path points below the external-volume mount root.
pub fn is_external_volume_path(path: &[u8]) -> (r: bool)
    ensures
        r == spec_starts_with(path@, spec_volumes_prefix()),
{
    let prefix = volumes_prefix();
    starts_with(path, prefix.as_slice())
}

/// Decide whether a directory can be used, from the probes' results:
/// `path_exists` and `is_dir` from the metadata lookup, and `readonly` from
/// the permissions (`None` when the metadata could not be read at all).
pub fn check_directory_exists_and_accessible(
    path: &[u8],
    path_exists: bool,
    is_dir: bool,
    readonly: Option<bool>,
) -> (r: Result<(), BackupError>)
    ensures
        !path_exists ==> (r matches Err(BackupError::DirectoryNotFound(p)) && p@ == path@),
        path_exists && !is_dir ==> (r matches Err(BackupError::DirectoryNotAccessible(p)) && p@
            == path@),
        path_exists && is_dir && readonly is None ==> (r matches Err(
            BackupError::DirectoryNotAccessible(p),
        ) && p@ == path@),
        path_exists && is_dir && readonly == Some(true) ==> (r matches Err(
            BackupError::DirectoryNotAccessible(p),
        ) && p@ == path@),
        path_exists && is_dir && readonly == Some(false) ==> r is Ok,
{
    if !path_exists {
        return Err(BackupError::DirectoryNotFound(vstd::slice::slice_to_vec(path)));
    }
    if !is_dir {
        return Err(BackupError::DirectoryNotAccessible(vstd::slice::slice_to_vec(path)));
    }
    match readonly {
        None => Err(BackupError::DirectoryNotAccessible(vstd::slice::slice_to_vec(path))),
        Some(true) => Err(BackupError::DirectoryNotAccessible(vstd::slice::slice_to_vec(path))),
        Some(false) => Ok(()),
    }
}

/// Decide whether a path's external drive is connected.
///
/// For a symlink, `link_target` is what the link resolves to (`None` when it
/// could not be read) and `target_exists` whether that target exists; for a
/// plain path, `path_exists` whether the path itself does.  Only paths under
/// the external-volume mount root are required to exist.
pub fn check_external_drive_connected(
    path: &[u8],
    is_symlink: bool,
    link_target: Option<Vec<u8>>,
    target_exists: bool,
    path_exists: bool,
) -> (r: Result<(), BackupError>)
    ensures
        is_symlink && link_target is None ==> (r matches Err(BackupError::IoError(p)) && p@
            == path@),
        is_symlink && link_target is Some && spec_starts_with(
            link_target->0@,
            spec_volumes_prefix(),
        ) && !target_exists ==> (r matches Err(BackupError::ExternalDriveNotConnected(p)) && p@
            == path@),
        is_symlink && link_target is Some && (!spec_starts_with(
            link_target->0@,
            spec_volumes_prefix(),
        ) || target_exists) ==> r is Ok,
        !is_symlink && spec_starts_with(path@, spec_volumes_prefix()) && !path_exists ==> (
        r matches Err(BackupError::ExternalDriveNotConnected(p)) && p@ == path@),
        !is_symlink && (!spec_starts_with(path@, spec_volumes_prefix()) || path_exists) ==> r
            is Ok,
{
    if is_symlink {
        match link_target {
            None => Err(BackupError::IoError(vstd::slice::slice_to_vec(path))),
            Some(t) => {
                if is_external_volume_path(t.as_slice()) && !target_exists {
                    Err(BackupError::ExternalDriveNotConnected(vstd::slice::slice_to_vec(path)))
                } else {
                    Ok(())
                }
            },
        }
    } else {
        if is_external_volume_path(path) && !path_exists {
            Err(BackupError::ExternalDriveNotConnected(vstd::slice::slice_to_vec(path)))
        } else {
            Ok(())
        }
    }
}

/// Every extension the backup cares about, as one mathematical list.
pub open spec fn spec_all_exts() -> Seq<Seq<u8>> {
    spec_photo_exts() + spec_video_exts() + spec_metadata_exts()
}

/// Decide whether the backup step may proceed, from the walked export
/// directory: no media at all refuses with `NoPhotosFound`; a missing export
/// directory with `DirectoryNotFound`; one that exists but holds no entries
/// with `ExportDirEmpty`; otherwise the count of files to back up.
pub fn backup_photos_to_raw_dir(
    export_paths: &Vec<Vec<u8>>,
    export_dir: &[u8],
    dir_exists: bool,
    dir_has_entries: bool,
) -> (r: Result<usize, BackupError>)
    ensures
        spec_count_matching(views_of(export_paths@), spec_all_exts()) == 0 ==> (r matches Err(e)
            && e is NoPhotosFound),
        spec_count_matching(views_of(export_paths@), spec_all_exts()) > 0 && !dir_exists ==> (
        r matches Err(BackupError::DirectoryNotFound(p)) && p@ == export_dir@),
        spec_count_matching(views_of(export_paths@), spec_all_exts()) > 0 && dir_exists
            && !dir_has_entries ==> (r matches Err(BackupError::ExportDirEmpty(p)) && p@
            == export_dir@),
        spec_count_matching(views_of(export_paths@), spec_all_exts()) > 0 && dir_exists
            && dir_has_entries ==> (r matches Ok(c) && c == spec_count_matching(
            views_of(export_paths@),
            spec_all_exts(),
        )),
{
    let exts = all_extensions();
    let count = count_files_with_extensions(export_paths, &exts);
    if count == 0 {
        return Err(BackupError::NoPhotosFound);
    }
    if !dir_exists {
        return Err(BackupError::DirectoryNotFound(vstd::slice::slice_to_vec(export_dir)));
    }
    if !dir_has_entries {
        return Err(BackupError::ExportDirEmpty(vstd::slice::slice_to_vec(export_dir)));
    }
    Ok(count)
}

/// The dry run of clearing the export directory: how many media files a
/// forced clear would delete.  Nothing is deleted without the force flag.
pub fn clear_export_directory(export_paths: &Vec<Vec<u8>>) -> (count: usize)
    ensures
        count == spec_count_matching(views_of(export_paths@), spec_all_exts()),
{
    let exts = all_extensions();
    count_files_with_extensions(export_paths, &exts)
}

/// The forced clear of the export directory: exactly the media files among
/// the walked paths, in walk order, are to be deleted.
pub fn clear_export_directory_force(export_paths: &Vec<Vec<u8>>) -> (to_delete: Vec<Vec<u8>>)
    ensures
        views_of(to_delete@) == views_of(export_paths@).filter(
            |p: Seq<u8>| spec_matches_exts(p, spec_all_exts()),
        ),
{
    let exts = all_extensions();
    select_matching(export_paths, &exts)
}

} // verus!
