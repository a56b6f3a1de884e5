//! Content-addressed audit of a local media backup tree.
//!
//! The library classifies backed-up files by extension category, hashes their
//! contents through a streaming digest, computes which backup files have no
//! content-identical counterpart in a reference library, and drives an
//! interactive disposition session that soft-deletes unwanted files into a
//! trash directory with collision-safe naming.

pub mod bytes_util;
pub mod checks;
pub mod errors;
pub mod filter;
pub mod hashing;
pub mod media;
pub mod naming;
pub mod reconcile;
pub mod relocate;
pub mod session;
pub mod workflow;

pub use checks::{
    backup_photos_to_raw_dir, check_directory_exists_and_accessible,
    check_external_drive_connected, clear_export_directory, clear_export_directory_force,
};
pub use errors::BackupError;
pub use media::count_files_with_extensions;
pub use reconcile::{compare_backup_to_immich, find_files_not_in_immich};
pub use workflow::full_backup_workflow;
