use vstd::prelude::*;

verus! {

/// Errors reported while auditing and synchronising a backup tree.
///
/// Path-like and message-like payloads are carried as plain bytes so that
/// contracts can speak about them directly.
#[derive(Debug, PartialEq, Eq)]
pub enum BackupError {
    /// A required environment variable was not set; holds its name.
    EnvVarNotFound(Vec<u8>),
    /// A directory does not exist; holds its path.
    DirectoryNotFound(Vec<u8>),
    /// A directory exists but cannot be used; holds its path or a message.
    DirectoryNotAccessible(Vec<u8>),
    /// A path points at an external drive that is not mounted.
    ExternalDriveNotConnected(Vec<u8>),
    /// An external command failed; holds its message.
    CommandFailed(Vec<u8>),
    /// No media files were found in the export directory.
    NoPhotosFound,
    /// The export directory exists but holds no entries at all.
    ExportDirEmpty(Vec<u8>),
    /// An input/output failure; holds a message.
    IoError(Vec<u8>),
}

} // verus!
