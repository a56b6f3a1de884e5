//! The relocation ("trash") step, modelled over an abstract file store.
//!
//! Execution order is copy, verify the copy succeeded, then delete the
//! original: deletion never precedes a confirmed copy, so the worst failure
//! leaves the file duplicated in both places, never lost.

use vstd::prelude::*;
use crate::session::RelocationOutcome;

verus! {

/// Classify one relocation attempt from what the driver observed.  The
/// delete step only runs after a successful copy, so `delete_ok` is only
/// meaningful when `copy_ok` holds.
pub fn classify_relocation(copy_ok: bool, delete_ok: bool) -> (r: RelocationOutcome)
    ensures
        !copy_ok <==> r is CopyFailed,
        copy_ok && delete_ok <==> r is Moved,
        copy_ok && !delete_ok <==> r is CopiedNotDeleted,
{
    if !copy_ok {
        RelocationOutcome::CopyFailed
    } else if delete_ok {
        RelocationOutcome::Moved
    } else {
        RelocationOutcome::CopiedNotDeleted
    }
}

/// A file store modelled as a map from paths to contents, and a completed
/// relocation on it: the contents appear under the destination and the
/// source is gone.
pub open spec fn spec_relocate(
    fs: Map<Seq<u8>, Seq<u8>>,
    source: Seq<u8>,
    dest: Seq<u8>,
) -> Map<Seq<u8>, Seq<u8>> {
    fs.insert(dest, fs[source]).remove(source)
}

/// Relocation safety: after a successful trash action on a file whose
/// destination was free, the original path no longer exists, exactly the
/// destination holds a content-identical copy, and no other path changed.
pub proof fn lemma_relocation_safety(fs: Map<Seq<u8>, Seq<u8>>, source: Seq<u8>, dest: Seq<u8>)
    requires
        fs.dom().contains(source),
        !fs.dom().contains(dest),
    ensures
        !spec_relocate(fs, source, dest).dom().contains(source),
        spec_relocate(fs, source, dest).dom().contains(dest),
        spec_relocate(fs, source, dest)[dest] == fs[source],
        forall|p: Seq<u8>|
            p != source && p != dest ==> (#[trigger] spec_relocate(fs, source, dest).dom().contains(
                p,
            ) == fs.dom().contains(p) && (fs.dom().contains(p) ==> spec_relocate(
                fs,
                source,
                dest,
            )[p] == fs[p])),
{
}

} // verus!
