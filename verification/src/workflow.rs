//! The full backup workflow as a step-by-step transition: back the photos
//! up, import them, then compare the backup against the library.  A step
//! that fails aborts the run; the clear of the export directory is never
//! part of the automatic run and stays behind its own force flag.

use vstd::prelude::*;

verus! {

/// One step of the full backup workflow.
#[derive(Clone, Copy, Debug, PartialEq, Eq, Structural)]
pub enum WorkflowStep {
    /// Copy the exported media into the raw backup directory.
    Backup,
    /// Import the exported media into the asset library.
    Import,
    /// Compare the backup directory against the library by content hash.
    Compare,
}

/// The workflow transition: which step to run next, given the step just
/// completed (`None` at the start) and whether it succeeded.  The driver
/// runs the returned step, then asks again; `None` ends the run.
pub fn full_backup_workflow(completed: Option<WorkflowStep>, succeeded: bool) -> (next: Option<
    WorkflowStep,
>)
    ensures
        completed is None ==> next == Some(WorkflowStep::Backup),
        completed is Some && !succeeded ==> next is None,
        completed == Some(WorkflowStep::Backup) && succeeded ==> next == Some(
            WorkflowStep::Import,
        ),
        completed == Some(WorkflowStep::Import) && succeeded ==> next == Some(
            WorkflowStep::Compare,
        ),
        completed == Some(WorkflowStep::Compare) && succeeded ==> next is None,
{
    match completed {
        None => Some(WorkflowStep::Backup),
        Some(step) => {
            if !succeeded {
                None
            } else {
                match step {
                    WorkflowStep::Backup => Some(WorkflowStep::Import),
                    WorkflowStep::Import => Some(WorkflowStep::Compare),
                    WorkflowStep::Compare => None,
                }
            }
        },
    }
}

} // verus!
