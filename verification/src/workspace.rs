//! The workspace manager: the directory that holds the output files of
//! running jobs is emptied at every start of the process.

use vstd::prelude::*;

verus! {

/// Path of the workspace directory, relative to the working directory.
pub open spec fn workspace_dir() -> Seq<char> {
    "./video"@
}

/// One operation on the workspace directory.
#[derive(Clone, Copy, Debug, PartialEq, Eq, Structural)]
pub enum WorkspaceStep {
    /// Remove the directory with all it holds.
    RemoveAll,
    /// Create the directory, empty.
    Create,
}

/// Why the workspace could not be prepared. Either is fatal: the process
/// ends before it asks for the first update.
#[derive(Clone, Copy, Debug, PartialEq, Eq, Structural)]
pub enum WorkspaceInitError {
    RemoveFailed,
    CreateFailed,
}

/// The workspace directory as the steps see it: absent, or present with a
/// set of file names.
pub enum Directory {
    Absent,
    Present { files: Set<Seq<char>> },
}

/// What a step makes of a directory. `None` where the step fails: nothing
/// can be removed that is absent, nothing created that is present.
pub open spec fn apply_step(dir: Directory, step: WorkspaceStep) -> Option<Directory> {
    match (step, dir) {
        (WorkspaceStep::RemoveAll, Directory::Present { .. }) => Some(Directory::Absent),
        (WorkspaceStep::RemoveAll, Directory::Absent) => None,
        (WorkspaceStep::Create, Directory::Absent) => Some(
            Directory::Present { files: Set::empty() },
        ),
        (WorkspaceStep::Create, Directory::Present { .. }) => None,
    }
}

/// What a list of steps makes of a directory, `None` as soon as one fails.
pub open spec fn apply_steps(dir: Directory, steps: Seq<WorkspaceStep>) -> Option<Directory>
    decreases steps.len(),
{
    if steps.len() == 0 {
        Some(dir)
    } else {
        match apply_step(dir, steps[0]) {
            Some(next) => apply_steps(next, steps.drop_first()),
            None => None,
        }
    }
}

/// The steps that prepare the workspace: what is there is removed, then the
/// directory is created.
pub open spec fn startup_steps(exists: bool) -> Seq<WorkspaceStep> {
    if exists {
        seq![WorkspaceStep::RemoveAll, WorkspaceStep::Create]
    } else {
        seq![WorkspaceStep::Create]
    }
}

/// The error that ends the start when `step` fails.
pub open spec fn failure_of(step: WorkspaceStep) -> WorkspaceInitError {
    match step {
        WorkspaceStep::RemoveAll => WorkspaceInitError::RemoveFailed,
        WorkspaceStep::Create => WorkspaceInitError::CreateFailed,
    }
}

/// What the process reports for an error before it ends.
pub open spec fn init_error_text(error: WorkspaceInitError) -> Seq<char> {
    match error {
        WorkspaceInitError::RemoveFailed => "Failed to remove video dir"@,
        WorkspaceInitError::CreateFailed => "Failed to create video dir"@,
    }
}

/// Whatever the directory held before, after the startup steps it is there
/// and empty.
pub proof fn lemma_startup_empties_workspace(dir: Directory)
    ensures
        apply_steps(dir, startup_steps(dir is Present)) == Some(
            Directory::Present { files: Set::empty() },
        ),
{
    let steps = startup_steps(dir is Present);
    reveal_with_fuel(apply_steps, 3);
    if dir is Present {
        assert(steps.drop_first() =~= seq![WorkspaceStep::Create]);
        assert(steps.drop_first().drop_first() =~= Seq::<WorkspaceStep>::empty());
    } else {
        assert(steps.drop_first() =~= Seq::<WorkspaceStep>::empty());
    }
}

/// Two starts in a row, with any files left behind by the jobs of the first
/// run, leave the workspace there and empty before the second run's first
/// job.
pub proof fn lemma_startup_is_idempotent(dir: Directory, leftovers: Set<Seq<char>>)
    ensures
        ({
            let first = apply_steps(dir, startup_steps(dir is Present));
            let used = Directory::Present { files: leftovers };
            let second = apply_steps(used, startup_steps(used is Present));
            &&& first == Some(Directory::Present { files: Set::empty() })
            &&& second == first
        }),
{
    lemma_startup_empties_workspace(dir);
    lemma_startup_empties_workspace(Directory::Present { files: leftovers });
}

/// Plans the preparation of the workspace, given whether the directory
/// exists.
pub fn create_output_dir(exists: bool) -> (steps: Vec<WorkspaceStep>)
    ensures
        steps@ == startup_steps(exists),
{
    let mut steps: Vec<WorkspaceStep> = Vec::new();
    if exists {
        steps.push(WorkspaceStep::RemoveAll);
    }
    steps.push(WorkspaceStep::Create);
    assert(steps@ =~= startup_steps(exists));
    steps
}

impl WorkspaceStep {
    /// The error that ends the start when this step fails.
    pub fn failure(&self) -> (error: WorkspaceInitError)
        ensures
            error == failure_of(*self),
    {
        match self {
            WorkspaceStep::RemoveAll => WorkspaceInitError::RemoveFailed,
            WorkspaceStep::Create => WorkspaceInitError::CreateFailed,
        }
    }
}

impl WorkspaceInitError {
    /// What the process reports before it ends.
    pub fn message(&self) -> (text: &'static str)
        ensures
            text@ == init_error_text(*self),
    {
        match self {
            WorkspaceInitError::RemoveFailed => "Failed to remove video dir",
            WorkspaceInitError::CreateFailed => "Failed to create video dir",
        }
    }
}

} // verus!
