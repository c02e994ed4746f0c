//! The steps of a save.
//!
//! Saving touches the disk several times, and each touch can fail. The job
//! decides what is done next and how a failure is reported; the caller does
//! the work: it asks for the [`SaveJob::action`], performs it, and reports
//! with [`SaveJob::advance`] whether it succeeded, until the action is
//! [`SaveAction::Finish`].

use crate::location::{Location, Place};
use crate::state::SaveError;
use vstd::prelude::*;

verus! {

/// How far a save has come.
#[derive(Clone, Copy, Debug, PartialEq, Eq)]
pub enum Stage {
    /// The directory of the file has to exist.
    EnsureDir,
    /// The file has to be created, or emptied where it exists.
    Create,
    /// The text has to be written.
    Write,
    /// The text is written; the save holds still for a while.
    Pause,
    /// Done: the state is on disk.
    Saved,
    /// Done: the save failed.
    Failed(SaveError),
}

/// What the caller has to do next.
#[derive(Debug, PartialEq, Eq)]
pub enum SaveAction<'a> {
    /// Create this directory and every missing directory above it.
    EnsureDir(&'a Location),
    /// Create this file for writing, emptying it where it exists.
    Create(&'a Location),
    /// Write the whole of this text to the file.
    Write(&'a str),
    /// Wait for this many seconds.
    Sleep(u64),
    /// Stop and hand this result to whoever asked for the save.
    Finish(Result<(), SaveError>),
}

/// A save under way.
#[derive(Debug, PartialEq, Eq)]
pub struct SaveJob {
    pub stage: Stage,
    /// The directory the file lies in.
    pub dir: Location,
    /// The file.
    pub path: Location,
    /// What the file is to hold.
    pub text: String,
    /// How long to hold still once the text is written; 0 for not at all.
    pub pause_seconds: u64,
}

/// What a [`SaveJob`] denotes.
pub struct JobView {
    pub stage: Stage,
    pub dir: Place,
    pub path: Place,
    pub text: Seq<char>,
    pub pause_seconds: u64,
}

impl View for SaveJob {
    type V = JobView;

    open spec fn view(&self) -> JobView {
        JobView {
            stage: self.stage,
            dir: self.dir@,
            path: self.path@,
            text: self.text@,
            pause_seconds: self.pause_seconds,
        }
    }
}

/// A save that has not touched the disk yet.
pub open spec fn fresh_job(dir: Place, path: Place, text: Seq<char>, pause_seconds: u64) -> JobView {
    JobView { stage: Stage::EnsureDir, dir, path, text, pause_seconds }
}

/// Whether nothing is left to do.
pub open spec fn finished(stage: Stage) -> bool {
    stage is Saved || stage is Failed
}

/// The stage after the action of `stage` succeeded (`ok`) or failed. A missing
/// directory or file is a [`SaveError::File`], an incomplete write a
/// [`SaveError::Write`]; waiting cannot fail; a finished save stays as it is.
pub open spec fn next_stage(stage: Stage, ok: bool, pause_seconds: u64) -> Stage {
    match stage {
        Stage::EnsureDir => if ok {
            Stage::Create
        } else {
            Stage::Failed(SaveError::File)
        },
        Stage::Create => if ok {
            Stage::Write
        } else {
            Stage::Failed(SaveError::File)
        },
        Stage::Write => if !ok {
            Stage::Failed(SaveError::Write)
        } else if pause_seconds > 0 {
            Stage::Pause
        } else {
            Stage::Saved
        },
        Stage::Pause => Stage::Saved,
        Stage::Saved => Stage::Saved,
        Stage::Failed(error) => Stage::Failed(error),
    }
}

/// The most actions that can still be asked for before the save is finished.
pub open spec fn steps_left(stage: Stage) -> nat {
    match stage {
        Stage::EnsureDir => 4,
        Stage::Create => 3,
        Stage::Write => 2,
        Stage::Pause => 1,
        Stage::Saved => 0,
        Stage::Failed(_) => 0,
    }
}

/// The stage reached from `stage` when the actions end as `outcomes` tell, one
/// after the other.
pub open spec fn stage_after(stage: Stage, outcomes: Seq<bool>, pause_seconds: u64) -> Stage
    decreases outcomes.len(),
{
    if outcomes.len() == 0 {
        stage
    } else {
        stage_after(
            next_stage(stage, outcomes[0], pause_seconds),
            outcomes.subrange(1, outcomes.len() as int),
            pause_seconds,
        )
    }
}

impl SaveJob {
    /// A save of `text` to the file `path` in the directory `dir`, with
    /// nothing done yet.
    pub fn new(dir: Location, path: Location, text: String, pause_seconds: u64) -> (job: SaveJob)
        ensures
            job@ == fresh_job(dir@, path@, text@, pause_seconds),
    {
        SaveJob { stage: Stage::EnsureDir, dir, path, text, pause_seconds }
    }

    /// What has to be done now.
    pub fn action(&self) -> (r: SaveAction<'_>)
        ensures
            match self.stage {
                Stage::EnsureDir => r matches SaveAction::EnsureDir(dir) && dir@ == self.dir@,
                Stage::Create => r matches SaveAction::Create(path) && path@ == self.path@,
                Stage::Write => r matches SaveAction::Write(text) && text@ == self.text@,
                Stage::Pause => r == SaveAction::Sleep(self.pause_seconds),
                Stage::Saved => r == SaveAction::Finish(Ok(())),
                Stage::Failed(error) => r == SaveAction::Finish(Err(error)),
            },
    {
        match self.stage {
            Stage::EnsureDir => SaveAction::EnsureDir(&self.dir),
            Stage::Create => SaveAction::Create(&self.path),
            Stage::Write => SaveAction::Write(self.text.as_str()),
            Stage::Pause => SaveAction::Sleep(self.pause_seconds),
            Stage::Saved => SaveAction::Finish(Ok(())),
            Stage::Failed(error) => SaveAction::Finish(Err(error)),
        }
    }

    /// Takes note of how the current action ended and moves on.
    pub fn advance(&mut self, ok: bool)
        ensures
            final(self)@ == (JobView {
                stage: next_stage(old(self).stage, ok, old(self).pause_seconds),
                ..old(self)@
            }),
    {
        let next = match self.stage {
            Stage::EnsureDir => if ok {
                Stage::Create
            } else {
                Stage::Failed(SaveError::File)
            },
            Stage::Create => if ok {
                Stage::Write
            } else {
                Stage::Failed(SaveError::File)
            },
            Stage::Write => if !ok {
                Stage::Failed(SaveError::Write)
            } else if self.pause_seconds > 0 {
                Stage::Pause
            } else {
                Stage::Saved
            },
            Stage::Pause => Stage::Saved,
            Stage::Saved => Stage::Saved,
            Stage::Failed(error) => Stage::Failed(error),
        };
        self.stage = next;
    }

    /// Whether nothing is left to do.
    pub fn is_finished(&self) -> (r: bool)
        ensures
            r == finished(self.stage),
    {
        match self.stage {
            Stage::Saved => true,
            Stage::Failed(_) => true,
            _ => false,
        }
    }
}

/// Every action brings the end nearer, and a finished save stays finished: a
/// caller that performs action after action is done after four at most.
pub proof fn save_comes_to_an_end(stage: Stage, ok: bool, pause_seconds: u64)
    ensures
        !finished(stage) ==> steps_left(next_stage(stage, ok, pause_seconds)) < steps_left(stage),
        finished(stage) ==> next_stage(stage, ok, pause_seconds) == stage,
        steps_left(stage) == 0 <==> finished(stage),
{
}

/// Whatever the outcomes, four actions finish a save.
pub proof fn four_actions_finish(outcomes: Seq<bool>, pause_seconds: u64)
    requires
        outcomes.len() >= 4,
    ensures
        finished(stage_after(Stage::EnsureDir, outcomes, pause_seconds)),
{
    steps_run_down(Stage::EnsureDir, outcomes, pause_seconds);
}

/// A save in which nothing fails ends as saved.
pub proof fn unfailing_save_succeeds(outcomes: Seq<bool>, pause_seconds: u64)
    requires
        outcomes.len() >= 4,
        forall|i: int| 0 <= i < outcomes.len() ==> outcomes[i],
    ensures
        stage_after(Stage::EnsureDir, outcomes, pause_seconds) == Stage::Saved,
{
    unfailing_steps_succeed(Stage::EnsureDir, outcomes, pause_seconds);
}

/// The first failure decides the result: a save whose first failing action is
/// the one of `stage` ends with the error of that stage.
pub proof fn first_failure_decides(stage: Stage, outcomes: Seq<bool>, pause_seconds: u64)
    requires
        outcomes.len() >= 1,
        !outcomes[0],
        stage is EnsureDir || stage is Create || stage is Write,
    ensures
        stage_after(stage, outcomes, pause_seconds) == Stage::Failed(
            if stage is Write {
                SaveError::Write
            } else {
                SaveError::File
            },
        ),
{
    stays_finished(
        next_stage(stage, false, pause_seconds),
        outcomes.subrange(1, outcomes.len() as int),
        pause_seconds,
    );
}

proof fn stays_finished(stage: Stage, outcomes: Seq<bool>, pause_seconds: u64)
    requires
        finished(stage),
    ensures
        stage_after(stage, outcomes, pause_seconds) == stage,
    decreases outcomes.len(),
{
    if outcomes.len() > 0 {
        stays_finished(stage, outcomes.subrange(1, outcomes.len() as int), pause_seconds);
    }
}

proof fn unfailing_steps_succeed(stage: Stage, outcomes: Seq<bool>, pause_seconds: u64)
    requires
        outcomes.len() >= steps_left(stage),
        forall|i: int| 0 <= i < outcomes.len() ==> outcomes[i],
        !(stage is Failed),
    ensures
        stage_after(stage, outcomes, pause_seconds) == Stage::Saved,
    decreases outcomes.len(),
{
    if outcomes.len() > 0 {
        let rest = outcomes.subrange(1, outcomes.len() as int);
        assert forall|i: int| 0 <= i < rest.len() implies rest[i] by {
            assert(rest[i] == outcomes[i + 1]);
        }
        unfailing_steps_succeed(next_stage(stage, true, pause_seconds), rest, pause_seconds);
    }
}

proof fn steps_run_down(stage: Stage, outcomes: Seq<bool>, pause_seconds: u64)
    requires
        outcomes.len() >= steps_left(stage),
    ensures
        finished(stage_after(stage, outcomes, pause_seconds)),
    decreases outcomes.len(),
{
    if outcomes.len() > 0 {
        steps_run_down(
            next_stage(stage, outcomes[0], pause_seconds),
            outcomes.subrange(1, outcomes.len() as int),
            pause_seconds,
        );
    }
}

} // verus!
