//! Staging: whether a scratch directory is to be made before the batch.

use vstd::prelude::*;
use crate::error::{ProcessError, ProcessErrorView};
use crate::process::Process;

verus! {

/// The scratch directory that stands for "none": a run configured with it
/// stages nothing.
pub open spec fn no_staging() -> Seq<char> {
    "default"@
}

/// What staging asks of the file system.
#[derive(Debug, PartialEq, Eq)]
pub enum StagePlan {
    /// Nothing: no scratch directory was asked for.
    Skip,
    /// Make the directory named here, with the parents it lacks. A directory
    /// that is already there is left as it is.
    CreateDir(String),
}

impl Process {
    /// What staging has to do: nothing for a run without a scratch
    /// directory, and otherwise make that directory. Whether results may be
    /// written over plays no part.
    pub fn stage_tmp(&self) -> (plan: StagePlan)
        ensures
            self@.tmp_dir == no_staging() ==> plan is Skip,
            self@.tmp_dir != no_staging() ==> (plan matches StagePlan::CreateDir(dir) && dir@
                == self@.tmp_dir),
    {
        proof {
            self.lemma_view();
        }
        let none = String::from_str("default");
        if self.tmp_dir == none {
            StagePlan::Skip
        } else {
            StagePlan::CreateDir(self.tmp_dir.clone())
        }
    }
}

/// What a run makes of the attempt to create the scratch directory: it goes
/// on when the directory is there, and fails with the file system's message
/// when it could not be made.
pub fn staged(created: Result<(), String>) -> (r: Result<(), ProcessError>)
    ensures
        created is Ok ==> r is Ok,
        created matches Err(message) ==> (r matches Err(e) && e@ == ProcessErrorView::IoError(
            message@,
        )),
{
    match created {
        Ok(()) => Ok(()),
        Err(message) => Err(ProcessError::IoError(message)),
    }
}

} // verus!
