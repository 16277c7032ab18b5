//! What the command line asks of a run, and the decisions that follow
//! from it.
use vstd::prelude::*;

use crate::stats::Stats;

verus! {

/// Stores the configurations acquired via the command line
#[derive(Clone, Debug, PartialEq, Eq, PartialOrd, Ord, Default)]
pub struct Cli {
    /// The root folder to start at
    pub root_path: String,
    /// If set will not prompt for confirmation before running
    pub unattended: bool,
    /// If set will not modify any files and only report how many files
    /// would have been changed
    pub should_check_only: bool,
    /// Allows changes to be made even if there are dirty files in the
    /// version control system
    pub allow_dirty: bool,
}

/// How a finished run ends.
#[derive(Clone, Copy, Debug, PartialEq, Eq, Structural)]
pub enum RunOutcome {
    /// No page failed, and nothing is left to report.
    Success,
    /// A check-only run found this many pages that would change.
    WouldChange(u16),
    /// This many pages failed.
    Failed(u16),
}

impl Cli {
    /// Whether the version control may hold uncommitted changes: a run that
    /// writes nothing cannot lose them, and the user may opt in.
    pub fn allows_dirty_files(&self) -> (r: bool)
        ensures
            r == (self.should_check_only || self.allow_dirty),
    {
        self.should_check_only || self.allow_dirty
    }

    /// Whether to ask the user before touching any file.
    pub fn needs_confirmation(&self) -> (r: bool)
        ensures
            r == (!self.should_check_only && !self.unattended),
    {
        !self.should_check_only && !self.unattended
    }

    /// Whether changed pages are written back.
    pub fn writes_files(&self) -> (r: bool)
        ensures
            r == !self.should_check_only,
    {
        !self.should_check_only
    }

    /// How the run ends, given its counters: failed pages fail the run;
    /// otherwise a check-only run reports the pages it would change.
    pub fn run_outcome(&self, stats: &Stats) -> (r: RunOutcome)
        ensures
            stats@.3 > 0 ==> r == RunOutcome::Failed(stats@.3),
            stats@.3 == 0 && self.should_check_only && stats@.0 > 0 ==> r == RunOutcome::WouldChange(
                stats@.0,
            ),
            stats@.3 == 0 && !(self.should_check_only && stats@.0 > 0) ==> r == RunOutcome::Success,
    {
        if stats.errors() > 0 {
            RunOutcome::Failed(stats.errors())
        } else if self.should_check_only && stats.changed() > 0 {
            RunOutcome::WouldChange(stats.changed())
        } else {
            RunOutcome::Success
        }
    }
}

} // verus!
