//! Events that the installation engine sends to the progress screen.
use vstd::prelude::*;

verus! {

#[derive(Clone, Copy, Debug, PartialEq, Eq, Structural)]
pub enum StepStatus {
    Pending,
    Running,
    Done,
    Skipped,
    Failed,
}

/// The denominator of a progress value: `PROGRESS_SCALE` stands for a finished
/// installation, 0 for one that has not started.
pub const PROGRESS_SCALE: u32 = 10000;

#[derive(Debug)]
pub enum InstallerEvent {
    Log(String),
    /// Overall progress, in units of one `PROGRESS_SCALE`-th.
    Progress(u32),
    Step { index: usize, status: StepStatus, err: Option<String> },
    Done(Option<String>),
}

pub open spec fn opt_text(o: Option<String>) -> Option<Seq<char>> {
    match o {
        Some(s) => Some(s@),
        None => None,
    }
}

pub fn copy_opt_text(o: &Option<String>) -> (r: Option<String>)
    ensures
        opt_text(r) == opt_text(*o),
{
    match o {
        Some(s) => Some(s.clone()),
        None => None,
    }
}

} // verus!
