//! State of the installation progress screen.
use std::collections::VecDeque;
use vstd::prelude::*;
use crate::events::{opt_text, StepStatus};

verus! {

/// The most lines the on-screen log keeps.
pub const LOG_CAPACITY: usize = 200;

/// One installation step, as shown on the progress screen.
#[derive(Debug)]
pub struct Step {
    pub name: String,
    pub status: StepStatus,
    pub err: Option<String>,
}

/// What the progress screen knows of a running installation.
#[derive(Debug)]
pub struct App {
    pub steps: Vec<Step>,
    /// Overall progress, in units of one `PROGRESS_SCALE`-th.
    pub progress: u32,
    pub logs: VecDeque<String>,
    pub spinner_idx: usize,
    pub done: bool,
    pub err: Option<String>,
}

pub open spec fn step_view(s: Step) -> (Seq<char>, StepStatus, Option<Seq<char>>) {
    (s.name@, s.status, opt_text(s.err))
}

pub open spec fn text_lines(v: Seq<String>) -> Seq<Seq<char>> {
    v.map_values(|s: String| s@)
}

impl App {
    pub open spec fn steps_view(&self) -> Seq<(Seq<char>, StepStatus, Option<Seq<char>>)> {
        self.steps@.map_values(|s: Step| step_view(s))
    }

    pub open spec fn logs_view(&self) -> Seq<Seq<char>> {
        text_lines(self.logs@)
    }

    /// The log never holds more than its capacity.
    pub open spec fn wf(&self) -> bool {
        self.logs@.len() <= LOG_CAPACITY
    }
}

} // verus!
