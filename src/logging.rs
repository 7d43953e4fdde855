//! The bounded on-screen log, and how the progress screen takes in the
//! events of the installation engine.
use std::collections::VecDeque;
use vstd::prelude::*;
use crate::events::{copy_opt_text, opt_text, InstallerEvent, StepStatus};
use crate::model::{step_view, text_lines, App, Step, LOG_CAPACITY};

verus! {

/// Where the log of a run is mirrored.
pub const LOG_FILE_PATH: &'static str = "/tmp/kwimy-installer.log";

/// A file on the target system whose presence after a successful run means
/// that some optional packages could not be installed.
pub const FAILED_PACKAGES_MARKER: &'static str = "/mnt/var/log/kwimy-failed-packages.txt";

/// The advice shown when the failed-packages marker is present.
pub const FAILED_PACKAGES_ADVICE: &'static str =
    "Optional packages failed. See /var/log/kwimy-failed-packages.txt on the installed system.";

/// The log after `line` is added: the oldest line leaves once the log is full.
pub open spec fn ring_push<T>(logs: Seq<T>, line: T) -> Seq<T> {
    if logs.len() >= LOG_CAPACITY {
        logs.drop_first().push(line)
    } else {
        logs.push(line)
    }
}

/// The log after each of `lines` is added in turn.
pub open spec fn ring_push_all(logs: Seq<String>, lines: Seq<String>) -> Seq<String>
    decreases lines.len(),
{
    if lines.len() == 0 {
        logs
    } else {
        ring_push_all(ring_push(logs, lines[0]), lines.drop_first())
    }
}

/// The last `k` items of `s` (all of them where it has fewer).
pub open spec fn last_items<T>(s: Seq<T>, k: nat) -> Seq<T> {
    if s.len() <= k {
        s
    } else {
        s.subrange(s.len() - k, s.len() as int)
    }
}

pub fn push_log(logs: &mut VecDeque<String>, line: String)
    ensures
        final(logs)@ == ring_push(old(logs)@, line),
{
    if logs.len() >= LOG_CAPACITY {
        logs.pop_front();
    }
    logs.push_back(line);
}

/// Adding a line to a full log drops exactly the oldest line and keeps the
/// order of the others; the log never grows past its capacity.
pub proof fn lemma_log_evicts_oldest(logs: Seq<String>, line: String)
    requires
        logs.len() <= LOG_CAPACITY,
    ensures
        ring_push(logs, line).len() <= LOG_CAPACITY,
        ring_push(logs, line).last() == line,
        logs.len() == LOG_CAPACITY ==> ring_push(logs, line) == logs.subrange(
            1,
            LOG_CAPACITY as int,
        ).push(line),
        logs.len() < LOG_CAPACITY ==> ring_push(logs, line) == logs.push(line),
{
    if logs.len() == LOG_CAPACITY {
        assert(logs.drop_first() =~= logs.subrange(1, LOG_CAPACITY as int));
    }
}

proof fn lemma_ring_push_text(logs: Seq<String>, line: String)
    ensures
        text_lines(ring_push(logs, line)) == ring_push(text_lines(logs), line@),
{
    assert(text_lines(ring_push(logs, line)) =~= ring_push(text_lines(logs), line@));
}

/// Whatever lines are added, starting from a log within its capacity, the log
/// holds exactly the latest of all lines, at most its capacity of them, in the
/// order in which they came.
pub proof fn lemma_log_keeps_latest(logs: Seq<String>, lines: Seq<String>)
    requires
        logs.len() <= LOG_CAPACITY,
    ensures
        ring_push_all(logs, lines) == last_items(logs + lines, LOG_CAPACITY as nat),
        ring_push_all(logs, lines).len() <= LOG_CAPACITY,
    decreases lines.len(),
{
    if lines.len() == 0 {
        assert(logs + lines =~= logs);
    } else {
        let next = ring_push(logs, lines[0]);
        assert(next == last_items(logs.push(lines[0]), LOG_CAPACITY as nat)) by {
            if logs.len() >= LOG_CAPACITY {
                assert(logs.drop_first().push(lines[0]) =~= logs.push(lines[0]).subrange(
                    1,
                    logs.len() + 1 as int,
                ));
            }
        }
        lemma_log_keeps_latest(next, lines.drop_first());
        assert(logs + lines =~= logs.push(lines[0]) + lines.drop_first());
        lemma_last_items_concat(logs.push(lines[0]), lines.drop_first(), LOG_CAPACITY as nat);
    }
}

proof fn lemma_last_items_concat<T>(a: Seq<T>, b: Seq<T>, k: nat)
    ensures
        last_items(last_items(a, k) + b, k) == last_items(a + b, k),
{
    assert(last_items(last_items(a, k) + b, k) =~= last_items(a + b, k));
}

pub open spec fn status_label(s: StepStatus) -> Seq<char> {
    match s {
        StepStatus::Pending => "PENDING"@,
        StepStatus::Running => "RUNNING"@,
        StepStatus::Done => "OK"@,
        StepStatus::Skipped => "SKIP"@,
        StepStatus::Failed => "FAIL"@,
    }
}

pub fn status_label_str(s: StepStatus) -> (r: &'static str)
    ensures
        r@ == status_label(s),
{
    match s {
        StepStatus::Pending => "PENDING",
        StepStatus::Running => "RUNNING",
        StepStatus::Done => "OK",
        StepStatus::Skipped => "SKIP",
        StepStatus::Failed => "FAIL",
    }
}

fn joined(a: &str, b: &str) -> (r: String)
    ensures
        r@ == a@ + b@,
{
    let mut out = String::from_str(a);
    out.append(b);
    out
}

/// The lines that a step-status event mirrors to the log file.
pub open spec fn step_lines(name: Seq<char>, status: StepStatus, err: Option<Seq<char>>) -> Seq<
    Seq<char>,
> {
    let head = seq!["STEP "@ + name + ": "@ + status_label(status)];
    match err {
        Some(e) => head.push("ERROR: "@ + e),
        None => head,
    }
}

/// The lines that the final event mirrors to the log file.
pub open spec fn done_lines(err: Option<Seq<char>>, marker_present: bool) -> Seq<Seq<char>> {
    match err {
        Some(e) => seq!["DONE: "@ + e],
        None => if marker_present {
            seq!["DONE: ok"@, FAILED_PACKAGES_ADVICE@]
        } else {
            seq!["DONE: ok"@]
        },
    }
}

impl App {
    /// A fresh progress screen: every step pending, nothing done, and the log
    /// opened with a greeting and, where the log file could be opened, its path.
    pub fn new(step_names: &Vec<String>, log_file_open: bool) -> (r: App)
        ensures
            r.wf(),
            r.steps@.len() == step_names@.len(),
            forall|i: int|
                0 <= i < step_names@.len() ==> #[trigger] r.steps_view()[i] == (
                    step_names@[i]@,
                    StepStatus::Pending,
                    None::<Seq<char>>,
                ),
            r.progress == 0,
            r.spinner_idx == 0,
            !r.done,
            r.err is None,
            r.logs_view() == if log_file_open {
                seq!["Starting kwimy installer..."@, "Logging to "@ + LOG_FILE_PATH@]
            } else {
                seq!["Starting kwimy installer..."@]
            },
    {
        let mut steps: Vec<Step> = Vec::new();
        let mut i: usize = 0;
        while i < step_names.len()
            invariant
                i <= step_names@.len(),
                steps@.len() == i,
                forall|j: int|
                    0 <= j < i ==> step_view(#[trigger] steps@[j]) == (
                        step_names@[j]@,
                        StepStatus::Pending,
                        None::<Seq<char>>,
                    ),
            decreases step_names@.len() - i,
        {
            steps.push(Step { name: step_names[i].clone(), status: StepStatus::Pending, err: None });
            i = i + 1;
        }
        let mut logs: VecDeque<String> = VecDeque::new();
        logs.push_back(String::from_str("Starting kwimy installer..."));
        if log_file_open {
            push_log(&mut logs, joined("Logging to ", LOG_FILE_PATH));
        }
        let app = App { steps, progress: 0, logs, spinner_idx: 0, done: false, err: None };
        assert(app.logs_view() =~= if log_file_open {
            seq!["Starting kwimy installer..."@, "Logging to "@ + LOG_FILE_PATH@]
        } else {
            seq!["Starting kwimy installer..."@]
        });
        app
    }
}

/// Takes in one event of the installation engine and returns the lines to
/// mirror to the log file, in order.
pub fn handle_event(app: &mut App, evt: InstallerEvent, marker_present: bool) -> (sink: Vec<String>)
    requires
        old(app).wf(),
    ensures
        final(app).wf(),
        final(app).spinner_idx == old(app).spinner_idx,
        match evt {
            InstallerEvent::Log(line) => {
                &&& final(app).logs@ == ring_push(old(app).logs@, line)
                &&& text_lines(sink@) == seq![line@]
                &&& final(app).steps_view() == old(app).steps_view()
                &&& final(app).progress == old(app).progress
                &&& final(app).done == old(app).done
                &&& final(app).err == old(app).err
            },
            InstallerEvent::Progress(value) => {
                &&& final(app).progress == value
                &&& sink@.len() == 0
                &&& final(app).logs@ == old(app).logs@
                &&& final(app).steps_view() == old(app).steps_view()
                &&& final(app).done == old(app).done
                &&& final(app).err == old(app).err
            },
            InstallerEvent::Step { index, status, err } => {
                &&& index < old(app).steps@.len() ==> {
                    &&& final(app).steps_view() == old(app).steps_view().update(
                        index as int,
                        (old(app).steps_view()[index as int].0, status, opt_text(err)),
                    )
                    &&& text_lines(sink@) == step_lines(
                        old(app).steps_view()[index as int].0,
                        status,
                        opt_text(err),
                    )
                }
                &&& index >= old(app).steps@.len() ==> {
                    &&& final(app).steps_view() == old(app).steps_view()
                    &&& sink@.len() == 0
                }
                &&& final(app).logs@ == old(app).logs@
                &&& final(app).progress == old(app).progress
                &&& final(app).done == old(app).done
                &&& final(app).err == old(app).err
            },
            InstallerEvent::Done(err) => {
                &&& final(app).done
                &&& opt_text(final(app).err) == opt_text(err)
                &&& text_lines(sink@) == done_lines(opt_text(err), marker_present)
                &&& final(app).logs_view() == if err is None && marker_present {
                    ring_push(old(app).logs_view(), FAILED_PACKAGES_ADVICE@)
                } else {
                    old(app).logs_view()
                }
                &&& final(app).steps_view() == old(app).steps_view()
                &&& final(app).progress == old(app).progress
            },
        },
{
    let mut sink: Vec<String> = Vec::new();
    match evt {
        InstallerEvent::Log(line) => {
            sink.push(line.clone());
            proof {
                lemma_log_evicts_oldest(app.logs@, line);
            }
            push_log(&mut app.logs, line);
            assert(text_lines(sink@) =~= seq![line@]);
        },
        InstallerEvent::Progress(value) => {
            app.progress = value;
        },
        InstallerEvent::Step { index, status, err } => {
            if index < app.steps.len() {
                let name = app.steps[index].name.clone();
                let mut head = joined("STEP ", name.as_str());
                head.append(": ");
                head.append(status_label_str(status));
                sink.push(head);
                match &err {
                    Some(e) => {
                        sink.push(joined("ERROR: ", e.as_str()));
                    },
                    None => {},
                }
                let ghost before = app.steps_view();
                app.steps.set(index, Step { name, status, err: copy_opt_text(&err) });
                assert(app.steps_view() =~= before.update(
                    index as int,
                    (before[index as int].0, status, opt_text(err)),
                ));
                assert(text_lines(sink@) =~= step_lines(before[index as int].0, status, opt_text(err)));
            }
        },
        InstallerEvent::Done(err) => {
            app.done = true;
            app.err = copy_opt_text(&err);
            match &err {
                Some(e) => {
                    sink.push(joined("DONE: ", e.as_str()));
                },
                None => {
                    sink.push(String::from_str("DONE: ok"));
                    if marker_present {
                        let advice = String::from_str(FAILED_PACKAGES_ADVICE);
                        proof {
                            lemma_log_evicts_oldest(app.logs@, advice);
                            lemma_ring_push_text(app.logs@, advice);
                        }
                        push_log(&mut app.logs, advice);
                        sink.push(String::from_str(FAILED_PACKAGES_ADVICE));
                    }
                },
            }
            assert(text_lines(sink@) =~= done_lines(opt_text(err), marker_present));
        },
    }
    sink
}

} // verus!
