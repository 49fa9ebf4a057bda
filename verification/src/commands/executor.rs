use crate::commands::tidy::{ReportView, TidyOptions, TidyReport};
use vstd::prelude::*;
use vstd::string::*;

verus! {

/// One change that applying a report makes to the file system.
#[derive(Debug, Clone)]
pub enum Step {
    /// Create the directory, and what is missing above it; nothing to do if
    /// it is there.
    EnsureDir { path: String },
    /// Rename `from` to `to`.
    Move { from: String, to: String },
    /// Remove what is at `path`: a directory with all below it, a file alone.
    Delete { path: String },
}

/// A `Step` as contracts see it.
pub enum StepView {
    EnsureDir { path: Seq<char> },
    Move { from: Seq<char>, to: Seq<char> },
    Delete { path: Seq<char> },
}

impl View for Step {
    type V = StepView;

    open spec fn view(&self) -> StepView {
        match *self {
            Step::EnsureDir { path } => StepView::EnsureDir { path: path@ },
            Step::Move { from, to } => StepView::Move { from: from@, to: to@ },
            Step::Delete { path } => StepView::Delete { path: path@ },
        }
    }
}

/// The views of a list of steps, in order.
pub open spec fn step_views(steps: Seq<Step>) -> Seq<StepView> {
    Seq::new(steps.len(), |i: int| steps[i]@)
}

/// The moves of a report as steps, in the report's order.
pub open spec fn move_steps(moves: Seq<(Seq<char>, Seq<char>)>) -> Seq<StepView> {
    Seq::new(moves.len(), |i: int| StepView::Move { from: moves[i].0, to: moves[i].1 })
}

/// The deletions of a report as steps, in the report's order.
pub open spec fn delete_steps(paths: Seq<Seq<char>>) -> Seq<StepView> {
    Seq::new(paths.len(), |i: int| StepView::Delete { path: paths[i] })
}

/// What applying a report does, in order: if anything moves, the destination
/// is ensured first; then come all moves, then all deletions. Without
/// `apply` nothing is done.
pub open spec fn steps_spec(apply: bool, dest: Seq<char>, report: ReportView) -> Seq<StepView> {
    if !apply {
        Seq::empty()
    } else if report.planned_moves.len() > 0 {
        seq![StepView::EnsureDir { path: dest }] + move_steps(report.planned_moves) + delete_steps(
            report.planned_downloads_deletions,
        )
    } else {
        delete_steps(report.planned_downloads_deletions)
    }
}

/// Lists the steps that carry out `report`, in the order in which they are to
/// be taken. The caller takes them one by one and stops at the first that
/// fails; what was done before stays done.
pub fn execution_steps(options: &TidyOptions, report: &TidyReport) -> (steps: Vec<Step>)
    ensures
        step_views(steps@) == steps_spec(options.apply, options.screenshots_dest@, report@),
{
    let mut steps: Vec<Step> = Vec::new();
    if !options.apply {
        return steps;
    }
    let ghost first: Seq<StepView> = Seq::empty();
    if report.planned_moves.len() > 0 {
        steps.push(Step::EnsureDir { path: options.screenshots_dest.clone() });
        proof {
            first = seq![StepView::EnsureDir { path: options.screenshots_dest@ }];
        }
    }
    let mut i: usize = 0;
    while i < report.planned_moves.len()
        invariant
            i <= report.planned_moves.len(),
            step_views(steps@) =~= first + move_steps(report@.planned_moves.take(i as int)),
        decreases report.planned_moves.len() - i,
    {
        let pair = &report.planned_moves[i];
        let ghost before = step_views(steps@);
        let ghost next = report@.planned_moves[i as int];
        steps.push(Step::Move { from: pair.0.clone(), to: pair.1.clone() });
        proof {
            let step = StepView::Move { from: next.0, to: next.1 };
            assert(step_views(steps@) =~= before.push(step));
        }
        i += 1;
    }
    let ghost moved = step_views(steps@);
    let mut k: usize = 0;
    while k < report.planned_downloads_deletions.len()
        invariant
            k <= report.planned_downloads_deletions.len(),
            step_views(steps@) =~= moved + delete_steps(
                report@.planned_downloads_deletions.take(k as int),
            ),
        decreases report.planned_downloads_deletions.len() - k,
    {
        let ghost before = step_views(steps@);
        let ghost next = report@.planned_downloads_deletions[k as int];
        steps.push(Step::Delete { path: report.planned_downloads_deletions[k].clone() });
        proof {
            let step = StepView::Delete { path: next };
            assert(step_views(steps@) =~= before.push(step));
        }
        k += 1;
    }
    steps
}

/// What is reported when a step fails: the action and the path it was taken
/// on. A deletion is named by what was to be removed, a directory or a file.
pub open spec fn failure_spec(step: StepView, target_is_directory: bool) -> Seq<char> {
    match step {
        StepView::EnsureDir { path } => "failed to create screenshots destination: "@ + path,
        StepView::Move { from, to } => "failed to move screenshot "@ + from + " -> "@ + to,
        StepView::Delete { path } => if target_is_directory {
            "failed to delete dir: "@ + path
        } else {
            "failed to delete file: "@ + path
        },
    }
}

/// Words the failure of `step`.
pub fn failure_message(step: &Step, target_is_directory: bool) -> (r: String)
    ensures
        r@ == failure_spec(step@, target_is_directory),
{
    match step {
        Step::EnsureDir { path } => {
            let mut out = String::from_str("failed to create screenshots destination: ");
            out.append(path.as_str());
            out
        },
        Step::Move { from, to } => {
            let mut out = String::from_str("failed to move screenshot ");
            out.append(from.as_str());
            out.append(" -> ");
            out.append(to.as_str());
            out
        },
        Step::Delete { path } => {
            let mut out = if target_is_directory {
                String::from_str("failed to delete dir: ")
            } else {
                String::from_str("failed to delete file: ")
            };
            out.append(path.as_str());
            out
        },
    }
}

/// How a step that was taken ended.
#[derive(Debug, Clone, Copy)]
pub enum Outcome {
    Done,
    /// The step failed. For a deletion, `target_is_directory` tells what was
    /// to be removed.
    Failed { target_is_directory: bool },
}

/// How far the steps of a report have been carried out.
#[derive(Debug)]
pub enum Progress {
    /// The step at `index` is to be taken next; all before it are done.
    Take { index: usize },
    /// Every step is done.
    Finished,
    /// The step at `index` failed. The steps before it stay done, and none
    /// after it is taken.
    Failed { index: usize, message: String },
}

/// A `Progress` as contracts see it.
pub enum ProgressView {
    Take { index: nat },
    Finished,
    Failed { index: nat, message: Seq<char> },
}

impl View for Progress {
    type V = ProgressView;

    open spec fn view(&self) -> ProgressView {
        match *self {
            Progress::Take { index } => ProgressView::Take { index: index as nat },
            Progress::Finished => ProgressView::Finished,
            Progress::Failed { index, message } => ProgressView::Failed {
                index: index as nat,
                message: message@,
            },
        }
    }
}

/// Where carrying out `steps` stands when the first `done` of them are done:
/// at the next step, or at the end.
pub open spec fn position_spec(steps: Seq<StepView>, done: nat) -> ProgressView {
    if done < steps.len() {
        ProgressView::Take { index: done }
    } else {
        ProgressView::Finished
    }
}

/// What follows the step at `index`, given how it ended: after success the
/// next step or the end, after a failure nothing but the report of it.
pub open spec fn advance_spec(
    steps: Seq<StepView>,
    index: nat,
    failed: Option<bool>,
) -> ProgressView {
    if index >= steps.len() {
        ProgressView::Finished
    } else {
        match failed {
            None => position_spec(steps, index + 1),
            Some(target_is_directory) => ProgressView::Failed {
                index,
                message: failure_spec(steps[index as int], target_is_directory),
            },
        }
    }
}

/// Where carrying out `steps` begins.
pub fn start(steps: &Vec<Step>) -> (r: Progress)
    ensures
        r@ == position_spec(step_views(steps@), 0),
{
    if steps.len() > 0 {
        Progress::Take { index: 0 }
    } else {
        Progress::Finished
    }
}

/// Decides what follows the step at `index` once it has been taken. A step
/// that failed ends the run: its position tells how many steps were done
/// before it.
pub fn advance(steps: &Vec<Step>, index: usize, outcome: Outcome) -> (r: Progress)
    ensures
        r@ == advance_spec(
            step_views(steps@),
            index as nat,
            match outcome {
                Outcome::Done => None,
                Outcome::Failed { target_is_directory } => Some(target_is_directory),
            },
        ),
{
    if index >= steps.len() {
        return Progress::Finished;
    }
    match outcome {
        Outcome::Done => {
            if index + 1 < steps.len() {
                Progress::Take { index: index + 1 }
            } else {
                Progress::Finished
            }
        },
        Outcome::Failed { target_is_directory } => Progress::Failed {
            index,
            message: failure_message(&steps[index], target_is_directory),
        },
    }
}

/// What is reported when a directory cannot be listed.
pub fn scan_failure_message(dir: &str) -> (r: String)
    ensures
        r@ == "failed to read directory: "@ + dir@,
{
    let mut out = String::from_str("failed to read directory: ");
    out.append(dir);
    out
}

} // verus!
