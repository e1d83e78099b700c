//! State of the analysis progress screen: the pipeline stages, their
//! sub-tasks, and the counters shown in the status bar.
use vstd::prelude::*;
use std::time::{Duration, Instant};
use crate::results_app::{instant_elapsed, instant_now};
use crate::text::push_str;

verus! {

/// Visual status of a pipeline stage.
#[derive(Debug, Clone, Copy, PartialEq, Eq, Structural)]
pub enum StageStatus {
    /// Stage has not started yet.
    Pending,
    /// Stage is currently executing.
    Active,
    /// Stage has completed successfully.
    Completed,
}

/// A sub-task within a pipeline stage.
#[derive(Debug)]
pub struct SubTask {
    /// Name of the sub-task.
    pub name: String,
    /// Current status.
    pub status: StageStatus,
    /// Progress information (current, total).
    pub progress: Option<(usize, usize)>,
}

/// A pipeline stage in the analysis process.
#[derive(Debug)]
pub struct PipelineStage {
    /// Display name of the stage.
    pub name: String,
    /// Current status.
    pub status: StageStatus,
    /// Summary metric (e.g. "469 files").
    pub metric: Option<String>,
    /// Time taken to complete (if completed).
    pub elapsed: Option<Duration>,
    /// Sub-tasks within this stage.
    pub sub_tasks: Vec<SubTask>,
}

/// A string holding `s`.
fn owned(s: &str) -> (r: String)
    ensures
        r@ == s@,
{
    let mut r = String::new();
    push_str(&mut r, s);
    r
}

impl SubTask {
    /// A pending sub-task without progress.
    pub fn pending(name: &str) -> (r: Self)
        ensures
            r.name@ == name@,
            r.status == StageStatus::Pending,
            r.progress is None,
    {
        SubTask { name: owned(name), status: StageStatus::Pending, progress: None }
    }
}

impl PipelineStage {
    /// Create a new pending stage.
    pub fn new(name: &str) -> (r: Self)
        ensures
            r.name@ == name@,
            r.status == StageStatus::Pending,
            r.metric is None,
            r.elapsed is None,
            r.sub_tasks@.len() == 0,
    {
        PipelineStage {
            name: owned(name),
            status: StageStatus::Pending,
            metric: None,
            elapsed: None,
            sub_tasks: Vec::new(),
        }
    }

    /// Create a pending stage with sub-tasks.
    pub fn with_subtasks(name: &str, subtasks: Vec<SubTask>) -> (r: Self)
        ensures
            r.name@ == name@,
            r.status == StageStatus::Pending,
            r.metric is None,
            r.elapsed is None,
            r.sub_tasks@ == subtasks@,
    {
        PipelineStage {
            name: owned(name),
            status: StageStatus::Pending,
            metric: None,
            elapsed: None,
            sub_tasks: subtasks,
        }
    }
}

/// Names of the standard pipeline's stages, in order.
pub open spec fn stage_names() -> Seq<Seq<char>> {
    seq![
        "files"@,
        "parse"@,
        "call graph"@,
        "coverage"@,
        "purity analysis"@,
        "context"@,
        "debt scoring"@,
        "prioritization"@,
    ]
}

/// Names of the sub-tasks of stage `i` of the standard pipeline.
pub open spec fn subtask_names(i: int) -> Seq<Seq<char>> {
    if i == 4 {
        seq!["data flow graph"@, "initial detection"@, "propagation"@, "side effects"@]
    } else if i == 5 {
        seq!["critical path"@, "dependencies"@, "git history"@]
    } else if i == 6 {
        seq!["initialize"@, "aggregate debt"@, "score functions"@, "filter results"@]
    } else {
        Seq::empty()
    }
}

/// Whether `stage` is a pending stage named `name` with pending sub-tasks
/// named `subtasks`, and nothing measured yet.
pub open spec fn fresh_stage(stage: PipelineStage, name: Seq<char>, subtasks: Seq<Seq<char>>) -> bool {
    &&& stage.name@ == name
    &&& stage.status == StageStatus::Pending
    &&& stage.metric is None
    &&& stage.elapsed is None
    &&& stage.sub_tasks@.len() == subtasks.len()
    &&& forall|j: int|
        0 <= j < subtasks.len() ==> {
            &&& (#[trigger] stage.sub_tasks@[j]).name@ == subtasks[j]
            &&& stage.sub_tasks@[j].status == StageStatus::Pending
            &&& stage.sub_tasks@[j].progress is None
        }
}


/// `std::time::Duration::from_secs`: a duration of whole seconds. Nothing is
/// claimed of the value; it is only carried.
pub assume_specification[std::time::Duration::from_secs](secs: u64) -> Duration;

/// Number of threads the machine offers for analysis.
///
/// Calls `num_cpus::get`, documented to return at least one; the number
/// depends on the machine, so nothing more is claimed.
#[verifier::external_body]
fn available_threads() -> (r: usize)
    ensures
        r >= 1,
{
    num_cpus::get()
}

/// Progress screen state, except the two fractional figures (overall
/// progress and coverage), which the renderer keeps beside it.
pub struct App {
    /// All pipeline stages.
    pub stages: Vec<PipelineStage>,
    /// Index of the currently active stage.
    pub current_stage: usize,
    /// Total elapsed time.
    pub elapsed_time: Duration,
    /// Start time of the analysis.
    pub start_time: Instant,
    /// Number of functions analyzed.
    pub functions_count: usize,
    /// Number of debt items detected.
    pub debt_count: usize,
    /// Number of threads used.
    pub thread_count: usize,
    /// Current animation frame (0-59).
    pub animation_frame: usize,
    /// Last update time.
    pub last_update: Instant,
}

impl App {
    /// The standard pipeline: eight pending stages, three of them with sub-tasks.
    pub fn create_default_stages() -> (r: Vec<PipelineStage>)
        ensures
            r@.len() == 8,
            forall|i: int| 0 <= i < 8 ==> fresh_stage(#[trigger] r@[i], stage_names()[i], subtask_names(i)),
    {
        let purity = vec![
            SubTask::pending("data flow graph"),
            SubTask::pending("initial detection"),
            SubTask::pending("propagation"),
            SubTask::pending("side effects"),
        ];
        let context = vec![
            SubTask::pending("critical path"),
            SubTask::pending("dependencies"),
            SubTask::pending("git history"),
        ];
        let scoring = vec![
            SubTask::pending("initialize"),
            SubTask::pending("aggregate debt"),
            SubTask::pending("score functions"),
            SubTask::pending("filter results"),
        ];
        let r = vec![
            PipelineStage::new("files"),
            PipelineStage::new("parse"),
            PipelineStage::new("call graph"),
            PipelineStage::new("coverage"),
            PipelineStage::with_subtasks("purity analysis", purity),
            PipelineStage::with_subtasks("context", context),
            PipelineStage::with_subtasks("debt scoring", scoring),
            PipelineStage::new("prioritization"),
        ];
        assert forall|i: int| 0 <= i < 8 implies fresh_stage(#[trigger] r@[i], stage_names()[i], subtask_names(i)) by {
            if i == 4 || i == 5 || i == 6 {
                assert forall|j: int| 0 <= j < subtask_names(i).len() implies {
                    &&& (#[trigger] r@[i].sub_tasks@[j]).name@ == subtask_names(i)[j]
                    &&& r@[i].sub_tasks@[j].status == StageStatus::Pending
                    &&& r@[i].sub_tasks@[j].progress is None
                } by {}
            }
        }
        r
    }

    /// Create the progress state with the standard pipeline, all stages
    /// pending, counters at zero and the thread count of the machine.
    pub fn new() -> (r: Self)
        ensures
            r.stages@.len() == 8,
            forall|i: int| 0 <= i < 8 ==> fresh_stage(#[trigger] r.stages@[i], stage_names()[i], subtask_names(i)),
            r.current_stage == 0,
            r.functions_count == 0,
            r.debt_count == 0,
            r.thread_count >= 1,
            r.animation_frame == 0,
    {
        let start_time = instant_now();
        let last_update = instant_now();
        App {
            stages: Self::create_default_stages(),
            current_stage: 0,
            elapsed_time: Duration::from_secs(0),
            start_time,
            functions_count: 0,
            debt_count: 0,
            thread_count: available_threads(),
            animation_frame: 0,
            last_update,
        }
    }

    /// Update animation state (called at 60 frames per second): the frame
    /// counts on modulo 60 and the clock figures are refreshed.
    pub fn tick(&mut self)
        ensures
            final(self).animation_frame == (old(self).animation_frame + 1) % 60,
            final(self).stages@ == old(self).stages@,
            final(self).current_stage == old(self).current_stage,
            final(self).start_time == old(self).start_time,
            final(self).functions_count == old(self).functions_count,
            final(self).debt_count == old(self).debt_count,
            final(self).thread_count == old(self).thread_count,
    {
        self.elapsed_time = instant_elapsed(&self.start_time);
        self.animation_frame = ((self.animation_frame as u128 + 1) % 60) as usize;
        self.last_update = instant_now();
    }

    /// Start a stage: it becomes active and current. An index past the last
    /// stage changes nothing.
    pub fn start_stage(&mut self, stage_index: usize)
        ensures
            stage_index < old(self).stages@.len() ==> {
                &&& final(self).current_stage == stage_index
                &&& final(self).stages@.len() == old(self).stages@.len()
                &&& final(self).stages@[stage_index as int].status == StageStatus::Active
                &&& final(self).stages@[stage_index as int].name == old(self).stages@[stage_index as int].name
                &&& final(self).stages@[stage_index as int].metric == old(self).stages@[stage_index as int].metric
                &&& final(self).stages@[stage_index as int].elapsed == old(self).stages@[stage_index as int].elapsed
                &&& final(self).stages@[stage_index as int].sub_tasks@ == old(
                    self,
                ).stages@[stage_index as int].sub_tasks@
                &&& forall|k: int|
                    0 <= k < old(self).stages@.len() && k != stage_index ==> final(self).stages@[k] == old(self).stages@[k]
            },
            stage_index >= old(self).stages@.len() ==> final(self).stages@ == old(self).stages@ && final(self).current_stage
                == old(self).current_stage,
            final(self).functions_count == old(self).functions_count,
            final(self).debt_count == old(self).debt_count,
            final(self).thread_count == old(self).thread_count,
            final(self).animation_frame == old(self).animation_frame,
    {
        if stage_index < self.stages.len() {
            self.stages[stage_index].status = StageStatus::Active;
            self.current_stage = stage_index;
        }
    }

    /// Complete a stage with a metric summary; the time since the start is
    /// recorded as its elapsed time. An index past the last stage changes
    /// nothing.
    pub fn complete_stage(&mut self, stage_index: usize, metric: &str)
        ensures
            stage_index < old(self).stages@.len() ==> {
                &&& final(self).stages@.len() == old(self).stages@.len()
                &&& final(self).stages@[stage_index as int].status == StageStatus::Completed
                &&& final(self).stages@[stage_index as int].metric matches Some(m) && m@ == metric@
                &&& final(self).stages@[stage_index as int].elapsed is Some
                &&& final(self).stages@[stage_index as int].name == old(self).stages@[stage_index as int].name
                &&& final(self).stages@[stage_index as int].sub_tasks@ == old(
                    self,
                ).stages@[stage_index as int].sub_tasks@
                &&& forall|k: int|
                    0 <= k < old(self).stages@.len() && k != stage_index ==> final(self).stages@[k] == old(self).stages@[k]
            },
            stage_index >= old(self).stages@.len() ==> final(self).stages@ == old(self).stages@,
            final(self).current_stage == old(self).current_stage,
            final(self).functions_count == old(self).functions_count,
            final(self).debt_count == old(self).debt_count,
            final(self).thread_count == old(self).thread_count,
            final(self).animation_frame == old(self).animation_frame,
    {
        if stage_index < self.stages.len() {
            let elapsed = instant_elapsed(&self.start_time);
            self.stages[stage_index].status = StageStatus::Completed;
            self.stages[stage_index].metric = Some(owned(metric));
            self.stages[stage_index].elapsed = Some(elapsed);
        }
    }

    /// Update a stage's progress metric. An index past the last stage
    /// changes nothing.
    pub fn update_stage_metric(&mut self, stage_index: usize, metric: &str)
        ensures
            stage_index < old(self).stages@.len() ==> {
                &&& final(self).stages@.len() == old(self).stages@.len()
                &&& final(self).stages@[stage_index as int].metric matches Some(m) && m@ == metric@
                &&& final(self).stages@[stage_index as int].status == old(self).stages@[stage_index as int].status
                &&& final(self).stages@[stage_index as int].elapsed == old(self).stages@[stage_index as int].elapsed
                &&& final(self).stages@[stage_index as int].name == old(self).stages@[stage_index as int].name
                &&& final(self).stages@[stage_index as int].sub_tasks@ == old(
                    self,
                ).stages@[stage_index as int].sub_tasks@
                &&& forall|k: int|
                    0 <= k < old(self).stages@.len() && k != stage_index ==> final(self).stages@[k] == old(self).stages@[k]
            },
            stage_index >= old(self).stages@.len() ==> final(self).stages@ == old(self).stages@,
            final(self).current_stage == old(self).current_stage,
            final(self).functions_count == old(self).functions_count,
            final(self).debt_count == old(self).debt_count,
            final(self).thread_count == old(self).thread_count,
            final(self).animation_frame == old(self).animation_frame,
    {
        if stage_index < self.stages.len() {
            self.stages[stage_index].metric = Some(owned(metric));
        }
    }

    /// Update a sub-task's status and progress. Indices past the last stage
    /// or sub-task change nothing.
    pub fn update_subtask(
        &mut self,
        stage_index: usize,
        subtask_index: usize,
        status: StageStatus,
        progress: Option<(usize, usize)>,
    )
        ensures
            final(self).stages@.len() == old(self).stages@.len(),
            stage_index < old(self).stages@.len() && subtask_index < old(self).stages@[stage_index as int].sub_tasks@.len()
                ==> {
                let before = old(self).stages@[stage_index as int];
                let after = final(self).stages@[stage_index as int];
                &&& after.sub_tasks@.len() == before.sub_tasks@.len()
                &&& after.sub_tasks@[subtask_index as int].status == status
                &&& after.sub_tasks@[subtask_index as int].progress == progress
                &&& after.sub_tasks@[subtask_index as int].name == before.sub_tasks@[subtask_index as int].name
                &&& forall|j: int|
                    0 <= j < before.sub_tasks@.len() && j != subtask_index ==> after.sub_tasks@[j] == before.sub_tasks@[j]
                &&& after.name == before.name
                &&& after.status == before.status
                &&& after.metric == before.metric
                &&& after.elapsed == before.elapsed
                &&& forall|k: int|
                    0 <= k < old(self).stages@.len() && k != stage_index ==> final(self).stages@[k] == old(self).stages@[k]
            },
            !(stage_index < old(self).stages@.len() && subtask_index < old(
                self,
            ).stages@[stage_index as int].sub_tasks@.len()) ==> final(self).stages@ == old(self).stages@,
            final(self).current_stage == old(self).current_stage,
            final(self).functions_count == old(self).functions_count,
            final(self).debt_count == old(self).debt_count,
            final(self).thread_count == old(self).thread_count,
            final(self).animation_frame == old(self).animation_frame,
    {
        if stage_index < self.stages.len() {
            if subtask_index < self.stages[stage_index].sub_tasks.len() {
                self.stages[stage_index].sub_tasks[subtask_index].status = status;
                self.stages[stage_index].sub_tasks[subtask_index].progress = progress;
            }
        }
    }

    /// Update the status bar counters.
    pub fn update_stats(&mut self, functions: usize, debt: usize, threads: usize)
        ensures
            final(self).functions_count == functions,
            final(self).debt_count == debt,
            final(self).thread_count == threads,
            final(self).stages@ == old(self).stages@,
            final(self).current_stage == old(self).current_stage,
            final(self).animation_frame == old(self).animation_frame,
    {
        self.functions_count = functions;
        self.debt_count = debt;
        self.thread_count = threads;
    }
}

} // verus!
