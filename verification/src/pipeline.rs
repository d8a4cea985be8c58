//! A pipeline as the copy builds it: the ordered list of the stages that the
//! engine is asked to set up.

use vstd::prelude::*;
use crate::datavalues::DataSchema;
use crate::partition::StageFileInfo;
use crate::plan::AppendMode;
use crate::plan::BlockThresholds;
use crate::plan::CopyIntoTablePlan;
use crate::plan::DataSourcePlan;
use crate::plan::PhysicalPlan;
use crate::plan::StageInfo;
use crate::plan::StageTableInfo;
use crate::plan::TableInfo;

verus! {

/// One stage of a pipeline.
#[derive(Debug)]
pub enum Pipe {
    /// The processors of the statement's query.
    Select,
    /// Scan processors over the partitions of a stage's read plan.
    ReadStageTable {
        stage_table_info: StageTableInfo,
        read_source_plan: DataSourcePlan,
        block_thresholds: BlockThresholds,
    },
    /// An append of the blocks that arrive to a stage seen as a table.
    AppendToTable {
        stage_table_info: StageTableInfo,
        source_schema: DataSchema,
        overwrite: bool,
        mode: AppendMode,
    },
    /// An append of the blocks that arrive to a table as `plan` says, which,
    /// once the last block is in, commits and records `files` as copied if
    /// `use_commit` is set.
    AppendDataWithFinish {
        source_schema: DataSchema,
        plan: CopyIntoTablePlan,
        to_table: TableInfo,
        files: Vec<StageFileInfo>,
        use_commit: bool,
    },
    /// The receiving end of the fragments that `0` is split into.
    Exchange(PhysicalPlan),
    /// A commit of what was appended to a table, which records `copied_files` as
    /// copied.
    CommitInsertion {
        table_info: TableInfo,
        stage_info: StageInfo,
        copied_files: Vec<StageFileInfo>,
        force: bool,
        overwrite: bool,
    },
}

impl Pipe {
    /// How many commits on the target table this stage performs when the
    /// pipeline runs.
    pub open spec fn commits(self) -> nat {
        match self {
            Pipe::AppendDataWithFinish { use_commit, .. } => if use_commit {
                1
            } else {
                0
            },
            Pipe::CommitInsertion { .. } => 1,
            _ => 0,
        }
    }

    /// The files that this stage records as copied when it commits.
    pub open spec fn committed_files(self) -> Seq<StageFileInfo> {
        match self {
            Pipe::AppendDataWithFinish { use_commit, files, .. } => if use_commit {
                files@
            } else {
                Seq::empty()
            },
            Pipe::CommitInsertion { copied_files, .. } => copied_files@,
            _ => Seq::empty(),
        }
    }

    /// The stage files that this stage reads, here or on other nodes.
    pub open spec fn source_files(self) -> Seq<StageFileInfo> {
        match self {
            Pipe::ReadStageTable { stage_table_info, .. } => match stage_table_info.files_to_copy {
                Some(files) => files@,
                None => Seq::empty(),
            },
            Pipe::Exchange(PhysicalPlan::Exchange(exchange)) => match *exchange.input {
                PhysicalPlan::DistributedCopyIntoTable(plan) => plan.files@,
                _ => Seq::empty(),
            },
            _ => Seq::empty(),
        }
    }
}

/// The number of commits that the stages `pipes` perform.
pub open spec fn commit_count(pipes: Seq<Pipe>) -> nat
    decreases pipes.len(),
{
    if pipes.len() == 0 {
        0
    } else {
        commit_count(pipes.drop_last()) + pipes.last().commits()
    }
}

/// The files that the stages `pipes` record as copied, in stage order.
pub open spec fn committed_files(pipes: Seq<Pipe>) -> Seq<StageFileInfo>
    decreases pipes.len(),
{
    if pipes.len() == 0 {
        Seq::empty()
    } else {
        committed_files(pipes.drop_last()) + pipes.last().committed_files()
    }
}

/// The stage files that the stages `pipes` read, in stage order.
pub open spec fn source_files(pipes: Seq<Pipe>) -> Seq<StageFileInfo>
    decreases pipes.len(),
{
    if pipes.len() == 0 {
        Seq::empty()
    } else {
        source_files(pipes.drop_last()) + pipes.last().source_files()
    }
}

/// Appending a stage adds its commits, its copied files and its source files
/// to those of the stages before it.
pub proof fn lemma_push_pipe(pipes: Seq<Pipe>, pipe: Pipe)
    ensures
        commit_count(pipes.push(pipe)) == commit_count(pipes) + pipe.commits(),
        committed_files(pipes.push(pipe)) == committed_files(pipes) + pipe.committed_files(),
        source_files(pipes.push(pipe)) == source_files(pipes) + pipe.source_files(),
{
    assert(pipes.push(pipe).drop_last() =~= pipes);
}

/// An ordered list of stages.
#[derive(Debug)]
pub struct Pipeline {
    pub pipes: Vec<Pipe>,
}

impl Pipeline {
    /// The pipeline without stages: running it does nothing.
    pub fn create() -> (p: Pipeline)
        ensures
            p.pipes@ == Seq::<Pipe>::empty(),
    {
        Pipeline { pipes: Vec::new() }
    }

    /// Adds `pipe` as the last stage.
    pub fn add_pipe(&mut self, pipe: Pipe)
        ensures
            final(self).pipes@ == old(self).pipes@.push(pipe),
    {
        self.pipes.push(pipe);
    }

    /// Whether the pipeline has no stage.
    pub fn is_empty(&self) -> (b: bool)
        ensures
            b == (self.pipes@.len() == 0),
    {
        self.pipes.len() == 0
    }
}

/// What building a statement yields: the pipeline that produces its result,
/// and the pipelines that feed it.
#[derive(Debug)]
pub struct PipelineBuildResult {
    pub main_pipeline: Pipeline,
    pub sources_pipelines: Vec<Pipeline>,
}

impl PipelineBuildResult {
    /// Whether this is the result without any stage.
    pub open spec fn is_noop(self) -> bool {
        self.main_pipeline.pipes@.len() == 0 && self.sources_pipelines@.len() == 0
    }

    /// The result without any stage: running it does nothing.
    pub fn create() -> (r: PipelineBuildResult)
        ensures
            r.is_noop(),
    {
        PipelineBuildResult { main_pipeline: Pipeline::create(), sources_pipelines: Vec::new() }
    }
}

} // verus!
