//! The copy statement: what it needs to learn from the catalog and the stage,
//! whether it runs on this node alone or on the whole cluster, and the
//! pipeline it builds either way.

use vstd::prelude::*;
use vstd::string::*;
use crate::context::QueryContext;
use crate::datavalues::DataField;
use crate::datavalues::DataSchema;
use crate::datavalues::clone_scalars;
use crate::datavalues::typed_values;
use crate::error::ErrorCode;
use crate::error::ErrorKind;
use crate::partition::clone_files;
use crate::partition::clone_parts;
use crate::partition::StageFileInfo;
use crate::pipeline::commit_count;
use crate::pipeline::committed_files;
use crate::pipeline::lemma_push_pipe;
use crate::pipeline::source_files;
use crate::pipeline::Pipe;
use crate::pipeline::Pipeline;
use crate::pipeline::PipelineBuildResult;
use crate::plan::AppendMode;
use crate::plan::BlockThresholds;
use crate::plan::ColumnBinding;
use crate::plan::CopyIntoTableMode;
use crate::plan::CopyIntoTablePlan;
use crate::plan::CopyIntoTablePlanView;
use crate::plan::CopyPlan;
use crate::plan::DataSourcePlan;
use crate::plan::DistributedCopyIntoTable;
use crate::plan::Exchange;
use crate::plan::FragmentKind;
use crate::plan::PhysicalPlan;
use crate::plan::PlanIds;
use crate::plan::QueryPlan;
use crate::plan::StageFilesInfo;
use crate::plan::StageInfo;
use crate::plan::StageTableInfo;
use crate::plan::StageTableInfoView;
use crate::plan::Table;
use crate::plan::TableInfo;
use crate::text::decimal_digits;
use crate::text::with_count;

verus! {

/// Something the interpreter has to learn from outside before it can go on.
#[derive(Clone, Copy, Debug, PartialEq, Eq, Structural)]
pub enum CopyRequest {
    /// Whether a statement with this deduplication label already ran.
    CheckDeduplicateLabel,
    /// The target table, by the names in the plan.
    GetTable,
    /// The files of the stage that the statement is to copy.
    CollectFiles,
    /// The read plan of the stage over the files that were collected.
    ReadPlan,
}

/// What the interpreter has learnt from outside so far.
#[derive(Debug)]
pub struct CopyInputs {
    pub duplicate_label: Option<bool>,
    pub to_table: Option<Table>,
    pub files: Option<Vec<StageFileInfo>>,
    pub read_source_plan: Option<DataSourcePlan>,
}

/// What the interpreter says when it is run on what is known so far.
#[derive(Debug)]
pub enum CopyStep {
    /// Answer the request, put the answer into the inputs, and run again.
    Need(CopyRequest, CopyInputs),
    /// The statement is built, or cannot be.
    Done(Result<PipelineBuildResult, ErrorCode>),
}

/// Interprets one copy statement.
pub struct CopyInterpreter {
    ctx: QueryContext,
    plan: CopyPlan,
    plan_ids: PlanIds,
}

/// The schema of a query's result: one field for each output column, with
/// the column's name and type.
pub open spec fn query_schema(query: QueryPlan) -> Seq<DataField> {
    query.columns@.map_values(
        |c: ColumnBinding| DataField { name: c.column_name, data_type: c.data_type },
    )
}

/// Whether `res` is the internal error with the message `message`.
pub open spec fn is_internal_error<T>(res: Result<T, ErrorCode>, message: Seq<char>) -> bool {
    res matches Err(e) && e.kind == ErrorKind::InternalError && e.message@ == message
}

/// Whether two contexts differ in their status line at most.
pub open spec fn same_but_status(a: QueryContext, b: QueryContext) -> bool {
    a.partitions == b.partitions && a.cancelled == b.cancelled && a.local_id == b.local_id
}

/// Whether `d` is what a worker is sent for `plan`: the identifier `plan_id`,
/// the plan's names, schemas, constants and modes, the target table as the
/// catalog knows it, the files to copy and their read plan, and the node that
/// coordinates.
pub open spec fn is_distributed_plan_of(
    d: DistributedCopyIntoTable,
    plan: CopyIntoTablePlan,
    to_table: Table,
    files: Seq<StageFileInfo>,
    read_source_plan: DataSourcePlan,
    local_id: String,
    plan_id: u32,
) -> bool {
    &&& d.plan_id == plan_id
    &&& d.catalog_name == plan.catalog_name
    &&& d.database_name == plan.database_name
    &&& d.table_name == plan.table_name
    &&& d.required_values_schema@ == plan.required_values_schema@
    &&& typed_values(d.values_consts@) == typed_values(plan.values_consts@)
    &&& d.required_source_schema@ == plan.required_source_schema@
    &&& d.write_mode == plan.write_mode
    &&& d.validation_mode == plan.validation_mode
    &&& d.force == plan.force
    &&& d.stage_table_info@ == plan.stage_table_info@
    &&& d.source.catalog == read_source_plan.catalog
    &&& d.source.parts@ == read_source_plan.parts@
    &&& d.thresholds == to_table.block_thresholds
    &&& d.files@ == files
    &&& d.table_info == to_table.info
    &&& d.local_node_id == local_id
}

/// Whether a copy in `mode` replaces what the table holds.
pub open spec fn overwrites(mode: CopyIntoTableMode) -> bool {
    match mode {
        CopyIntoTableMode::Insert { overwrite } => overwrite,
        _ => false,
    }
}

/// Whether `build` is the pipeline of the distributed copy `d`: a merging
/// exchange over `d`, then one commit on the coordinating node that records
/// `d`'s files. The exchange has an identifier of its own: the one that was
/// next when `next_id` was, and never the one of `d`.
pub open spec fn is_distributed_pipeline_of(
    build: PipelineBuildResult,
    d: DistributedCopyIntoTable,
    next_id: u32,
) -> bool {
    &&& build.sources_pipelines@.len() == 0
    &&& build.main_pipeline.pipes@.len() == 2
    &&& build.main_pipeline.pipes@[0] matches Pipe::Exchange(PhysicalPlan::Exchange(exchange))
    &&& exchange.plan_id == PlanIds::other_than(next_id, d.plan_id)
    &&& exchange.plan_id != d.plan_id
    &&& exchange.kind == FragmentKind::Merge
    &&& exchange.keys@.len() == 0
    &&& *exchange.input == PhysicalPlan::DistributedCopyIntoTable(Box::new(d))
    &&& build.main_pipeline.pipes@[1] matches Pipe::CommitInsertion {
        table_info,
        stage_info,
        copied_files,
        force,
        overwrite,
    }
    &&& table_info == d.table_info
    &&& stage_info == d.stage_table_info.stage_info
    &&& copied_files@ == d.files@
    &&& force == d.force
    &&& overwrite == overwrites(d.write_mode)
}

/// Whether `pipe` appends blocks of `schema` to `to_table` as `plan` says
/// and, at the end, commits and records `files`.
pub open spec fn is_append_with_finish(
    pipe: Pipe,
    schema: Seq<DataField>,
    plan: CopyIntoTablePlanView,
    to_table: TableInfo,
    files: Seq<StageFileInfo>,
) -> bool {
    &&& pipe matches Pipe::AppendDataWithFinish {
        source_schema,
        plan: copy_plan,
        to_table: target,
        files: copied,
        use_commit,
    }
    &&& source_schema@ == schema
    &&& copy_plan@ == plan
    &&& target == to_table
    &&& copied@ == files
    &&& use_commit
}

/// The stage of `plan` seen as a table that holds `files` and nothing else.
pub open spec fn stage_table_over(plan: CopyIntoTablePlan, files: Seq<StageFileInfo>)
    -> StageTableInfoView {
    StageTableInfoView {
        schema: plan.stage_table_info@.schema,
        stage_info: plan.stage_table_info@.stage_info,
        files_info: plan.stage_table_info@.files_info,
        files_to_copy: Some(files),
        is_select: plan.stage_table_info@.is_select,
    }
}

/// Whether `pipe` scans `files` of the plan's stage, split as
/// `read_source_plan` says, into blocks within `thresholds`.
pub open spec fn is_read_stage(
    pipe: Pipe,
    plan: CopyIntoTablePlan,
    thresholds: BlockThresholds,
    files: Seq<StageFileInfo>,
    read_source_plan: DataSourcePlan,
) -> bool {
    &&& pipe matches Pipe::ReadStageTable { stage_table_info, read_source_plan: source, block_thresholds }
    &&& stage_table_info@ == stage_table_over(plan, files)
    &&& source == read_source_plan
    &&& block_thresholds == thresholds
}

/// The identifier that is handed out next once the interpreter ran on
/// `inputs`: a copy that runs distributed takes two, one for what the workers
/// are sent and one for the exchange, and nothing else takes any.
pub open spec fn next_id_after(plan: CopyPlan, inputs: CopyInputs, next_id: u32) -> u32 {
    match plan {
        CopyPlan::IntoTable(p) => if next_request(plan, inputs) is None && inputs.duplicate_label
            == Some(false) && runs_distributed(p, inputs) {
            PlanIds::after(PlanIds::after(next_id))
        } else {
            next_id
        },
        _ => next_id,
    }
}

/// What a copy into a table that runs on this node alone comes to.
///
/// With a query, the pipeline is the query followed by an append that commits
/// the files that the plan names; a plan that names none is an internal error.
/// Without one, no files give the pipeline that does nothing, and otherwise
/// the pipeline is a scan of the files followed by an append that commits
/// them.
pub open spec fn local_copy_outcome(
    res: Result<PipelineBuildResult, ErrorCode>,
    plan: CopyIntoTablePlan,
    to_table: Table,
    files: Seq<StageFileInfo>,
    read_source_plan: Option<DataSourcePlan>,
) -> bool {
    match plan.query {
        Some(query) => match plan.stage_table_info.files_to_copy {
            None => is_internal_error(res, "files_to_copy should not be None"@),
            Some(to_copy) => {
                &&& res matches Ok(build)
                &&& build.sources_pipelines@.len() == 0
                &&& build.main_pipeline.pipes@.len() == 2
                &&& build.main_pipeline.pipes@[0] is Select
                &&& is_append_with_finish(
                    build.main_pipeline.pipes@[1],
                    query_schema(query),
                    plan@,
                    to_table.info,
                    to_copy@,
                )
            },
        },
        None => if files.len() == 0 {
            res matches Ok(build) && build.is_noop()
        } else {
            match read_source_plan {
                None => is_internal_error(res, "read_source_plan should not be None"@),
                Some(source) => {
                    &&& res matches Ok(build)
                    &&& build.sources_pipelines@.len() == 0
                    &&& build.main_pipeline.pipes@.len() == 2
                    &&& is_read_stage(
                        build.main_pipeline.pipes@[0],
                        plan,
                        to_table.block_thresholds,
                        files,
                        source,
                    )
                    &&& is_append_with_finish(
                        build.main_pipeline.pipes@[1],
                        plan.required_source_schema@,
                        plan@,
                        to_table.info,
                        files,
                    )
                },
            }
        },
    }
}

/// Whether `build` is the pipeline of a copy of `query`'s result into the
/// place `path` of `stage`.
pub open spec fn is_copy_into_stage_pipeline(
    build: PipelineBuildResult,
    stage: StageInfo,
    path: Seq<char>,
    query: QueryPlan,
) -> bool {
    &&& build.sources_pipelines@.len() == 0
    &&& build.main_pipeline.pipes@.len() == 2
    &&& build.main_pipeline.pipes@[0] is Select
    &&& build.main_pipeline.pipes@[1] matches Pipe::AppendToTable {
        stage_table_info,
        source_schema,
        overwrite,
        mode,
    }
    &&& stage_table_info.schema@ == query_schema(query)
    &&& stage_table_info.stage_info == stage
    &&& stage_table_info.files_info.path@ == path
    &&& stage_table_info.files_info.files is None
    &&& stage_table_info.files_info.pattern is None
    &&& stage_table_info.files_to_copy is None
    &&& !stage_table_info.is_select
    &&& source_schema@ == query_schema(query)
    &&& !overwrite
    &&& mode == AppendMode::Normal
}

/// Whether a copy into a table has to know the files of the stage before it
/// can be built: it has unless it runs locally from a query.
pub open spec fn needs_files(plan: CopyIntoTablePlan) -> bool {
    plan.enable_distributed || plan.query is None
}

/// The files that were collected, and none where none were asked for.
pub open spec fn collected(inputs: CopyInputs) -> Seq<StageFileInfo> {
    match inputs.files {
        Some(files) => files@,
        None => Seq::empty(),
    }
}

/// Whether the copy runs on the whole cluster: the plan allows it, there are
/// files, and their read plan has more than one partition.
pub open spec fn runs_distributed(plan: CopyIntoTablePlan, inputs: CopyInputs) -> bool {
    &&& plan.enable_distributed
    &&& collected(inputs).len() > 0
    &&& inputs.read_source_plan matches Some(source)
    &&& source.parts@.len() > 1
}

/// What the interpreter has to learn next, and nothing once it can decide.
///
/// The deduplication label comes first; a statement that already ran needs
/// nothing more. A copy into a table then needs the table, the files unless
/// it runs locally from a query, and, if there are files, their read plan.
pub open spec fn next_request(plan: CopyPlan, inputs: CopyInputs) -> Option<CopyRequest> {
    match inputs.duplicate_label {
        None => Some(CopyRequest::CheckDeduplicateLabel),
        Some(true) => None,
        Some(false) => match plan {
            CopyPlan::IntoTable(p) => if inputs.to_table is None {
                Some(CopyRequest::GetTable)
            } else if !needs_files(p) {
                None
            } else if inputs.files is None {
                Some(CopyRequest::CollectFiles)
            } else if collected(inputs).len() == 0 {
                None
            } else if inputs.read_source_plan is None {
                Some(CopyRequest::ReadPlan)
            } else {
                None
            },
            _ => None,
        },
    }
}

/// What the statement `plan` comes to once `inputs` hold all it needs.
///
/// A statement that already ran, and one without files, come to the pipeline
/// that does nothing. A copy into a stage comes to its pipeline. A copy into
/// a table comes to the distributed pipeline where it runs distributed, and
/// to the local outcome otherwise.
pub open spec fn copy_outcome(
    res: Result<PipelineBuildResult, ErrorCode>,
    plan: CopyPlan,
    inputs: CopyInputs,
    local_id: String,
    next_id: u32,
) -> bool {
    if inputs.duplicate_label == Some(true) {
        res matches Ok(build) && build.is_noop()
    } else {
        match plan {
            CopyPlan::NoFileToCopy => res matches Ok(build) && build.is_noop(),
            CopyPlan::IntoStage { stage, path, from, .. } => res matches Ok(build)
                && is_copy_into_stage_pipeline(build, stage, path@, from),
            CopyPlan::IntoTable(p) => if runs_distributed(p, inputs) {
                &&& res matches Ok(build)
                &&& build.main_pipeline.pipes@.len() == 2
                &&& build.main_pipeline.pipes@[0] matches Pipe::Exchange(
                    PhysicalPlan::Exchange(exchange),
                )
                &&& *exchange.input matches PhysicalPlan::DistributedCopyIntoTable(d)
                &&& is_distributed_plan_of(
                    *d,
                    p,
                    inputs.to_table->0,
                    collected(inputs),
                    inputs.read_source_plan->0,
                    local_id,
                    next_id,
                )
                &&& is_distributed_pipeline_of(build, *d, PlanIds::after(next_id))
            } else {
                local_copy_outcome(
                    res,
                    p,
                    inputs.to_table->0,
                    collected(inputs),
                    inputs.read_source_plan,
                )
            },
        }
    }
}

/// The status line after the interpreter ran on `inputs`.
///
/// A copy that may not leave this node reports that it is about to read the
/// stage's read plan when it asks for it. A copy that scans files on this
/// node reports how many partitions it reads. Otherwise the line stays.
pub open spec fn status_after(plan: CopyPlan, inputs: CopyInputs, before: Seq<char>) -> Seq<char> {
    match plan {
        CopyPlan::IntoTable(p) => if next_request(plan, inputs) == Some(CopyRequest::ReadPlan) {
            if p.enable_distributed {
                before
            } else {
                "begin to read stage source plan"@
            }
        } else if next_request(plan, inputs) is None && inputs.duplicate_label == Some(false)
            && !runs_distributed(p, inputs) && p.query is None && collected(inputs).len() > 0
            && inputs.read_source_plan is Some {
            "begin to read stage table data, parts:"@ + decimal_digits(
                inputs.read_source_plan->0.parts@.len(),
            )
        } else {
            before
        },
        _ => before,
    }
}

impl CopyInterpreter {
    /// The context of the query that this statement belongs to.
    pub closed spec fn ctx(&self) -> QueryContext {
        self.ctx
    }

    /// The plan that is interpreted.
    pub closed spec fn plan(&self) -> CopyPlan {
        self.plan
    }

    /// The identifier that the next node of a physical plan gets.
    pub closed spec fn next_plan_id(&self) -> u32 {
        self.plan_ids.next
    }

    /// An interpreter of `plan` in the query of `ctx`, which has handed out no
    /// identifier yet.
    pub fn try_create(ctx: QueryContext, plan: CopyPlan) -> (r: Result<CopyInterpreter, ErrorCode>)
        ensures
            r matches Ok(interpreter) && interpreter.ctx() == ctx && interpreter.plan() == plan
                && interpreter.next_plan_id() == 0,
    {
        Ok(CopyInterpreter { ctx, plan, plan_ids: PlanIds::new() })
    }

    /// The plan that is interpreted.
    pub fn get_plan(&self) -> (plan: &CopyPlan)
        ensures
            *plan == self.plan(),
    {
        &self.plan
    }

    /// The context of the query that this statement belongs to.
    pub fn get_ctx(&self) -> (ctx: &QueryContext)
        ensures
            *ctx == self.ctx(),
    {
        &self.ctx
    }

    /// The name under which this interpreter is reported.
    pub fn name(&self) -> (n: &'static str)
        ensures
            n@ == "CopyInterpreterV2"@,
    {
        "CopyInterpreterV2"
    }

    /// The last status that was reported for this query.
    pub fn status(&self) -> (s: &str)
        ensures
            s@ == self.ctx().status@,
    {
        self.ctx.get_status_info()
    }

    /// Reports `status` as the query's status line.
    pub fn set_status(&mut self, status: &str)
        ensures
            final(self).ctx().status@ == status@,
            same_but_status(final(self).ctx(), old(self).ctx()),
            final(self).plan() == old(self).plan(),
            final(self).next_plan_id() == old(self).next_plan_id(),
    {
        self.ctx.set_status_info(status);
    }

    /// The pipeline of `query` and the schema of its result.
    pub fn build_query(query: &QueryPlan) -> (r: (PipelineBuildResult, DataSchema))
        ensures
            r.0.sources_pipelines@.len() == 0,
            r.0.main_pipeline.pipes@.len() == 1,
            r.0.main_pipeline.pipes@[0] is Select,
            r.1@ == query_schema(*query),
    {
        let mut fields: Vec<DataField> = Vec::new();
        let mut i: usize = 0;
        while i < query.columns.len()
            invariant
                i <= query.columns.len(),
                fields@ == query_schema(*query).subrange(0, i as int),
            decreases query.columns.len() - i,
        {
            let column = &query.columns[i];
            fields.push(
                DataField { name: column.column_name.clone(), data_type: column.data_type },
            );
            assert(fields@ =~= query_schema(*query).subrange(0, i + 1));
            i += 1;
        }
        assert(fields@ =~= query_schema(*query));
        let mut build_res = PipelineBuildResult::create();
        build_res.main_pipeline.add_pipe(Pipe::Select);
        (build_res, DataSchema::new(fields))
    }

    /// The pipeline that copies the result of `query` into the place `path`
    /// of `stage`.
    pub fn build_local_copy_into_stage_pipeline(stage: &StageInfo, path: &str, query: &QueryPlan) -> (build: PipelineBuildResult)
        ensures
            is_copy_into_stage_pipeline(build, *stage, path@, *query),
    {
        let (mut build_res, data_schema) = Self::build_query(query);
        let table_schema = data_schema.clone();
        let stage_table_info = StageTableInfo {
            schema: table_schema,
            stage_info: stage.clone(),
            files_info: StageFilesInfo { path: String::from_str(path), files: None, pattern: None },
            files_to_copy: None,
            is_select: false,
        };
        build_res.main_pipeline.add_pipe(
            Pipe::AppendToTable {
                stage_table_info,
                source_schema: data_schema,
                overwrite: false,
                mode: AppendMode::Normal,
            },
        );
        build_res
    }

    /// Reports that `stage_file_infos` are about to be removed from the stage,
    /// and returns how many they are.
    pub fn try_purge_files(ctx: &mut QueryContext, stage_info: &StageInfo, stage_file_infos: &Vec<StageFileInfo>) -> (num_copied_files: usize)
        ensures
            num_copied_files == stage_file_infos@.len(),
            final(ctx).status@ == "begin to purge files:"@ + decimal_digits(
                stage_file_infos@.len(),
            ),
            same_but_status(*final(ctx), *old(ctx)),
    {
        let num_copied_files = stage_file_infos.len();
        let status = with_count("begin to purge files:", num_copied_files);
        ctx.set_status_info(status.as_str());
        num_copied_files
    }

    /// Decides whether the copy `plan` leaves this node, and if so, what the
    /// workers are sent.
    ///
    /// It stays where there are no files, and where the read plan of the files
    /// has at most one partition. What the workers are sent is a node of the
    /// physical plan, and takes its identifier from `plan_ids`.
    pub fn try_transform_copy_plan_from_local_to_distributed(
        ctx: &QueryContext,
        plan_ids: &mut PlanIds,
        plan: &CopyIntoTablePlan,
        to_table: &Table,
        files: &Vec<StageFileInfo>,
        read_source_plan: &DataSourcePlan,
    ) -> (r: Option<DistributedCopyIntoTable>)
        ensures
            r is None <==> files@.len() == 0 || read_source_plan.parts@.len() <= 1,
            r is None ==> final(plan_ids).next == old(plan_ids).next,
            r matches Some(d) ==> is_distributed_plan_of(
                d,
                *plan,
                *to_table,
                files@,
                *read_source_plan,
                ctx.local_id,
                old(plan_ids).next,
            ),
            r is Some ==> final(plan_ids).next == PlanIds::after(old(plan_ids).next),
    {
        if files.len() == 0 {
            return None;
        }
        if read_source_plan.parts.len() <= 1 {
            return None;
        }
        Some(
            DistributedCopyIntoTable {
                plan_id: plan_ids.allocate(),
                catalog_name: plan.catalog_name.clone(),
                database_name: plan.database_name.clone(),
                table_name: plan.table_name.clone(),
                required_values_schema: plan.required_values_schema.clone(),
                values_consts: clone_scalars(&plan.values_consts),
                required_source_schema: plan.required_source_schema.clone(),
                write_mode: plan.write_mode,
                validation_mode: plan.validation_mode,
                force: plan.force,
                stage_table_info: plan.stage_table_info.clone(),
                source: DataSourcePlan {
                    catalog: read_source_plan.catalog.clone(),
                    parts: clone_parts(&read_source_plan.parts),
                },
                thresholds: to_table.get_block_thresholds(),
                files: clone_files(files),
                table_info: to_table.get_table_info().clone(),
                local_node_id: ctx.local_id.clone(),
            },
        )
    }

    /// The stage of `plan` seen as a table that holds `files` and nothing
    /// else: what the read plan is asked of, and what is scanned.
    pub fn stage_table_to_read(plan: &CopyIntoTablePlan, files: Vec<StageFileInfo>) -> (info:
        StageTableInfo)
        ensures
            info@ == stage_table_over(*plan, files@),
    {
        let mut stage_table_info = plan.stage_table_info.clone();
        stage_table_info.files_to_copy = Some(files);
        stage_table_info
    }

    /// Adds to `pipeline` the scan of `files` of the plan's stage, split as
    /// `read_source_plan` says, and reports how many partitions are read.
    pub fn build_read_stage_table_data_pipeline(
        ctx: &mut QueryContext,
        pipeline: &mut Pipeline,
        plan: &CopyIntoTablePlan,
        block_thresholds: BlockThresholds,
        files: Vec<StageFileInfo>,
        read_source_plan: DataSourcePlan,
    )
        ensures
            final(pipeline).pipes@.len() == old(pipeline).pipes@.len() + 1,
            final(pipeline).pipes@ == old(pipeline).pipes@.push(final(pipeline).pipes@.last()),
            is_read_stage(
                final(pipeline).pipes@.last(),
                *plan,
                block_thresholds,
                files@,
                read_source_plan,
            ),
            final(ctx).status@ == "begin to read stage table data, parts:"@ + decimal_digits(
                read_source_plan.parts@.len(),
            ),
            same_but_status(*final(ctx), *old(ctx)),
    {
        let stage_table_info = Self::stage_table_to_read(plan, files);
        let status = with_count(
            "begin to read stage table data, parts:",
            read_source_plan.parts.len(),
        );
        ctx.set_status_info(status.as_str());
        pipeline.add_pipe(
            Pipe::ReadStageTable { stage_table_info, read_source_plan, block_thresholds },
        );
    }

    /// Builds the pipeline of a copy into a table that runs on this node alone.
    pub fn build_local_copy_into_table_pipeline(
        ctx: &mut QueryContext,
        plan: &CopyIntoTablePlan,
        to_table: &Table,
        files: Vec<StageFileInfo>,
        read_source_plan: Option<DataSourcePlan>,
    ) -> (res: Result<PipelineBuildResult, ErrorCode>)
        ensures
            local_copy_outcome(res, *plan, *to_table, files@, read_source_plan),
            same_but_status(*final(ctx), *old(ctx)),
            plan.query is None && files@.len() > 0 && read_source_plan is Some ==> final(ctx).status@ == "begin to read stage table data, parts:"@ + decimal_digits(
                read_source_plan->0.parts@.len(),
            ),
            !(plan.query is None && files@.len() > 0 && read_source_plan is Some) ==> final(ctx).status == old(ctx).status,
    {
        match &plan.query {
            Some(query) => {
                let (mut build_res, source_schema) = Self::build_query(query);
                match &plan.stage_table_info.files_to_copy {
                    None => Err(
                        ErrorCode::create(
                            ErrorKind::InternalError,
                            "files_to_copy should not be None",
                        ),
                    ),
                    Some(to_copy) => {
                        build_res.main_pipeline.add_pipe(
                            Pipe::AppendDataWithFinish {
                                source_schema,
                                plan: plan.clone(),
                                to_table: to_table.get_table_info().clone(),
                                files: clone_files(to_copy),
                                use_commit: true,
                            },
                        );
                        Ok(build_res)
                    },
                }
            },
            None => {
                let mut build_res = PipelineBuildResult::create();
                if files.len() == 0 {
                    return Ok(build_res);
                }
                match read_source_plan {
                    None => Err(
                        ErrorCode::create(
                            ErrorKind::InternalError,
                            "read_source_plan should not be None",
                        ),
                    ),
                    Some(source) => {
                        let copied = clone_files(&files);
                        Self::build_read_stage_table_data_pipeline(
                            ctx,
                            &mut build_res.main_pipeline,
                            plan,
                            to_table.get_block_thresholds(),
                            files,
                            source,
                        );
                        build_res.main_pipeline.add_pipe(
                            Pipe::AppendDataWithFinish {
                                source_schema: plan.required_source_schema.clone(),
                                plan: plan.clone(),
                                to_table: to_table.get_table_info().clone(),
                                files: copied,
                                use_commit: true,
                            },
                        );
                        Ok(build_res)
                    },
                }
            },
        }
    }

    /// Builds the pipeline of a copy that runs on the whole cluster: the
    /// workers' results are merged here, and this node commits, once. The
    /// exchange is a node of the physical plan of its own, and takes from
    /// `plan_ids` an identifier that is not the one of `distributed_plan`.
    pub fn build_distributed_copy_into_table_pipeline(
        plan_ids: &mut PlanIds,
        distributed_plan: DistributedCopyIntoTable,
    ) -> (build: PipelineBuildResult)
        ensures
            is_distributed_pipeline_of(build, distributed_plan, old(plan_ids).next),
            final(plan_ids).next == PlanIds::after(
                PlanIds::other_than(old(plan_ids).next, distributed_plan.plan_id),
            ),
    {
        let exchange_id = plan_ids.allocate_other_than(distributed_plan.plan_id);
        let table_info = distributed_plan.table_info.clone();
        let stage_info = distributed_plan.stage_table_info.stage_info.clone();
        let copied_files = clone_files(&distributed_plan.files);
        let force = distributed_plan.force;
        let mut overwrite_ = false;
        if let CopyIntoTableMode::Insert { overwrite } = distributed_plan.write_mode {
            overwrite_ = overwrite;
        }
        let exchange_plan = PhysicalPlan::Exchange(
            Exchange {
                plan_id: exchange_id,
                input: Box::new(PhysicalPlan::DistributedCopyIntoTable(Box::new(distributed_plan))),
                kind: FragmentKind::Merge,
                keys: Vec::new(),
            },
        );
        let mut build_res = PipelineBuildResult::create();
        build_res.main_pipeline.add_pipe(Pipe::Exchange(exchange_plan));
        build_res.main_pipeline.add_pipe(
            Pipe::CommitInsertion { table_info, stage_info, copied_files, force, overwrite: overwrite_ },
        );
        build_res
    }
    /// Runs the statement as far as `inputs` allow.
    ///
    /// While something is missing, the answer names it and hands the inputs
    /// back untouched. Once nothing is missing, the answer is the pipeline of
    /// the statement: whether the copy leaves this node is decided here, once,
    /// from the number of partitions of the read plan.
    pub fn execute2(&mut self, inputs: CopyInputs) -> (step: CopyStep)
        ensures
            final(self).plan() == old(self).plan(),
            same_but_status(final(self).ctx(), old(self).ctx()),
            final(self).ctx().status@ == status_after(
                old(self).plan(),
                inputs,
                old(self).ctx().status@,
            ),
            final(self).next_plan_id() == next_id_after(
                old(self).plan(),
                inputs,
                old(self).next_plan_id(),
            ),
            match next_request(old(self).plan(), inputs) {
                Some(request) => step matches CopyStep::Need(r, back) && r == request && back
                    == inputs,
                None => step matches CopyStep::Done(res) && copy_outcome(
                    res,
                    old(self).plan(),
                    inputs,
                    old(self).ctx().local_id,
                    old(self).next_plan_id(),
                ),
            },
    {
        match inputs.duplicate_label {
            None => {
                return CopyStep::Need(CopyRequest::CheckDeduplicateLabel, inputs);
            },
            Some(true) => {
                return CopyStep::Done(Ok(PipelineBuildResult::create()));
            },
            Some(false) => {},
        }
        match &self.plan {
            CopyPlan::NoFileToCopy => CopyStep::Done(Ok(PipelineBuildResult::create())),
            CopyPlan::IntoStage { stage, path, from, .. } => CopyStep::Done(
                Ok(Self::build_local_copy_into_stage_pipeline(stage, path.as_str(), from)),
            ),
            CopyPlan::IntoTable(plan) => {
                if inputs.to_table.is_none() {
                    return CopyStep::Need(CopyRequest::GetTable, inputs);
                }
                if plan.enable_distributed || plan.query.is_none() {
                    if inputs.files.is_none() {
                        return CopyStep::Need(CopyRequest::CollectFiles, inputs);
                    }
                    if collected_len(&inputs) > 0 && inputs.read_source_plan.is_none() {
                        if !plan.enable_distributed {
                            self.ctx.set_status_info("begin to read stage source plan");
                        }
                        return CopyStep::Need(CopyRequest::ReadPlan, inputs);
                    }
                }
                let CopyInputs { duplicate_label: _, to_table, files, read_source_plan } = inputs;
                let to_table = to_table.unwrap();
                let files = match files {
                    Some(files) => files,
                    None => Vec::new(),
                };
                if plan.enable_distributed {
                    if let Some(source) = &read_source_plan {
                        let distributed_plan_op =
                            Self::try_transform_copy_plan_from_local_to_distributed(
                            &self.ctx,
                            &mut self.plan_ids,
                            plan,
                            &to_table,
                            &files,
                            source,
                        );
                        if let Some(distributed_plan) = distributed_plan_op {
                            return CopyStep::Done(
                                Ok(
                                    Self::build_distributed_copy_into_table_pipeline(
                                        &mut self.plan_ids,
                                        distributed_plan,
                                    ),
                                ),
                            );
                        }
                    }
                }
                CopyStep::Done(
                    Self::build_local_copy_into_table_pipeline(
                        &mut self.ctx,
                        plan,
                        &to_table,
                        files,
                        read_source_plan,
                    ),
                )
            },
        }
    }
}

/// How many files were collected.
fn collected_len(inputs: &CopyInputs) -> (n: usize)
    ensures
        n == collected(*inputs).len(),
{
    match &inputs.files {
        Some(files) => files.len(),
        None => 0,
    }
}

/// The commits, the copied files and the source files of two stages are those
/// of the first followed by those of the second.
pub proof fn lemma_two_pipes(pipes: Seq<Pipe>)
    requires
        pipes.len() == 2,
    ensures
        commit_count(pipes) == pipes[0].commits() + pipes[1].commits(),
        committed_files(pipes) == pipes[0].committed_files() + pipes[1].committed_files(),
        source_files(pipes) == pipes[0].source_files() + pipes[1].source_files(),
{
    let first = Seq::<Pipe>::empty().push(pipes[0]);
    assert(pipes =~= first.push(pipes[1]));
    lemma_push_pipe(Seq::<Pipe>::empty(), pipes[0]);
    lemma_push_pipe(first, pipes[1]);
    assert(committed_files(Seq::<Pipe>::empty()) + pipes[0].committed_files()
        =~= pipes[0].committed_files());
    assert(source_files(Seq::<Pipe>::empty()) + pipes[0].source_files()
        =~= pipes[0].source_files());
}

/// A statement commits at most once: whatever the plan and whatever was
/// learnt from outside, the pipeline that is built holds at most one commit
/// on the target table.
pub proof fn lemma_commit_at_most_once(
    res: Result<PipelineBuildResult, ErrorCode>,
    plan: CopyPlan,
    inputs: CopyInputs,
    local_id: String,
    next_id: u32,
)
    requires
        copy_outcome(res, plan, inputs, local_id, next_id),
        res is Ok,
    ensures
        commit_count(res->Ok_0.main_pipeline.pipes@) <= 1,
{
    let pipes = res->Ok_0.main_pipeline.pipes@;
    if pipes.len() == 2 {
        lemma_two_pipes(pipes);
    }
}

/// A copy that runs on the whole cluster commits exactly once, on the
/// coordinating node, however many partitions the workers read; and what it
/// records as copied are the files that were collected.
pub proof fn lemma_distributed_commits_once(
    res: Result<PipelineBuildResult, ErrorCode>,
    plan: CopyIntoTablePlan,
    inputs: CopyInputs,
    local_id: String,
    next_id: u32,
)
    requires
        inputs.duplicate_label == Some(false),
        runs_distributed(plan, inputs),
        copy_outcome(res, CopyPlan::IntoTable(plan), inputs, local_id, next_id),
    ensures
        res is Ok,
        commit_count(res->Ok_0.main_pipeline.pipes@) == 1,
        committed_files(res->Ok_0.main_pipeline.pipes@) == collected(inputs),
        source_files(res->Ok_0.main_pipeline.pipes@) == collected(inputs),
{
    let pipes = res->Ok_0.main_pipeline.pipes@;
    lemma_two_pipes(pipes);
    assert(pipes[0].committed_files() + pipes[1].committed_files() =~= collected(inputs));
    assert(pipes[0].source_files() + pipes[1].source_files() =~= collected(inputs));
}

/// No two nodes of the physical plan of a distributed copy share an
/// identifier: the exchange has one, and what the workers are sent, the node
/// below it, has another.
pub proof fn lemma_plan_ids_differ(
    res: Result<PipelineBuildResult, ErrorCode>,
    plan: CopyIntoTablePlan,
    inputs: CopyInputs,
    local_id: String,
    next_id: u32,
)
    requires
        inputs.duplicate_label == Some(false),
        runs_distributed(plan, inputs),
        copy_outcome(res, CopyPlan::IntoTable(plan), inputs, local_id, next_id),
    ensures
        res matches Ok(build) && build.main_pipeline.pipes@[0] matches Pipe::Exchange(
            PhysicalPlan::Exchange(exchange),
        ) && *exchange.input matches PhysicalPlan::DistributedCopyIntoTable(d) && d.plan_id
            == next_id && exchange.plan_id == PlanIds::after(next_id) && exchange.plan_id
            != d.plan_id,
{
}

/// A copy from files that finds no file builds the pipeline that does
/// nothing, and so commits nothing.
pub proof fn lemma_empty_input_is_noop(
    res: Result<PipelineBuildResult, ErrorCode>,
    plan: CopyIntoTablePlan,
    inputs: CopyInputs,
    local_id: String,
    next_id: u32,
)
    requires
        plan.query is None,
        inputs.files is Some,
        collected(inputs).len() == 0,
        copy_outcome(res, CopyPlan::IntoTable(plan), inputs, local_id, next_id),
    ensures
        res is Ok,
        res->Ok_0.is_noop(),
        commit_count(res->Ok_0.main_pipeline.pipes@) == 0,
        next_request(CopyPlan::IntoTable(plan), inputs) != Some(CopyRequest::ReadPlan),
{
}

/// Whether a copy from files runs on this node or on the whole cluster, it
/// reads the same files and records the same files as copied, once.
///
/// `narrow` and `wide` are what was learnt about one statement in two worlds
/// that differ in the read plan only: at most one partition in the first,
/// more than one in the second.
pub proof fn lemma_local_distributed_equivalence(
    plan: CopyIntoTablePlan,
    narrow: CopyInputs,
    wide: CopyInputs,
    local: Result<PipelineBuildResult, ErrorCode>,
    distributed: Result<PipelineBuildResult, ErrorCode>,
    local_id: String,
    next_id: u32,
)
    requires
        plan.query is None,
        plan.enable_distributed,
        narrow.duplicate_label == Some(false),
        wide.duplicate_label == Some(false),
        narrow.to_table is Some,
        narrow.to_table == wide.to_table,
        collected(narrow).len() > 0,
        collected(narrow) == collected(wide),
        narrow.read_source_plan matches Some(source) && source.parts@.len() <= 1,
        wide.read_source_plan matches Some(source) && source.parts@.len() > 1,
        copy_outcome(local, CopyPlan::IntoTable(plan), narrow, local_id, next_id),
        copy_outcome(distributed, CopyPlan::IntoTable(plan), wide, local_id, next_id),
    ensures
        local is Ok,
        distributed is Ok,
        source_files(local->Ok_0.main_pipeline.pipes@) == source_files(
            distributed->Ok_0.main_pipeline.pipes@,
        ),
        committed_files(local->Ok_0.main_pipeline.pipes@) == committed_files(
            distributed->Ok_0.main_pipeline.pipes@,
        ),
        commit_count(local->Ok_0.main_pipeline.pipes@) == 1,
        commit_count(distributed->Ok_0.main_pipeline.pipes@) == 1,
        local->Ok_0.main_pipeline.pipes@[0] is ReadStageTable,
        distributed->Ok_0.main_pipeline.pipes@[0] is Exchange,
{
    lemma_distributed_commits_once(distributed, plan, wide, local_id, next_id);
    let pipes = local->Ok_0.main_pipeline.pipes@;
    lemma_two_pipes(pipes);
    assert(pipes[0].committed_files() + pipes[1].committed_files() =~= collected(narrow));
    assert(pipes[0].source_files() + pipes[1].source_files() =~= collected(narrow));
}

} // verus!
