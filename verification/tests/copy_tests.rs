use dataflow_engine::context::QueryContext;
use dataflow_engine::datavalues::DataField;
use dataflow_engine::datavalues::DataSchema;
use dataflow_engine::datavalues::DataType;
use dataflow_engine::datavalues::Scalar;
use dataflow_engine::error::ErrorKind;
use dataflow_engine::interpreter_copy::CopyInputs;
use dataflow_engine::interpreter_copy::CopyInterpreter;
use dataflow_engine::interpreter_copy::CopyRequest;
use dataflow_engine::interpreter_copy::CopyStep;
use dataflow_engine::partition::PartInfo;
use dataflow_engine::partition::StageFileInfo;
use dataflow_engine::pipeline::Pipe;
use dataflow_engine::pipeline::Pipeline;
use dataflow_engine::pipeline::PipelineBuildResult;
use dataflow_engine::plan::AppendMode;
use dataflow_engine::plan::BlockThresholds;
use dataflow_engine::plan::ColumnBinding;
use dataflow_engine::plan::CopyIntoTableMode;
use dataflow_engine::plan::CopyIntoTablePlan;
use dataflow_engine::plan::CopyPlan;
use dataflow_engine::plan::DataSourcePlan;
use dataflow_engine::plan::FragmentKind;
use dataflow_engine::plan::PhysicalPlan;
use dataflow_engine::plan::PlanIds;
use dataflow_engine::plan::QueryPlan;
use dataflow_engine::plan::StageFilesInfo;
use dataflow_engine::plan::StageInfo;
use dataflow_engine::plan::StageTableInfo;
use dataflow_engine::plan::Table;
use dataflow_engine::plan::TableInfo;
use dataflow_engine::plan::ValidationMode;
use dataflow_engine::text::with_count;

fn thresholds() -> BlockThresholds {
    BlockThresholds { max_rows_per_block: 1000, min_rows_per_block: 800, max_bytes_per_block: 1 << 20 }
}

fn table() -> Table {
    Table { info: TableInfo { table_id: 17, name: "t".to_string() }, block_thresholds: thresholds() }
}

fn schema(names: &[&str]) -> DataSchema {
    DataSchema::new(names.iter().map(|n| DataField::new(n, DataType::Int64)).collect())
}

fn stage_table(files_to_copy: Option<Vec<StageFileInfo>>) -> StageTableInfo {
    StageTableInfo {
        schema: schema(&["a", "b"]),
        stage_info: StageInfo { stage_name: "s1".to_string(), purge: true },
        files_info: StageFilesInfo { path: "in/".to_string(), files: None, pattern: Some(".*".to_string()) },
        files_to_copy,
        is_select: false,
    }
}

fn table_plan(enable_distributed: bool, query: Option<QueryPlan>) -> CopyIntoTablePlan {
    CopyIntoTablePlan {
        catalog_name: "default".to_string(),
        database_name: "db".to_string(),
        table_name: "t".to_string(),
        required_values_schema: schema(&["a", "b"]),
        values_consts: vec![Scalar::Int64(-5), Scalar::String(b"dflt".to_vec())],
        required_source_schema: schema(&["a", "b"]),
        write_mode: CopyIntoTableMode::Insert { overwrite: true },
        validation_mode: ValidationMode::Load,
        force: false,
        stage_table_info: stage_table(None),
        query,
        enable_distributed,
    }
}

fn query() -> QueryPlan {
    QueryPlan {
        columns: vec![
            ColumnBinding { column_name: "x".to_string(), data_type: DataType::UInt8 },
            ColumnBinding { column_name: "y".to_string(), data_type: DataType::String },
        ],
    }
}

fn files(n: usize) -> Vec<StageFileInfo> {
    (0..n).map(|i| StageFileInfo::new(&format!("in/{i}.csv"), 100 + i as u64)).collect()
}

fn read_plan(parts: usize) -> DataSourcePlan {
    DataSourcePlan {
        catalog: "default".to_string(),
        parts: (0..parts).map(|i| PartInfo::Stage(StageFileInfo::new(&format!("in/{i}.csv"), 100 + i as u64))).collect(),
    }
}

fn interpreter(plan: CopyPlan) -> CopyInterpreter {
    CopyInterpreter::try_create(QueryContext::create("node-7"), plan).unwrap()
}

fn no_inputs() -> CopyInputs {
    CopyInputs { duplicate_label: None, to_table: None, files: None, read_source_plan: None }
}

/// Runs the interpreter, answering its requests from the arguments, and
/// returns what it built together with the requests it made.
fn run(
    interpreter: &mut CopyInterpreter,
    duplicate: bool,
    stage_files: Vec<StageFileInfo>,
    parts: usize,
) -> (Result<PipelineBuildResult, dataflow_engine::error::ErrorCode>, Vec<CopyRequest>) {
    let mut inputs = no_inputs();
    let mut asked = Vec::new();
    loop {
        match interpreter.execute2(inputs) {
            CopyStep::Done(res) => return (res, asked),
            CopyStep::Need(request, back) => {
                assert!(asked.len() < 4, "the interpreter asks for each thing once");
                asked.push(request);
                inputs = back;
                match request {
                    CopyRequest::CheckDeduplicateLabel => inputs.duplicate_label = Some(duplicate),
                    CopyRequest::GetTable => inputs.to_table = Some(table()),
                    CopyRequest::CollectFiles => inputs.files = Some(stage_files.clone()),
                    CopyRequest::ReadPlan => inputs.read_source_plan = Some(read_plan(parts)),
                }
            }
        }
    }
}

fn commits(pipeline: &Pipeline) -> usize {
    pipeline
        .pipes
        .iter()
        .filter(|p| {
            matches!(p, Pipe::CommitInsertion { .. })
                || matches!(p, Pipe::AppendDataWithFinish { use_commit: true, .. })
        })
        .count()
}

fn committed(pipeline: &Pipeline) -> Vec<(String, u64)> {
    let mut out = Vec::new();
    for pipe in &pipeline.pipes {
        match pipe {
            Pipe::CommitInsertion { copied_files, .. } => {
                out.extend(copied_files.iter().map(|f| (f.path.clone(), f.size)))
            }
            Pipe::AppendDataWithFinish { files, use_commit: true, .. } => {
                out.extend(files.iter().map(|f| (f.path.clone(), f.size)))
            }
            _ => {}
        }
    }
    out
}

fn names(files: &[StageFileInfo]) -> Vec<(String, u64)> {
    files.iter().map(|f| (f.path.clone(), f.size)).collect()
}

#[test]
fn interpreter_name_and_status() {
    let mut it = interpreter(CopyPlan::NoFileToCopy);
    assert_eq!(it.name(), "CopyInterpreterV2");
    assert_eq!(it.status(), "");
    it.set_status("begin to read stage source plan");
    assert_eq!(it.status(), "begin to read stage source plan");
}

#[test]
fn statement_that_already_ran_builds_nothing() {
    let mut it = interpreter(CopyPlan::IntoTable(table_plan(true, None)));
    let (res, asked) = run(&mut it, true, files(4), 4);
    let build = res.unwrap();
    assert!(build.main_pipeline.is_empty());
    assert!(build.sources_pipelines.is_empty());
    assert_eq!(asked, vec![CopyRequest::CheckDeduplicateLabel]);
}

#[test]
fn no_file_to_copy_builds_nothing() {
    let mut it = interpreter(CopyPlan::NoFileToCopy);
    let (res, asked) = run(&mut it, false, files(4), 4);
    assert!(res.unwrap().main_pipeline.is_empty());
    assert_eq!(asked, vec![CopyRequest::CheckDeduplicateLabel]);
}

#[test]
fn empty_file_set_is_a_noop_without_commit() {
    for distributed in [false, true] {
        let mut it = interpreter(CopyPlan::IntoTable(table_plan(distributed, None)));
        let (res, asked) = run(&mut it, false, files(0), 4);
        let build = res.unwrap();
        assert!(build.main_pipeline.is_empty());
        assert_eq!(commits(&build.main_pipeline), 0);
        assert_eq!(
            asked,
            vec![CopyRequest::CheckDeduplicateLabel, CopyRequest::GetTable, CopyRequest::CollectFiles]
        );
    }
}

#[test]
fn one_file_takes_the_local_path() {
    let mut it = interpreter(CopyPlan::IntoTable(table_plan(true, None)));
    let (res, asked) = run(&mut it, false, files(1), 1);
    let build = res.unwrap();
    assert_eq!(
        asked,
        vec![
            CopyRequest::CheckDeduplicateLabel,
            CopyRequest::GetTable,
            CopyRequest::CollectFiles,
            CopyRequest::ReadPlan
        ]
    );
    assert_eq!(build.main_pipeline.pipes.len(), 2);
    match &build.main_pipeline.pipes[0] {
        Pipe::ReadStageTable { stage_table_info, read_source_plan, block_thresholds } => {
            assert_eq!(names(stage_table_info.files_to_copy.as_ref().unwrap()), names(&files(1)));
            assert_eq!(stage_table_info.stage_info.stage_name, "s1");
            assert_eq!(stage_table_info.files_info.path, "in/");
            assert_eq!(read_source_plan.parts.len(), 1);
            assert_eq!(*block_thresholds, thresholds());
        }
        other => panic!("expected a scan, got {other:?}"),
    }
    match &build.main_pipeline.pipes[1] {
        Pipe::AppendDataWithFinish { source_schema, plan, to_table, files: copied, use_commit } => {
            assert_eq!(source_schema.num_fields(), 2);
            assert_eq!(plan.table_name, "t");
            assert_eq!(plan.database_name, "db");
            assert_eq!(plan.write_mode, CopyIntoTableMode::Insert { overwrite: true });
            assert_eq!(plan.values_consts.len(), 2);
            assert!(plan.enable_distributed);
            assert!(plan.query.is_none());
            assert_eq!(to_table.table_id, 17);
            assert_eq!(names(copied), names(&files(1)));
            assert!(*use_commit);
        }
        other => panic!("expected an append, got {other:?}"),
    }
    assert_eq!(commits(&build.main_pipeline), 1);
    assert_eq!(it.status(), "begin to read stage table data, parts:1");
}

#[test]
fn four_files_in_four_partitions_take_the_distributed_path() {
    let mut it = interpreter(CopyPlan::IntoTable(table_plan(true, None)));
    let (res, _) = run(&mut it, false, files(4), 4);
    let build = res.unwrap();
    assert_eq!(build.main_pipeline.pipes.len(), 2);
    match &build.main_pipeline.pipes[0] {
        Pipe::Exchange(PhysicalPlan::Exchange(exchange)) => {
            assert_eq!(exchange.plan_id, 1);
            assert_eq!(exchange.kind, FragmentKind::Merge);
            assert!(exchange.keys.is_empty());
            match exchange.input.as_ref() {
                PhysicalPlan::DistributedCopyIntoTable(d) => {
                    assert_eq!(d.plan_id, 0);
                    assert_ne!(d.plan_id, exchange.plan_id);
                    assert!(matches!(d.values_consts[0], Scalar::Int64(-5)));
                    match &d.values_consts[1] {
                        Scalar::String(bytes) => assert_eq!(bytes, b"dflt"),
                        other => panic!("expected a string, got {other:?}"),
                    }
                    assert_eq!(d.values_consts.len(), 2);
                    assert_eq!(d.catalog_name, "default");
                    assert_eq!(d.database_name, "db");
                    assert_eq!(d.table_name, "t");
                    assert_eq!(d.required_source_schema.num_fields(), 2);
                    assert_eq!(d.write_mode, CopyIntoTableMode::Insert { overwrite: true });
                    assert_eq!(d.validation_mode, ValidationMode::Load);
                    assert!(!d.force);
                    assert_eq!(d.stage_table_info.stage_info.stage_name, "s1");
                    assert!(d.stage_table_info.files_to_copy.is_none());
                    assert_eq!(d.source.parts.len(), 4);
                    assert_eq!(d.thresholds, thresholds());
                    assert_eq!(names(&d.files), names(&files(4)));
                    assert_eq!(d.table_info.table_id, 17);
                    assert_eq!(d.local_node_id, "node-7");
                }
                other => panic!("expected a distributed copy, got {other:?}"),
            }
        }
        other => panic!("expected an exchange, got {other:?}"),
    }
    match &build.main_pipeline.pipes[1] {
        Pipe::CommitInsertion { table_info, stage_info, copied_files, force, overwrite } => {
            assert_eq!(table_info.table_id, 17);
            assert!(stage_info.purge);
            assert_eq!(names(copied_files), names(&files(4)));
            assert!(!*force);
            assert!(*overwrite);
        }
        other => panic!("expected a commit, got {other:?}"),
    }
    assert_eq!(commits(&build.main_pipeline), 1);
    assert_eq!(it.status(), "");
}

#[test]
fn local_and_distributed_commit_the_same_files() {
    let mut local = interpreter(CopyPlan::IntoTable(table_plan(true, None)));
    let (local_build, _) = run(&mut local, false, files(4), 1);
    let mut distributed = interpreter(CopyPlan::IntoTable(table_plan(true, None)));
    let (distributed_build, _) = run(&mut distributed, false, files(4), 4);
    let local_build = local_build.unwrap();
    let distributed_build = distributed_build.unwrap();
    assert!(matches!(local_build.main_pipeline.pipes[0], Pipe::ReadStageTable { .. }));
    assert!(matches!(distributed_build.main_pipeline.pipes[0], Pipe::Exchange(_)));
    assert_eq!(committed(&local_build.main_pipeline), committed(&distributed_build.main_pipeline));
    assert_eq!(committed(&local_build.main_pipeline), names(&files(4)));
    assert_eq!(commits(&local_build.main_pipeline), 1);
    assert_eq!(commits(&distributed_build.main_pipeline), 1);
}

#[test]
fn commit_count_does_not_grow_with_the_partitions() {
    for parts in [2usize, 3, 16, 100] {
        let mut it = interpreter(CopyPlan::IntoTable(table_plan(true, None)));
        let (res, _) = run(&mut it, false, files(parts), parts);
        assert_eq!(commits(&res.unwrap().main_pipeline), 1);
    }
}

#[test]
fn a_plan_that_may_not_leave_stays_local() {
    let mut it = interpreter(CopyPlan::IntoTable(table_plan(false, None)));
    let mut inputs = no_inputs();
    inputs.duplicate_label = Some(false);
    inputs.to_table = Some(table());
    inputs.files = Some(files(4));
    match it.execute2(inputs) {
        CopyStep::Need(CopyRequest::ReadPlan, back) => inputs = back,
        other => panic!("expected a request for the read plan, got {other:?}"),
    }
    assert_eq!(it.status(), "begin to read stage source plan");
    inputs.read_source_plan = Some(read_plan(4));
    match it.execute2(inputs) {
        CopyStep::Done(Ok(build)) => {
            assert!(matches!(build.main_pipeline.pipes[0], Pipe::ReadStageTable { .. }));
            assert_eq!(commits(&build.main_pipeline), 1);
        }
        other => panic!("expected a pipeline, got {other:?}"),
    }
    assert_eq!(it.status(), "begin to read stage table data, parts:4");
}

#[test]
fn copy_from_a_query_commits_the_files_the_plan_names() {
    let mut plan = table_plan(false, Some(query()));
    plan.stage_table_info = stage_table(Some(files(2)));
    plan.write_mode = CopyIntoTableMode::Copy;
    let mut it = interpreter(CopyPlan::IntoTable(plan));
    let (res, asked) = run(&mut it, false, files(9), 9);
    assert_eq!(asked, vec![CopyRequest::CheckDeduplicateLabel, CopyRequest::GetTable]);
    let build = res.unwrap();
    assert_eq!(build.main_pipeline.pipes.len(), 2);
    assert!(matches!(build.main_pipeline.pipes[0], Pipe::Select));
    match &build.main_pipeline.pipes[1] {
        Pipe::AppendDataWithFinish { source_schema, files: copied, use_commit, .. } => {
            assert_eq!(source_schema.num_fields(), 2);
            assert_eq!(source_schema.fields[0].name(), "x");
            assert_eq!(source_schema.fields[0].data_type(), DataType::UInt8);
            assert_eq!(source_schema.fields[1].name(), "y");
            assert_eq!(source_schema.fields[1].data_type(), DataType::String);
            assert_eq!(names(copied), names(&files(2)));
            assert!(*use_commit);
        }
        other => panic!("expected an append, got {other:?}"),
    }
}

#[test]
fn copy_from_a_query_without_files_to_copy_is_an_internal_error() {
    let mut it = interpreter(CopyPlan::IntoTable(table_plan(false, Some(query()))));
    let (res, _) = run(&mut it, false, files(1), 1);
    let err = res.unwrap_err();
    assert_eq!(err.kind(), ErrorKind::InternalError);
    assert_eq!(err.message(), "files_to_copy should not be None");
}

#[test]
fn local_copy_without_a_read_plan_is_an_internal_error() {
    let mut ctx = QueryContext::create("n");
    let res = CopyInterpreter::build_local_copy_into_table_pipeline(
        &mut ctx,
        &table_plan(false, None),
        &table(),
        files(2),
        None,
    );
    let err = res.unwrap_err();
    assert_eq!(err.kind(), ErrorKind::InternalError);
    assert_eq!(err.message(), "read_source_plan should not be None");
}

#[test]
fn copy_into_stage_appends_the_query_result() {
    let plan = CopyPlan::IntoStage {
        stage: StageInfo { stage_name: "out".to_string(), purge: false },
        path: "dir/".to_string(),
        validation_mode: ValidationMode::Load,
        from: query(),
    };
    let mut it = interpreter(plan);
    let (res, asked) = run(&mut it, false, files(3), 3);
    assert_eq!(asked, vec![CopyRequest::CheckDeduplicateLabel]);
    let build = res.unwrap();
    assert_eq!(build.main_pipeline.pipes.len(), 2);
    assert!(matches!(build.main_pipeline.pipes[0], Pipe::Select));
    match &build.main_pipeline.pipes[1] {
        Pipe::AppendToTable { stage_table_info, source_schema, overwrite, mode } => {
            assert_eq!(stage_table_info.stage_info.stage_name, "out");
            assert_eq!(stage_table_info.files_info.path, "dir/");
            assert!(stage_table_info.files_info.files.is_none());
            assert!(stage_table_info.files_info.pattern.is_none());
            assert!(stage_table_info.files_to_copy.is_none());
            assert!(!stage_table_info.is_select);
            assert_eq!(stage_table_info.schema.num_fields(), 2);
            assert_eq!(source_schema.fields[1].name(), "y");
            assert!(!*overwrite);
            assert_eq!(*mode, AppendMode::Normal);
        }
        other => panic!("expected an append, got {other:?}"),
    }
    assert_eq!(commits(&build.main_pipeline), 0);
}

#[test]
fn transform_stays_local_for_no_files_and_for_one_partition() {
    let ctx = QueryContext::create("here");
    let mut ids = PlanIds::new();
    let plan = table_plan(true, None);
    let t = table();
    assert!(CopyInterpreter::try_transform_copy_plan_from_local_to_distributed(
        &ctx, &mut ids, &plan, &t, &files(0), &read_plan(5)
    )
    .is_none());
    assert!(CopyInterpreter::try_transform_copy_plan_from_local_to_distributed(
        &ctx, &mut ids, &plan, &t, &files(3), &read_plan(0)
    )
    .is_none());
    assert!(CopyInterpreter::try_transform_copy_plan_from_local_to_distributed(
        &ctx, &mut ids, &plan, &t, &files(3), &read_plan(1)
    )
    .is_none());
    // A copy that stays takes no identifier.
    assert_eq!(ids.next, 0);
    let d = CopyInterpreter::try_transform_copy_plan_from_local_to_distributed(
        &ctx, &mut ids, &plan, &t, &files(3), &read_plan(2),
    )
    .unwrap();
    assert_eq!(d.plan_id, 0);
    assert_eq!(ids.next, 1);
    assert_eq!(d.local_node_id, "here");
    assert_eq!(d.source.parts.len(), 2);
    assert_eq!(names(&d.files), names(&files(3)));
}

#[test]
fn overwrite_comes_from_the_insert_mode_only() {
    for (mode, expected) in [
        (CopyIntoTableMode::Insert { overwrite: true }, true),
        (CopyIntoTableMode::Insert { overwrite: false }, false),
        (CopyIntoTableMode::Replace, false),
        (CopyIntoTableMode::Copy, false),
    ] {
        let ctx = QueryContext::create("here");
        let mut ids = PlanIds::new();
        let mut plan = table_plan(true, None);
        plan.write_mode = mode;
        plan.force = true;
        let d = CopyInterpreter::try_transform_copy_plan_from_local_to_distributed(
            &ctx, &mut ids, &plan, &table(), &files(2), &read_plan(2),
        )
        .unwrap();
        let build = CopyInterpreter::build_distributed_copy_into_table_pipeline(&mut ids, d);
        match &build.main_pipeline.pipes[1] {
            Pipe::CommitInsertion { overwrite, force, .. } => {
                assert_eq!(*overwrite, expected);
                assert!(*force);
            }
            other => panic!("expected a commit, got {other:?}"),
        }
    }
}

#[test]
fn read_stage_pipeline_reports_the_partitions() {
    let mut ctx = QueryContext::create("n");
    let mut pipeline = Pipeline::create();
    CopyInterpreter::build_read_stage_table_data_pipeline(
        &mut ctx,
        &mut pipeline,
        &table_plan(false, None),
        thresholds(),
        files(12),
        read_plan(12),
    );
    assert_eq!(pipeline.pipes.len(), 1);
    assert_eq!(ctx.get_status_info(), "begin to read stage table data, parts:12");
}

#[test]
fn purge_reports_the_number_of_files() {
    let mut ctx = QueryContext::create("n");
    let stage = StageInfo { stage_name: "s".to_string(), purge: true };
    assert_eq!(CopyInterpreter::try_purge_files(&mut ctx, &stage, &files(0)), 0);
    assert_eq!(ctx.get_status_info(), "begin to purge files:0");
    assert_eq!(CopyInterpreter::try_purge_files(&mut ctx, &stage, &files(105)), 105);
    assert_eq!(ctx.get_status_info(), "begin to purge files:105");
}

#[test]
fn build_query_names_the_columns() {
    let (build, schema) = CopyInterpreter::build_query(&query());
    assert_eq!(build.main_pipeline.pipes.len(), 1);
    assert!(matches!(build.main_pipeline.pipes[0], Pipe::Select));
    assert_eq!(schema.num_fields(), 2);
    assert_eq!(schema.fields[0].name(), "x");
    assert_eq!(schema.fields[1].data_type(), DataType::String);
}

#[test]
fn decimal_text_of_counts() {
    assert_eq!(with_count("n=", 0), "n=0");
    assert_eq!(with_count("n=", 7), "n=7");
    assert_eq!(with_count("n=", 10), "n=10");
    assert_eq!(with_count("", 9081726354), "9081726354");
    assert_eq!(with_count("x", usize::MAX), format!("x{}", usize::MAX));
}

fn plan_ids_of(build: &PipelineBuildResult) -> (u32, u32) {
    match &build.main_pipeline.pipes[0] {
        Pipe::Exchange(PhysicalPlan::Exchange(exchange)) => match exchange.input.as_ref() {
            PhysicalPlan::DistributedCopyIntoTable(d) => (exchange.plan_id, d.plan_id),
            other => panic!("expected a distributed copy, got {other:?}"),
        },
        other => panic!("expected an exchange, got {other:?}"),
    }
}

#[test]
fn plan_ids_are_handed_out_in_turn() {
    let mut ids = PlanIds::new();
    assert_eq!(ids.allocate(), 0);
    assert_eq!(ids.allocate(), 1);
    assert_eq!(ids.allocate_other_than(7), 2);
    assert_eq!(ids.allocate_other_than(3), 4);
    assert_eq!(ids.next, 5);
    let mut last = PlanIds { next: u32::MAX };
    assert_eq!(last.allocate(), u32::MAX);
    assert_eq!(last.next, 0);
    let mut last = PlanIds { next: u32::MAX };
    assert_eq!(last.allocate_other_than(u32::MAX), 0);
    assert_eq!(last.next, 1);
}

#[test]
fn the_exchange_never_shares_the_id_of_what_it_wraps() {
    for next in [0u32, 1, 5, 6, u32::MAX - 1, u32::MAX] {
        let ctx = QueryContext::create("here");
        // The descriptor has the identifier 5, wherever the source stands.
        let mut five = PlanIds { next: 5 };
        let d = CopyInterpreter::try_transform_copy_plan_from_local_to_distributed(
            &ctx, &mut five, &table_plan(true, None), &table(), &files(2), &read_plan(2),
        )
        .unwrap();
        let mut ids = PlanIds { next };
        let build = CopyInterpreter::build_distributed_copy_into_table_pipeline(&mut ids, d);
        let (exchange_id, descriptor_id) = plan_ids_of(&build);
        assert_eq!(descriptor_id, 5);
        assert_ne!(exchange_id, descriptor_id);
        assert_eq!(exchange_id, if next == 5 { 6 } else { next });
    }
}

#[test]
fn a_second_statement_goes_on_with_the_ids() {
    let mut it = interpreter(CopyPlan::IntoTable(table_plan(true, None)));
    let (first, _) = run(&mut it, false, files(4), 4);
    assert_eq!(plan_ids_of(&first.unwrap()), (1, 0));
    let (second, _) = run(&mut it, false, files(4), 4);
    assert_eq!(plan_ids_of(&second.unwrap()), (3, 2));
    // A copy that stays on this node takes none.
    let (local, _) = run(&mut it, false, files(4), 1);
    assert!(matches!(local.unwrap().main_pipeline.pipes[0], Pipe::ReadStageTable { .. }));
    let (third, _) = run(&mut it, false, files(4), 4);
    assert_eq!(plan_ids_of(&third.unwrap()), (5, 4));
}
