use std::collections::HashMap;
use std::collections::VecDeque;

use dataflow_engine::context::QueryContext;
use dataflow_engine::datavalues::DataField;
use dataflow_engine::datavalues::DataSchema;
use dataflow_engine::datavalues::DataType;
use dataflow_engine::error::ErrorCode;
use dataflow_engine::error::ErrorKind;
use dataflow_engine::executor::PipelineExecutor;
use dataflow_engine::executor::Step;
use dataflow_engine::lane::Lane;
use dataflow_engine::lane::LaneStep;
use dataflow_engine::partition::IcebergPartInfo;
use dataflow_engine::table_source::icelake_failure;
use dataflow_engine::table_source::AsyncOutcome;
use dataflow_engine::table_source::AsyncRequest;

fn decode(batch: &String) -> Result<String, String> {
    if batch.starts_with("bad") {
        Err(format!("undecodable batch {batch}"))
    } else {
        Ok(batch.to_uppercase())
    }
}

type Stream = VecDeque<String>;
type Executor = PipelineExecutor<Stream, String, String>;

fn schema() -> DataSchema {
    DataSchema::new(vec![DataField::new("c", DataType::String)])
}

fn executor(lanes: usize) -> Executor {
    let mut executor = PipelineExecutor::create();
    for i in 0..lanes {
        assert_eq!(executor.add_source(schema(), schema()), i);
    }
    assert_eq!(executor.num_lanes(), lanes);
    executor
}

fn storage(files: &[(&str, &[&str])]) -> HashMap<String, Vec<String>> {
    files
        .iter()
        .map(|(path, batches)| (path.to_string(), batches.iter().map(|b| b.to_string()).collect()))
        .collect()
}

fn context(files: &[(&str, &[&str])]) -> QueryContext {
    let mut ctx = QueryContext::create("node");
    ctx.set_partitions(files.iter().map(|(path, _)| IcebergPartInfo::create(path, 1)).collect());
    ctx
}

fn perform(request: AsyncRequest<Stream>, storage: &HashMap<String, Vec<String>>) -> AsyncOutcome<Stream, String> {
    match request {
        AsyncRequest::Open { path } => match storage.get(&path) {
            Some(batches) => AsyncOutcome::Opened(batches.iter().cloned().collect()),
            None => AsyncOutcome::Failed(icelake_failure(&format!("NotFound({path})"))),
        },
        AsyncRequest::Fetch { mut stream } => match stream.pop_front() {
            Some(batch) => AsyncOutcome::Fetched(stream, batch),
            None => AsyncOutcome::EndOfStream,
        },
    }
}

/// Steps the pipeline until it is done, performing the I/O it asks for when
/// nothing else can run. Returns the number of steps.
fn drive(executor: &mut Executor, ctx: &mut QueryContext, storage: &HashMap<String, Vec<String>>) -> usize {
    let mut waiting: VecDeque<(usize, AsyncRequest<Stream>)> = VecDeque::new();
    let mut steps = 0;
    loop {
        steps += 1;
        assert!(steps < 10_000, "the pipeline hangs");
        match executor.step(ctx) {
            Step::Done => return steps,
            Step::Progress => {}
            Step::RunAsync(lane, request) => waiting.push_back((lane, request)),
            Step::RunSync(lane, stream, batch) => {
                assert!(executor.complete_sync(lane, stream, decode(&batch), ctx));
            }
            Step::Idle => {
                let (lane, request) = waiting.pop_front().expect("idle, and no I/O to wait for");
                assert!(executor.complete_async(lane, perform(request, storage), ctx));
            }
        }
    }
}

fn sorted(mut blocks: Vec<String>) -> Vec<String> {
    blocks.sort();
    blocks
}

#[test]
fn scan_pipeline_of_many_lanes() {
    let files: &[(&str, &[&str])] = &[("a", &["a1"]), ("b", &["b1", "b2"])];
    let mut executor: Executor = PipelineExecutor::scan(4, &schema(), &schema());
    assert_eq!(executor.num_lanes(), 4);
    let mut ctx = context(files);
    drive(&mut executor, &mut ctx, &storage(files));
    let blocks = executor.finish(&ctx).unwrap();
    assert_eq!(blocks.len(), 4);
    assert_eq!(blocks[0], vec!["A1"]);
    assert_eq!(blocks[1], vec!["B1", "B2"]);
    assert!(blocks[2].is_empty());
    assert!(blocks[3].is_empty());
}

#[test]
fn pipeline_without_lanes_is_done_at_once() {
    let mut executor = executor(0);
    let mut ctx = QueryContext::create("n");
    assert!(!executor.is_done());
    assert!(matches!(executor.step(&mut ctx), Step::Progress));
    assert!(matches!(executor.step(&mut ctx), Step::Done));
    assert!(executor.is_done());
    assert!(executor.finish(&ctx).unwrap().is_empty());
}

#[test]
fn every_batch_reaches_the_sink_once() {
    let files: &[(&str, &[&str])] =
        &[("a", &["a1", "a2", "a3"]), ("b", &[]), ("c", &["c1"]), ("d", &["d1", "d2"])];
    for lanes in 1..=5 {
        let mut executor = executor(lanes);
        let mut ctx = context(files);
        drive(&mut executor, &mut ctx, &storage(files));
        assert!(executor.is_done());
        let blocks = executor.finish(&ctx).unwrap();
        assert_eq!(blocks.len(), lanes);
        let all: Vec<String> = blocks.iter().flatten().cloned().collect();
        assert_eq!(sorted(all), vec!["A1", "A2", "A3", "C1", "D1", "D2"]);
    }
}

#[test]
fn blocks_of_one_lane_arrive_in_the_order_read() {
    let files: &[(&str, &[&str])] = &[("a", &["1", "2", "3"]), ("b", &["4", "5"])];
    let mut executor = executor(1);
    let mut ctx = context(files);
    drive(&mut executor, &mut ctx, &storage(files));
    assert_eq!(executor.finish(&ctx).unwrap(), vec![vec!["1", "2", "3", "4", "5"]]);
}

#[test]
fn without_partitions_nothing_is_produced() {
    let mut executor = executor(3);
    let mut ctx = context(&[]);
    drive(&mut executor, &mut ctx, &storage(&[]));
    assert_eq!(executor.finish(&ctx).unwrap(), vec![Vec::<String>::new(); 3]);
}

#[test]
fn decode_failure_drains_the_pipeline_and_comes_out_unchanged() {
    let files: &[(&str, &[&str])] =
        &[("a", &["a1", "a2"]), ("b", &["b1", "bad-batch", "b3"]), ("c", &["c1", "c2", "c3"])];
    let mut executor = executor(3);
    let mut ctx = context(files);
    drive(&mut executor, &mut ctx, &storage(files));
    assert!(executor.is_done());
    assert!(ctx.is_cancelled());
    let err = executor.finish(&ctx).unwrap_err();
    assert_eq!(err.kind(), ErrorKind::InputError);
    assert_eq!(
        err.message(),
        "Cannot convert arrow record batch to data block: undecodable batch bad-batch"
    );
}

#[test]
fn failed_io_drains_the_pipeline_and_comes_out_unchanged() {
    let files: &[(&str, &[&str])] = &[("a", &["a1"]), ("missing", &[])];
    let mut executor = executor(2);
    let mut ctx = context(files);
    drive(&mut executor, &mut ctx, &storage(&files[..1]));
    assert!(executor.is_done());
    let err = executor.finish(&ctx).unwrap_err();
    assert_eq!(err.kind(), ErrorKind::ResourceError);
    assert_eq!(err.message(), "icelake operation failed: NotFound(missing)");
}

#[test]
fn first_error_wins() {
    let mut executor = executor(2);
    let mut ctx = context(&[("x", &[]), ("y", &[])]);
    let first = match executor.step(&mut ctx) {
        Step::RunAsync(lane, _) => lane,
        other => panic!("unexpected {other:?}"),
    };
    let second = match executor.step(&mut ctx) {
        Step::RunAsync(lane, _) => lane,
        other => panic!("unexpected {other:?}"),
    };
    assert_eq!((first, second), (0, 1));
    let one = ErrorCode::create(ErrorKind::ResourceError, "one");
    let two = ErrorCode::create(ErrorKind::ResourceError, "two");
    assert!(executor.complete_async(second, AsyncOutcome::Failed(two), &mut ctx));
    assert!(executor.complete_async(first, AsyncOutcome::Failed(one), &mut ctx));
    assert!(matches!(executor.step(&mut ctx), Step::Done));
    assert_eq!(executor.finish(&ctx).unwrap_err().message(), "two");
}

#[test]
fn cancellation_finishes_everything_in_one_step() {
    let files: &[(&str, &[&str])] = &[("a", &["a1", "a2"]), ("b", &["b1"])];
    let mut executor = executor(2);
    let mut ctx = context(files);
    let mut waiting = Vec::new();
    for _ in 0..3 {
        if let Step::RunAsync(lane, request) = executor.step(&mut ctx) {
            waiting.push((lane, request));
        }
    }
    assert!(!executor.is_done());
    ctx.cancel();
    assert!(matches!(executor.step(&mut ctx), Step::Done));
    assert!(executor.is_done());
    // An outcome that comes in late is not taken.
    for (lane, request) in waiting {
        assert!(!executor.complete_async(lane, perform(request, &storage(files)), &mut ctx));
    }
    assert!(executor.is_done());
    let err = executor.finish(&ctx).unwrap_err();
    assert_eq!(err.kind(), ErrorKind::CancelledError);
    assert_eq!(err.message(), "query was cancelled");
}

#[test]
fn finish_before_the_end_is_an_internal_error() {
    let executor = executor(1);
    let ctx = context(&[("a", &["a1"])]);
    let err = executor.finish(&ctx).unwrap_err();
    assert_eq!(err.kind(), ErrorKind::InternalError);
    assert_eq!(err.message(), "pipeline is not finished");
}

#[test]
fn outcome_for_a_lane_that_waits_for_none_is_refused() {
    let mut executor = executor(1);
    let mut ctx = context(&[("a", &[])]);
    assert!(!executor.complete_async(0, AsyncOutcome::EndOfStream, &mut ctx));
    assert!(!executor.complete_async(5, AsyncOutcome::EndOfStream, &mut ctx));
    assert!(matches!(executor.step(&mut ctx), Step::RunAsync(0, AsyncRequest::Open { .. })));
    assert!(executor.complete_async(0, AsyncOutcome::Opened(VecDeque::new()), &mut ctx));
    assert!(!executor.complete_async(0, AsyncOutcome::EndOfStream, &mut ctx));
}

#[test]
fn idle_while_all_lanes_wait_for_io() {
    let mut executor = executor(2);
    let mut ctx = context(&[("a", &[]), ("b", &[])]);
    assert!(matches!(executor.step(&mut ctx), Step::RunAsync(0, _)));
    assert!(matches!(executor.step(&mut ctx), Step::RunAsync(1, _)));
    // The sink finds nothing and parks; after that nobody can be polled.
    assert!(matches!(executor.step(&mut ctx), Step::Progress));
    assert!(matches!(executor.step(&mut ctx), Step::Idle));
    assert!(matches!(executor.step(&mut ctx), Step::Idle));
    assert!(!executor.is_done());
}

#[test]
fn processors_take_turns() {
    let files: &[(&str, &[&str])] = &[("a", &["a1"]), ("b", &["b1"]), ("c", &["c1"])];
    let mut executor = executor(3);
    let mut ctx = context(files);
    let mut order = Vec::new();
    for _ in 0..3 {
        match executor.step(&mut ctx) {
            Step::RunAsync(lane, AsyncRequest::Open { path }) => order.push((lane, path)),
            other => panic!("unexpected {other:?}"),
        }
    }
    assert_eq!(
        order,
        vec![(0, "a".to_string()), (1, "b".to_string()), (2, "c".to_string())]
    );
}

fn lane_with_pending_batch(ctx: &mut QueryContext, batch: &str) -> Lane<Stream, String, String> {
    let mut lane: Lane<Stream, String, String> = Lane::create(schema(), schema());
    assert!(matches!(lane.poll(ctx), LaneStep::RunAsync(AsyncRequest::Open { .. })));
    assert!(lane.is_pending());
    assert!(!lane.is_computing());
    assert!(lane.complete_async(AsyncOutcome::Opened(VecDeque::new())));
    assert!(matches!(lane.poll(ctx), LaneStep::RunAsync(AsyncRequest::Fetch { .. })));
    assert!(lane.complete_async(AsyncOutcome::Fetched(VecDeque::new(), batch.to_string())));
    assert!(lane.is_queued());
    lane
}

fn hand_out(lane: &mut Lane<Stream, String, String>, ctx: &mut QueryContext) -> (Stream, String) {
    match lane.poll(ctx) {
        LaneStep::RunSync(stream, batch) => (stream, batch),
        other => panic!("expected a batch to decode, got {other:?}"),
    }
}

#[test]
fn a_parked_lane_is_not_polled_until_the_port_is_drained() {
    let mut ctx = context(&[("a", &[])]);
    let mut lane = lane_with_pending_batch(&mut ctx, "one");
    // The batch is handed out to be decoded; the lane waits for the block.
    let (stream, batch) = hand_out(&mut lane, &mut ctx);
    assert_eq!(batch, "one");
    assert!(lane.is_computing());
    assert!(matches!(lane.poll(&mut ctx), LaneStep::Skipped));
    assert!(!lane.has_data());
    assert!(lane.complete_sync(stream, decode(&batch)));
    assert!(lane.has_data());
    assert!(lane.is_queued());
    // The port is full: the lane parks, and is skipped from now on.
    assert!(matches!(lane.poll(&mut ctx), LaneStep::Parked));
    assert!(matches!(lane.poll(&mut ctx), LaneStep::Skipped));
    assert!(matches!(lane.poll(&mut ctx), LaneStep::Skipped));
    assert!(!lane.is_queued());
    // The drain wakes it.
    assert!(lane.pull());
    assert!(lane.is_queued());
    assert!(!lane.pull());
    assert!(matches!(lane.poll(&mut ctx), LaneStep::RunAsync(AsyncRequest::Fetch { .. })));
    assert!(lane.complete_async(AsyncOutcome::Fetched(VecDeque::new(), "two".to_string())));
    let (stream, batch) = hand_out(&mut lane, &mut ctx);
    assert!(lane.complete_sync(stream, decode(&batch)));
    assert!(lane.pull());
    assert_eq!(lane.num_received(), 2);
    assert!(!lane.is_aborted());
    assert_eq!(lane.into_received(), vec!["ONE", "TWO"]);
}

#[test]
fn a_lane_that_waits_for_io_is_skipped() {
    let mut ctx = context(&[("a", &[])]);
    let mut lane: Lane<Stream, String, String> = Lane::create(schema(), schema());
    assert!(matches!(lane.poll(&mut ctx), LaneStep::RunAsync(_)));
    assert!(matches!(lane.poll(&mut ctx), LaneStep::Skipped));
    assert!(lane.error().is_none());
    assert!(!lane.is_port_finished());
    // It waits for I/O, not for a block.
    assert!(!lane.complete_sync(VecDeque::new(), Ok("X".to_string())));
    assert!(!lane.has_data());
}

#[test]
fn a_cancelled_lane_finishes_whatever_it_waits_for() {
    let mut ctx = context(&[("a", &[])]);
    let mut lane = lane_with_pending_batch(&mut ctx, "one");
    let (stream, batch) = hand_out(&mut lane, &mut ctx);
    ctx.cancel();
    assert!(matches!(lane.poll(&mut ctx), LaneStep::Finished));
    assert!(lane.is_finished());
    assert!(lane.is_aborted());
    assert!(lane.is_port_finished());
    assert!(!lane.complete_sync(stream, decode(&batch)));
    assert!(!lane.complete_async(AsyncOutcome::EndOfStream));
    assert!(!lane.has_data());
    assert!(matches!(lane.poll(&mut ctx), LaneStep::Finished));
}

#[test]
fn a_lane_that_fails_to_decode_finishes_with_the_error() {
    let mut ctx = context(&[("a", &[])]);
    let mut lane = lane_with_pending_batch(&mut ctx, "bad");
    let (stream, batch) = hand_out(&mut lane, &mut ctx);
    assert!(lane.complete_sync(stream, decode(&batch)));
    assert!(lane.is_aborted());
    {
        let err = lane.error().unwrap();
        assert_eq!(err.kind(), ErrorKind::InputError);
        assert_eq!(
            err.message(),
            "Cannot convert arrow record batch to data block: undecodable batch bad"
        );
    }
    assert!(matches!(lane.poll(&mut ctx), LaneStep::Finished));
    assert!(lane.is_finished());
}

#[test]
fn a_block_for_a_lane_that_waits_for_none_is_refused() {
    let mut executor = executor(1);
    let mut ctx = context(&[("a", &["a1"])]);
    assert!(!executor.complete_sync(0, VecDeque::new(), Ok("X".to_string()), &mut ctx));
    assert!(!executor.complete_sync(3, VecDeque::new(), Ok("X".to_string()), &mut ctx));
    drive(&mut executor, &mut ctx, &storage(&[("a", &["a1"])]));
    assert_eq!(executor.finish(&ctx).unwrap(), vec![vec!["A1"]]);
}

#[test]
fn the_sink_is_woken_for_a_decoded_block() {
    let files: &[(&str, &[&str])] = &[("a", &["a1"])];
    let mut executor = executor(1);
    let mut ctx = context(files);
    let store = storage(files);
    // Open, park the sink, fetch.
    let open = match executor.step(&mut ctx) {
        Step::RunAsync(0, request) => request,
        other => panic!("unexpected {other:?}"),
    };
    assert!(matches!(executor.step(&mut ctx), Step::Progress));
    assert!(matches!(executor.step(&mut ctx), Step::Idle));
    assert!(executor.complete_async(0, perform(open, &store), &mut ctx));
    let fetch = match executor.step(&mut ctx) {
        Step::RunAsync(0, request) => request,
        other => panic!("unexpected {other:?}"),
    };
    assert!(executor.complete_async(0, perform(fetch, &store), &mut ctx));
    // The poll of the lane woke the sink: it has its turn, and parks again.
    assert!(matches!(executor.step(&mut ctx), Step::Progress));
    let (stream, batch) = match executor.step(&mut ctx) {
        Step::RunSync(0, stream, batch) => (stream, batch),
        other => panic!("unexpected {other:?}"),
    };
    assert_eq!(batch, "a1");
    // Once the sink has parked again, nobody can be polled while the batch
    // is out.
    assert!(matches!(executor.step(&mut ctx), Step::Progress));
    assert!(matches!(executor.step(&mut ctx), Step::Idle));
    assert!(matches!(executor.step(&mut ctx), Step::Idle));
    assert!(executor.complete_sync(0, stream, decode(&batch), &mut ctx));
    drive(&mut executor, &mut ctx, &store);
    assert_eq!(executor.finish(&ctx).unwrap(), vec![vec!["A1"]]);
}
