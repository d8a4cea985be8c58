//! The scan processor of an iceberg table: it takes partitions from the
//! query, opens each as a stream of batches, and pushes the batches, decoded,
//! into its output port, one at a time.
//!
//! The processor never waits. Whatever takes time (opening a data file,
//! fetching the next batch) is asked of the caller, who hands the outcome
//! back. So is the decoding of a batch, which is the work of whoever knows
//! what a batch is: the processor hands the batch out and takes the block.

use vstd::prelude::*;
use vstd::string::*;
use crate::context::QueryContext;
use crate::datavalues::DataSchema;
use crate::error::ErrorCode;
use crate::error::ErrorKind;
use crate::partition::IcebergPartInfo;
use crate::partition::PartInfo;
use crate::port::Port;
use crate::port::PortState;
use crate::processor::Event;

verus! {

/// Where a scan processor is. `S` is an open stream of batches, `B` a batch.
#[derive(Debug)]
pub enum State<S, B> {
    /// Between data files: with the partition to open next, or without one.
    ReadMeta(Option<PartInfo>),
    /// Inside a data file: the open stream, and the batch that was fetched and
    /// not pushed yet, if there is one.
    ReadData(S, Option<B>),
    /// Done, or in the middle of a step that waits for I/O.
    Finish,
}

/// The I/O that a scan processor asks for.
#[derive(Debug)]
pub enum AsyncRequest<S> {
    /// Open the data file at `path` as a stream of batches.
    Open { path: String },
    /// Fetch the next batch of `stream`.
    Fetch { stream: S },
}

/// How the I/O that a scan processor asked for ended.
#[derive(Debug)]
pub enum AsyncOutcome<S, B> {
    /// The data file is open.
    Opened(S),
    /// The stream yielded a batch.
    Fetched(S, B),
    /// The stream has no more batches.
    EndOfStream,
    /// Opening or fetching failed.
    Failed(ErrorCode),
}

/// The state of a processor that was between data files once it looked for a
/// partition: the first one that is left, and done if none is.
pub open spec fn refill<S, B>(state: State<S, B>, partitions: Seq<PartInfo>) -> State<S, B> {
    match state {
        State::ReadMeta(None) => if partitions.len() == 0 {
            State::Finish
        } else {
            State::ReadMeta(Some(partitions[0]))
        },
        _ => state,
    }
}

/// The partitions that are left once a processor in `state` looked for one.
pub open spec fn partitions_left<S, B>(state: State<S, B>, partitions: Seq<PartInfo>) -> Seq<
    PartInfo,
> {
    match state {
        State::ReadMeta(None) => if partitions.len() == 0 {
            partitions
        } else {
            partitions.drop_first()
        },
        _ => partitions,
    }
}

/// The I/O that a processor in `state` asks for, and none where asking is a
/// bug: the data file of an iceberg partition is to be opened, and inside a
/// data file with nothing pending the next batch is to be fetched.
pub open spec fn request_for<S, B>(state: State<S, B>) -> Option<AsyncRequest<S>> {
    match state {
        State::ReadMeta(Some(PartInfo::Iceberg(part))) => Some(
            AsyncRequest::Open { path: part.path },
        ),
        State::ReadData(stream, None) => Some(AsyncRequest::Fetch { stream }),
        _ => None,
    }
}

/// The state that the outcome of a step of I/O puts a processor into: inside
/// the data file that was opened, with the batch that was fetched pending,
/// between data files at the end of a stream, and done after a failure.
pub open spec fn state_after<S, B>(outcome: AsyncOutcome<S, B>) -> State<S, B> {
    match outcome {
        AsyncOutcome::Opened(stream) => State::ReadData(stream, None),
        AsyncOutcome::Fetched(stream, batch) => State::ReadData(stream, Some(batch)),
        AsyncOutcome::EndOfStream => State::ReadMeta(None),
        AsyncOutcome::Failed(_) => State::Finish,
    }
}

/// The work that a processor in `state` hands out to be computed: the
/// pending batch with its stream, and none where nothing is pending.
pub open spec fn work_for<S, B>(state: State<S, B>) -> Option<(S, B)> {
    match state {
        State::ReadData(stream, Some(batch)) => Some((stream, batch)),
        _ => None,
    }
}

/// The state that a decoded batch puts a processor into: inside the data
/// file of `stream` with nothing pending, and done where decoding failed.
pub open spec fn state_after_decode<S, B, D>(stream: S, decoded: Result<D, String>) -> State<
    S,
    B,
> {
    match decoded {
        Ok(_) => State::ReadData(stream, None),
        Err(_) => State::Finish,
    }
}

/// Whether `after` is `before` once an error of class `kind` with the message
/// `message` was reported on it: an earlier error stays on record.
pub open spec fn failed_with<T>(
    before: PortState<T>,
    after: PortState<T>,
    kind: ErrorKind,
    message: Seq<char>,
) -> bool {
    match before {
        PortState::Failed(_) => after == before,
        _ => after matches PortState::Failed(e) && e.kind == kind && e.message@ == message,
    }
}

/// Whether two contexts differ in the partitions that are left at most.
pub open spec fn same_but_partitions(a: QueryContext, b: QueryContext) -> bool {
    a.cancelled == b.cancelled && a.status == b.status && a.local_id == b.local_id
}

/// icelake's error, carried as it is.
#[verifier::external_type_specification]
#[verifier::external_body]
pub struct ExIcelakeError(icelake::Error);

/// opendal's error, carried as it is.
#[verifier::external_type_specification]
#[verifier::external_body]
pub struct ExOpendalError(opendal::Error);

/// The text that the `Debug` impl of `icelake::Error` writes for `err`. It is
/// not read here: nothing is claimed of it. (It names the kind and the message
/// of the error, its context and its source, and ends with a backtrace where
/// the process captures them.)
#[verifier::external_body]
fn icelake_error_text(err: &icelake::Error) -> (text: String) {
    format!("{:?}", err)
}

/// The text that the `Debug` impl of `opendal::Error` writes for `err`. It is
/// not read here: nothing is claimed of it. (It names the kind, the status and
/// the operation of the error, its message, its context and its source.)
#[verifier::external_body]
fn opendal_error_text(err: &opendal::Error) -> (text: String) {
    format!("{:?}", err)
}

/// Whether `message` is `prefix` followed by anything.
pub open spec fn starts_with(message: Seq<char>, prefix: Seq<char>) -> bool {
    prefix.len() <= message.len() && message.subrange(0, prefix.len() as int) == prefix
}

/// The error for a failure of the library that reads iceberg data files;
/// `detail` is what that library said.
pub fn icelake_failure(detail: &str) -> (e: ErrorCode)
    ensures
        e.kind == ErrorKind::ResourceError,
        e.message@ == "icelake operation failed: "@ + detail@,
{
    ErrorCode::with_detail(ErrorKind::ResourceError, "icelake operation failed: ", detail)
}

/// The error for a failure of the storage; `detail` is what the storage said.
pub fn storage_failure(detail: &str) -> (e: ErrorCode)
    ensures
        e.kind == ErrorKind::ResourceError,
        e.message@ == "storage operation failed: "@ + detail@,
{
    ErrorCode::with_detail(ErrorKind::ResourceError, "storage operation failed: ", detail)
}

/// The error for a failure of the library that reads iceberg data files: a
/// `ResourceError` that says so, followed by what the library said.
pub fn parse_icelake_error(err: icelake::Error) -> (e: ErrorCode)
    ensures
        e.kind == ErrorKind::ResourceError,
        starts_with(e.message@, "icelake operation failed: "@),
{
    let text = icelake_error_text(&err);
    let e = icelake_failure(text.as_str());
    assert(e.message@.subrange(0, "icelake operation failed: "@.len() as int)
        =~= "icelake operation failed: "@);
    e
}

/// The error for a failure of the storage: a `ResourceError` that says so,
/// followed by what the storage said.
pub fn parse_opendal_error(err: opendal::Error) -> (e: ErrorCode)
    ensures
        e.kind == ErrorKind::ResourceError,
        starts_with(e.message@, "storage operation failed: "@),
{
    let text = opendal_error_text(&err);
    let e = storage_failure(text.as_str());
    assert(e.message@.subrange(0, "storage operation failed: "@.len() as int)
        =~= "storage operation failed: "@);
    e
}

/// A scan processor over the data files of an iceberg table.
#[derive(Debug)]
pub struct IcebergTableSource<S, B> {
    state: State<S, B>,
    /// The schema before output. Some fields might be removed when outputting.
    source_schema: DataSchema,
    /// The final output schema.
    output_schema: DataSchema,
}

impl<S, B> IcebergTableSource<S, B> {
    /// Where the processor is.
    pub closed spec fn state(&self) -> State<S, B> {
        self.state
    }

    /// The schema of what is read.
    pub closed spec fn source_schema(&self) -> DataSchema {
        self.source_schema
    }

    /// The schema of what is pushed.
    pub closed spec fn output_schema(&self) -> DataSchema {
        self.output_schema
    }

    /// Whether `self` and `other` have the same schemas.
    pub open spec fn same_schemas(&self, other: &Self) -> bool {
        self.source_schema() == other.source_schema() && self.output_schema()
            == other.output_schema()
    }

    /// A processor between data files, without a partition.
    pub fn create(source_schema: DataSchema, output_schema: DataSchema) -> (r: Result<
        IcebergTableSource<S, B>,
        ErrorCode,
    >)
        ensures
            r matches Ok(source) && source.state() == State::<S, B>::ReadMeta(None)
                && source.source_schema() == source_schema && source.output_schema()
                == output_schema,
    {
        Ok(IcebergTableSource { state: State::ReadMeta(None), source_schema, output_schema })
    }

    /// The name under which this processor is reported.
    pub fn name(&self) -> (n: String)
        ensures
            n@ == "IcebergEngineSource"@,
    {
        String::from_str("IcebergEngineSource")
    }

    /// Whether the processor is done.
    pub fn is_finished(&self) -> (b: bool)
        ensures
            b == (self.state() is Finish),
    {
        match &self.state {
            State::Finish => true,
            _ => false,
        }
    }

    /// Whether a batch was fetched and not pushed yet.
    pub fn has_pending_batch(&self) -> (b: bool)
        ensures
            b == (self.state() matches State::ReadData(_, Some(_))),
    {
        match &self.state {
            State::ReadData(_, Some(_)) => true,
            _ => false,
        }
    }

    /// Polls the processor.
    ///
    /// A cancelled query finishes the processor and its output at once. So
    /// does an output that is finished already. Otherwise a processor between
    /// data files first looks for a partition, and is done if none is left.
    /// Then, with a full output, it waits for the consumer and keeps what it
    /// has. With an empty one, it is ready to compute where a batch is pending,
    /// asks for the next step of I/O where none is, and, when done, finishes
    /// the output.
    pub fn event<D>(&mut self, ctx: &mut QueryContext, output: &mut Port<D>) -> (event: Event)
        ensures
            final(self).same_schemas(old(self)),
            same_but_partitions(*final(ctx), *old(ctx)),
            event == Event::Finished ==> final(self).state() is Finish && final(output)@.is_finished(),
            old(ctx).cancelled ==> {
                &&& event == Event::Finished
                &&& final(ctx).partitions@ == old(ctx).partitions@
                &&& final(output)@ == old(output)@.finish()
            },
            !old(ctx).cancelled ==> {
                &&& final(ctx).partitions@ == partitions_left(
                    old(self).state(),
                    old(ctx).partitions@,
                )
                &&& match old(output)@ {
                    PortState::Finished | PortState::Failed(_) => {
                        &&& event == Event::Finished
                        &&& final(output)@ == old(output)@
                    },
                    PortState::Holding(_) => {
                        &&& event == Event::NeedsConsume
                        &&& final(self).state() == refill(old(self).state(), old(ctx).partitions@)
                        &&& final(output)@ == old(output)@
                    },
                    PortState::Empty => match refill(old(self).state(), old(ctx).partitions@) {
                        State::ReadData(stream, Some(batch)) => {
                            &&& event == Event::Ready
                            &&& final(self).state() == State::ReadData(stream, Some(batch))
                            &&& final(output)@ is Empty
                        },
                        State::Finish => {
                            &&& event == Event::Finished
                            &&& final(output)@ is Finished
                        },
                        other => {
                            &&& event == Event::Suspend
                            &&& final(self).state() == other
                            &&& final(output)@ is Empty
                        },
                    },
                }
            },
    {
        if ctx.is_cancelled() {
            self.state = State::Finish;
            output.set_finished();
            return Event::Finished;
        }
        let mut state = State::Finish;
        core::mem::swap(&mut state, &mut self.state);
        let state = match state {
            State::ReadMeta(None) => match ctx.get_partition() {
                None => State::Finish,
                Some(part_info) => State::ReadMeta(Some(part_info)),
            },
            other => other,
        };
        if output.is_finished() {
            return Event::Finished;
        }
        if !output.can_push() {
            self.state = state;
            return Event::NeedsConsume;
        }
        match state {
            State::ReadData(stream, Some(batch)) => {
                self.state = State::ReadData(stream, Some(batch));
                Event::Ready
            },
            State::Finish => {
                output.set_finished();
                Event::Finished
            },
            other => {
                self.state = other;
                Event::Suspend
            },
        }
    }

    /// Starts the step of computation: hands out the batch that is pending,
    /// to be decoded, together with the stream it came from, and leaves the
    /// processor done until the decoded batch is handed to
    /// [`IcebergTableSource::emit`].
    ///
    /// Without a pending batch there is nothing to compute: being asked is a
    /// bug, which is reported on `output` as an `InternalError`.
    pub fn process<D>(&mut self, output: &mut Port<D>) -> (work: Option<(S, B)>)
        ensures
            final(self).same_schemas(old(self)),
            final(self).state() is Finish,
            work == work_for(old(self).state()),
            work is Some ==> final(output)@ == old(output)@,
            work is None ==> failed_with(
                old(output)@,
                final(output)@,
                ErrorKind::InternalError,
                "It's a bug for IcebergTableSource to process current state."@,
            ),
    {
        let mut state = State::Finish;
        core::mem::swap(&mut state, &mut self.state);
        match state {
            State::ReadData(stream, Some(batch)) => Some((stream, batch)),
            _ => {
                output.set_error(
                    ErrorCode::create(
                        ErrorKind::InternalError,
                        "It's a bug for IcebergTableSource to process current state.",
                    ),
                );
                None
            },
        }
    }

    /// Ends the step of computation with the batch decoded, or with the
    /// reason why it could not be.
    ///
    /// A block goes into `output`, and the processor is back inside the data
    /// file of `stream` with nothing pending: the next step fetches. A failure
    /// is reported on `output` as an `InputError`, and the processor is done.
    pub fn emit<D>(&mut self, output: &mut Port<D>, stream: S, decoded: Result<D, String>) -> (event:
        Event)
        requires
            old(output)@ is Empty,
        ensures
            final(self).same_schemas(old(self)),
            final(self).state() == state_after_decode::<S, B, D>(stream, decoded),
            match decoded {
                Ok(block) => {
                    &&& event == Event::Suspend
                    &&& final(output)@ == PortState::Holding(block)
                },
                Err(detail) => {
                    &&& event == Event::Finished
                    &&& final(output)@ matches PortState::Failed(e)
                    &&& e.kind == ErrorKind::InputError
                    &&& e.message@ == "Cannot convert arrow record batch to data block: "@
                        + detail@
                },
            },
    {
        match decoded {
            Ok(block) => {
                output.try_push(block);
                self.state = State::ReadData(stream, None);
                Event::Suspend
            },
            Err(detail) => {
                output.set_error(
                    ErrorCode::with_detail(
                        ErrorKind::InputError,
                        "Cannot convert arrow record batch to data block: ",
                        detail.as_str(),
                    ),
                );
                self.state = State::Finish;
                Event::Finished
            },
        }
    }

    /// Starts the step that waits for I/O: says what is to be done, and leaves
    /// the processor done until the outcome is handed to
    /// [`IcebergTableSource::async_process_complete`].
    ///
    /// With a partition to open, the data file at its path is to be opened;
    /// inside a data file with nothing pending, the next batch is to be
    /// fetched. In any other state, and with a partition that is no iceberg
    /// data file, being asked is a bug, which is reported on `output` as an
    /// `InternalError`.
    pub fn async_process<D>(&mut self, output: &mut Port<D>) -> (request: Option<AsyncRequest<S>>)
        ensures
            final(self).same_schemas(old(self)),
            final(self).state() is Finish,
            request == request_for(old(self).state()),
            request is Some ==> final(output)@ == old(output)@,
            match old(self).state() {
                State::ReadMeta(Some(PartInfo::Iceberg(part))) => {
                    &&& request == Some(AsyncRequest::<S>::Open { path: part.path })
                    &&& final(output)@ == old(output)@
                },
                State::ReadMeta(Some(PartInfo::Stage(_))) => {
                    &&& request is None
                    &&& failed_with(
                        old(output)@,
                        final(output)@,
                        ErrorKind::InternalError,
                        "Cannot downcast from PartInfo to IcebergPartInfo."@,
                    )
                },
                State::ReadData(stream, None) => {
                    &&& request == Some(AsyncRequest::Fetch { stream })
                    &&& final(output)@ == old(output)@
                },
                _ => {
                    &&& request is None
                    &&& failed_with(
                        old(output)@,
                        final(output)@,
                        ErrorKind::InternalError,
                        "It's a bug for IcebergTableSource to async_process current state."@,
                    )
                },
            },
    {
        let mut state = State::Finish;
        core::mem::swap(&mut state, &mut self.state);
        match state {
            State::ReadMeta(Some(part)) => match IcebergPartInfo::from_part(&part) {
                Ok(part) => Some(AsyncRequest::Open { path: part.path.clone() }),
                Err(err) => {
                    output.set_error(err);
                    None
                },
            },
            State::ReadData(stream, None) => Some(AsyncRequest::Fetch { stream }),
            _ => {
                output.set_error(
                    ErrorCode::create(
                        ErrorKind::InternalError,
                        "It's a bug for IcebergTableSource to async_process current state.",
                    ),
                );
                None
            },
        }
    }

    /// Ends the step that waits for I/O with its outcome.
    ///
    /// An opened data file puts the processor inside it with nothing pending;
    /// a batch becomes the pending batch; the end of the stream puts the
    /// processor between data files, without a partition. A failure is reported
    /// on `output` as it is, and the processor is done.
    pub fn async_process_complete<D>(&mut self, output: &mut Port<D>, outcome: AsyncOutcome<S, B>)
        ensures
            final(self).same_schemas(old(self)),
            final(self).state() == state_after(outcome),
            match outcome {
                AsyncOutcome::Opened(stream) => {
                    &&& final(self).state() == State::<S, B>::ReadData(stream, None)
                    &&& final(output)@ == old(output)@
                },
                AsyncOutcome::Fetched(stream, batch) => {
                    &&& final(self).state() == State::ReadData(stream, Some(batch))
                    &&& final(output)@ == old(output)@
                },
                AsyncOutcome::EndOfStream => {
                    &&& final(self).state() == State::<S, B>::ReadMeta(None)
                    &&& final(output)@ == old(output)@
                },
                AsyncOutcome::Failed(err) => {
                    &&& final(self).state() is Finish
                    &&& final(output)@ == old(output)@.fail(err)
                },
            },
    {
        match outcome {
            AsyncOutcome::Opened(stream) => {
                self.state = State::ReadData(stream, None);
            },
            AsyncOutcome::Fetched(stream, batch) => {
                self.state = State::ReadData(stream, Some(batch));
            },
            AsyncOutcome::EndOfStream => {
                self.state = State::ReadMeta(None);
            },
            AsyncOutcome::Failed(err) => {
                self.state = State::Finish;
                output.set_error(err);
            },
        }
    }
}

} // verus!
