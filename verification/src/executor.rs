//! The scheduler of a scan pipeline: any number of scan processors, each
//! with its own port, and one sink that pulls from all of them.
//!
//! The scheduler never waits. One call of [`PipelineExecutor::step`] polls
//! one processor, in turn. A processor that asks for I/O is handed to the
//! caller, who performs it while other processors go on, and hands the outcome
//! back with [`PipelineExecutor::complete_async`]. A batch that a processor
//! has to decode is handed to the caller too, and comes back as a block with
//! [`PipelineExecutor::complete_sync`].

use vstd::prelude::*;
use crate::context::QueryContext;
use crate::datavalues::DataSchema;
use crate::error::ErrorCode;
use crate::error::ErrorKind;
use crate::lane::Lane;
use crate::lane::LaneStep;
use crate::lane::decoded_blocks;
use crate::lane::held;
use crate::lane::port_after_decode;
use crate::lane::Schedule;
use crate::port::PortState;
use crate::table_source::AsyncOutcome;
use crate::table_source::AsyncRequest;
use crate::table_source::refill;
use crate::table_source::request_for;
use crate::table_source::state_after;
use crate::table_source::state_after_decode;
use crate::table_source::work_for;

verus! {

/// What one step of the scheduler came to.
#[derive(Debug)]
pub enum Step<S, B> {
    /// A processor was polled; there may be more to do.
    Progress,
    /// The processor of lane `0` asks for the step of I/O `1`, and waits for
    /// its outcome.
    RunAsync(usize, AsyncRequest<S>),
    /// The processor of lane `0` hands out the batch `2` of the stream `1` to
    /// be decoded, and waits for the block.
    RunSync(usize, S, B),
    /// No processor can be polled before an outcome comes in.
    Idle,
    /// Every processor is done for good.
    Done,
}

/// Whether `r` is the error of class `kind` with the message `message`.
pub open spec fn is_failure<D>(
    r: Result<Vec<Vec<D>>, ErrorCode>,
    kind: ErrorKind,
    message: Seq<char>,
) -> bool {
    r matches Err(e) && e.kind == kind && e.message@ == message
}

/// Whether `r` holds, for each of `lanes`, the blocks that its processor
/// pushed, all of them and in order, and as many as batches were fetched.
pub open spec fn is_output_of<S, B, D>(
    r: Result<Vec<Vec<D>>, ErrorCode>,
    lanes: Seq<Lane<S, B, D>>,
) -> bool {
    &&& r matches Ok(blocks)
    &&& blocks@.len() == lanes.len()
    &&& forall|i: int|
        0 <= i < lanes.len() ==> (#[trigger] blocks@[i])@ == lanes[i].pushed()
            && lanes[i].fetched() == lanes[i].pushed().len()
}

/// A scan pipeline and its scheduler.
pub struct PipelineExecutor<S, B, D> {
    lanes: Vec<Lane<S, B, D>>,
    sink: Schedule,
    cursor: usize,
    next_input: usize,
    error: Option<ErrorCode>,
    error_lane: usize,
}

impl<S, B, D> PipelineExecutor<S, B, D> {
    /// The lanes, in the order in which they were added.
    pub closed spec fn lanes(&self) -> Seq<Lane<S, B, D>> {
        self.lanes@
    }

    /// Where the sink stands with the scheduler.
    pub closed spec fn sink(&self) -> Schedule {
        self.sink
    }

    /// The first error that a processor reported, if one did.
    pub closed spec fn error(&self) -> Option<ErrorCode> {
        self.error
    }

    /// The place in the round of the processor that is looked at first: a
    /// lane, or, behind the last lane, the sink.
    pub closed spec fn cursor(&self) -> int {
        self.cursor as int
    }

    /// The first lane from `from` up to, and without, `to` that is to be
    /// polled.
    pub open spec fn first_queued(&self, from: int, to: int) -> Option<int>
        decreases to - from,
    {
        if from >= to {
            None
        } else if self.lanes()[from].status() == Schedule::Queued {
            Some(from)
        } else {
            self.first_queued(from + 1, to)
        }
    }

    /// Whose turn it is: the first processor that is to be polled, counted in
    /// a round from the cursor: the lanes from the cursor on, then the sink,
    /// which stands for the number of lanes, then the lanes before the cursor.
    /// Nobody's where no processor is to be polled.
    pub open spec fn turn(&self) -> Option<int> {
        match self.first_queued(self.cursor(), self.lanes().len() as int) {
            Some(lane) => Some(lane),
            None => if self.sink() == Schedule::Queued {
                Some(self.lanes().len() as int)
            } else {
                self.first_queued(0, self.cursor())
            },
        }
    }

    /// The first queued lane of a range is the one before which no lane of
    /// the range is queued.
    pub proof fn lemma_first_queued(&self, from: int, to: int, found: Option<int>)
        requires
            0 <= from <= to <= self.lanes().len(),
            match found {
                Some(k) => from <= k < to && self.lanes()[k].status() == Schedule::Queued
                    && forall|j: int|
                    from <= j < k ==> (#[trigger] self.lanes()[j]).status() != Schedule::Queued,
                None => forall|j: int|
                    from <= j < to ==> (#[trigger] self.lanes()[j]).status() != Schedule::Queued,
            },
        ensures
            self.first_queued(from, to) == found,
        decreases to - from,
    {
        if from < to {
            if self.lanes()[from].status() != Schedule::Queued {
                self.lemma_first_queued(from + 1, to, found);
            }
        }
    }

    /// Whether every processor, the sink too, is done for good.
    pub open spec fn all_finished(&self) -> bool {
        &&& self.sink() == Schedule::Finished
        &&& forall|i: int|
            0 <= i < self.lanes().len() ==> (#[trigger] self.lanes()[i]).status()
                == Schedule::Finished
    }

    /// The lane that the sink looks at first when it pulls: the one behind
    /// the lane it pulled from last.
    pub closed spec fn next_input(&self) -> int {
        self.next_input as int
    }

    /// The lane whose error is on record, where one is.
    pub closed spec fn error_lane(&self) -> int {
        self.error_lane as int
    }

    /// The first lane from `from` up to, and without, `to` whose port holds a
    /// block.
    pub open spec fn first_with_data(&self, from: int, to: int) -> Option<int> {
        Self::first_holding(self.lanes(), from, to)
    }

    /// The first of `lanes` from `from` up to, and without, `to` whose port
    /// holds a block.
    pub open spec fn first_holding(lanes: Seq<Lane<S, B, D>>, from: int, to: int) -> Option<int>
        decreases to - from,
    {
        if from >= to {
            None
        } else if lanes[from].port() is Holding {
            Some(from)
        } else {
            Self::first_holding(lanes, from + 1, to)
        }
    }

    /// The lane that the sink pulls from next: the first whose port holds a
    /// block, counted in a round from the lane behind the one it pulled from
    /// last. None where no port holds a block.
    pub open spec fn next_pull(&self) -> Option<int> {
        match self.first_with_data(self.next_input(), self.lanes().len() as int) {
            Some(lane) => Some(lane),
            None => self.first_with_data(0, self.next_input()),
        }
    }

    /// The first lane of a range with a block is the one before which no lane
    /// of the range has one.
    pub proof fn lemma_first_holding(
        lanes: Seq<Lane<S, B, D>>,
        from: int,
        to: int,
        found: Option<int>,
    )
        requires
            0 <= from <= to <= lanes.len(),
            match found {
                Some(k) => from <= k < to && lanes[k].port() is Holding && forall|j: int|
                    from <= j < k ==> !((#[trigger] lanes[j]).port() is Holding),
                None => forall|j: int|
                    from <= j < to ==> !((#[trigger] lanes[j]).port() is Holding),
            },
        ensures
            Self::first_holding(lanes, from, to) == found,
        decreases to - from,
    {
        if from < to {
            if !(lanes[from].port() is Holding) {
                Self::lemma_first_holding(lanes, from + 1, to, found);
            }
        }
    }

    /// Whether no port will hand out another block.
    pub open spec fn ports_finished(&self) -> bool {
        forall|i: int|
            0 <= i < self.lanes().len() ==> (#[trigger] self.lanes()[i]).port().is_finished()
    }

    /// Whether the sink pulled the block that the port of lane `k` held, and
    /// nothing else happened to the lanes since `before`.
    pub open spec fn pulled_from(&self, before: &Self, k: int) -> bool {
        &&& 0 <= k < before.lanes().len()
        &&& before.lanes()[k].port() is Holding
        &&& self.lanes()[k].received() == before.lanes()[k].received() + held(
            before.lanes()[k].port(),
        )
        &&& self.lanes()[k].port() is Empty
        &&& forall|i: int|
            0 <= i < before.lanes().len() && i != k ==> self.lanes()[i] == before.lanes()[i]
    }

    /// What a poll of the sink comes to: with a block in a port, the sink
    /// pulls the one whose turn it is, looks behind that lane first next time,
    /// and is polled again; without, nothing happens to the lanes, and the sink
    /// is done if no port will hand out another block, and parked if one may.
    pub open spec fn sink_polled(&self, before: &Self) -> bool {
        match before.next_pull() {
            Some(k) => {
                &&& self.sink() == Schedule::Queued
                &&& self.pulled_from(before, k)
                &&& self.next_input() == if k + 1 >= before.lanes().len() {
                    0
                } else {
                    k + 1
                }
            },
            None => {
                &&& self.lanes() == before.lanes()
                &&& self.next_input() == before.next_input()
                &&& self.sink() == if before.ports_finished() {
                    Schedule::Finished
                } else {
                    Schedule::Parked
                }
            },
        }
    }

    /// Whether no processor is to be polled.
    pub open spec fn none_queued(&self) -> bool {
        &&& self.sink() != Schedule::Queued
        &&& forall|i: int|
            0 <= i < self.lanes().len() ==> (#[trigger] self.lanes()[i]).status()
                != Schedule::Queued
    }

    /// Whether a lane waits for an outcome: of a step of I/O, or of decoding.
    pub open spec fn any_waiting(&self) -> bool {
        exists|i: int|
            0 <= i < self.lanes().len() && (#[trigger] self.lanes()[i]).waits_for_outcome()
    }

    /// What holds of a pipeline at all times: every lane is sound; the sink
    /// is queued, parked or finished; a parked sink has nothing to pull and a
    /// lane that is not finished to wait for; a finished sink has no port left
    /// that may hand out a block; and the error on record, if any, is the one
    /// that stands on the port of the lane that failed first.
    pub closed spec fn inv(&self) -> bool {
        &&& forall|i: int| 0 <= i < self.lanes@.len() ==> (#[trigger] self.lanes@[i]).inv()
        &&& self.cursor <= self.lanes@.len()
        &&& self.next_input <= self.lanes@.len()
        &&& self.sink == Schedule::Queued || self.sink == Schedule::Parked || self.sink
            == Schedule::Finished
        &&& self.sink == Schedule::Finished ==> forall|i: int|
            0 <= i < self.lanes@.len() ==> (#[trigger] self.lanes@[i]).port().is_finished()
        &&& self.sink == Schedule::Parked ==> exists|i: int|
            0 <= i < self.lanes@.len() && (#[trigger] self.lanes@[i]).status()
                != Schedule::Finished
        &&& self.sink == Schedule::Parked ==> forall|i: int|
            0 <= i < self.lanes@.len() ==> !((#[trigger] self.lanes@[i]).port() is Holding)
        &&& self.error matches Some(e) ==> self.error_lane < self.lanes@.len()
            && self.lanes@[self.error_lane as int].port() == PortState::<D>::Failed(e)
    }

    /// Every lane of a sound pipeline is sound.
    pub proof fn lemma_lanes_sound(&self, i: int)
        requires
            self.inv(),
            0 <= i < self.lanes().len(),
        ensures
            self.lanes()[i].inv(),
    {
    }

    /// The error on record is the error of a lane, as the lane reported it.
    pub proof fn lemma_error_comes_from_a_lane(&self)
        requires
            self.inv(),
            self.error() is Some,
        ensures
            0 <= self.error_lane() < self.lanes().len(),
            self.lanes()[self.error_lane()].port() == PortState::<D>::Failed(self.error()->0),
    {
    }

    /// A pipeline that finished cleanly lost nothing: for every lane, the sink
    /// received the blocks that the processor pushed, all of them and in order,
    /// one for each batch that was fetched.
    pub proof fn lemma_clean_finish_lost_nothing(&self)
        requires
            self.inv(),
            self.finished_cleanly(),
        ensures
            forall|i: int|
                0 <= i < self.lanes().len() ==> (#[trigger] self.lanes()[i]).received()
                    == self.lanes()[i].pushed() && self.lanes()[i].fetched()
                    == self.lanes()[i].pushed().len(),
    {
        assert forall|i: int| 0 <= i < self.lanes().len() implies (#[trigger] self.lanes()[i])
            .received() == self.lanes()[i].pushed() && self.lanes()[i].fetched()
            == self.lanes()[i].pushed().len() by {
            self.lanes()[i].lemma_finished_lane_lost_nothing();
        }
    }

    /// A pipeline without lanes: only the sink, to be polled.
    pub fn create() -> (executor: PipelineExecutor<S, B, D>)
        ensures
            executor.inv(),
            executor.lanes().len() == 0,
            executor.sink() == Schedule::Queued,
            executor.error() is None,
    {
        PipelineExecutor {
            lanes: Vec::new(),
            sink: Schedule::Queued,
            cursor: 0,
            next_input: 0,
            error: None,
            error_lane: 0,
        }
    }

    /// A pipeline of `lanes` scan processors with the same schemas, and the
    /// sink: all of them to be polled.
    pub fn scan(lanes: usize, source_schema: &DataSchema, output_schema: &DataSchema) -> (executor:
        PipelineExecutor<S, B, D>)
        ensures
            executor.inv(),
            executor.lanes().len() == lanes,
            executor.sink() == Schedule::Queued,
            executor.error() is None,
            forall|i: int|
                0 <= i < lanes ==> (#[trigger] executor.lanes()[i]).status() == Schedule::Queued
                    && executor.lanes()[i].pushed() == Seq::<D>::empty()
                    && executor.lanes()[i].received() == Seq::<D>::empty()
                    && executor.lanes()[i].fetched() == 0 && !executor.lanes()[i].aborted(),
    {
        let mut executor = Self::create();
        let mut i: usize = 0;
        while i < lanes
            invariant
                i <= lanes,
                executor.inv(),
                executor.lanes().len() == i,
                executor.sink() == Schedule::Queued,
                executor.error() is None,
                forall|k: int|
                    0 <= k < i ==> (#[trigger] executor.lanes()[k]).status() == Schedule::Queued
                        && executor.lanes()[k].pushed() == Seq::<D>::empty()
                        && executor.lanes()[k].received() == Seq::<D>::empty()
                        && executor.lanes()[k].fetched() == 0 && !executor.lanes()[k].aborted(),
            decreases lanes - i,
        {
            executor.add_source(source_schema.clone(), output_schema.clone());
            i += 1;
        }
        executor
    }

    /// Adds a scan processor with its port, and says which lane it is. A sink
    /// that was finished has a port to pull from again, and is queued.
    pub fn add_source(&mut self, source_schema: DataSchema, output_schema: DataSchema) -> (lane:
        usize)
        requires
            old(self).inv(),
        ensures
            final(self).inv(),
            lane == old(self).lanes().len(),
            final(self).lanes().len() == old(self).lanes().len() + 1,
            forall|i: int|
                0 <= i < old(self).lanes().len() ==> final(self).lanes()[i] == old(self).lanes()[i],
            final(self).lanes()[lane as int].status() == Schedule::Queued,
            final(self).lanes()[lane as int].pushed() == Seq::<D>::empty(),
            final(self).lanes()[lane as int].received() == Seq::<D>::empty(),
            final(self).lanes()[lane as int].fetched() == 0,
            !final(self).lanes()[lane as int].aborted(),
            final(self).sink() == if old(self).sink() == Schedule::Finished {
                Schedule::Queued
            } else {
                old(self).sink()
            },
            final(self).error() == old(self).error(),
    {
        let lane = self.lanes.len();
        let ghost waiting = if self.sink == Schedule::Parked {
            choose|i: int|
                0 <= i < self.lanes@.len() && (#[trigger] self.lanes@[i]).status()
                    != Schedule::Finished
        } else {
            0
        };
        self.lanes.push(Lane::create(source_schema, output_schema));
        if self.sink == Schedule::Finished {
            self.sink = Schedule::Queued;
        }
        proof {
            if self.sink == Schedule::Parked {
                assert(self.lanes@[waiting].status() != Schedule::Finished);
            }
        }
        lane
    }

    /// The number of lanes.
    pub fn num_lanes(&self) -> (n: usize)
        ensures
            n == self.lanes().len(),
    {
        self.lanes.len()
    }

    /// Whether every processor, the sink too, is done for good.
    pub fn is_done(&self) -> (done: bool)
        ensures
            done == self.all_finished(),
    {
        if self.sink != Schedule::Finished {
            return false;
        }
        let mut i: usize = 0;
        while i < self.lanes.len()
            invariant
                i <= self.lanes@.len(),
                forall|k: int|
                    0 <= k < i ==> (#[trigger] self.lanes@[k]).status() == Schedule::Finished,
            decreases self.lanes@.len() - i,
        {
            if !self.lanes[i].is_finished() {
                return false;
            }
            i += 1;
        }
        true
    }

    /// Puts the error of lane `lane` on record if it is the first. With an
    /// error on record, the query is cancelled.
    fn record_error(&mut self, lane: usize, ctx: &mut QueryContext)
        requires
            old(self).inv(),
            lane < old(self).lanes().len(),
        ensures
            final(self).inv(),
            final(self).lanes() == old(self).lanes(),
            final(self).sink() == old(self).sink(),
            final(self).cursor == old(self).cursor,
            final(self).next_input == old(self).next_input,
            old(self).error() is Some ==> final(self).error() == old(self).error(),
            final(self).error() is Some ==> final(ctx).cancelled,
            final(self).error() is None ==> final(ctx).cancelled == old(ctx).cancelled,
            final(self).error() is Some && old(self).error() is None ==> final(self).lanes()[lane as int].port() == PortState::<D>::Failed(final(self).error()->0),
            final(self).lanes()[lane as int].port() is Failed ==> final(self).error() is Some,
            old(ctx).cancelled ==> final(ctx).cancelled,
            final(ctx).partitions == old(ctx).partitions,
            final(ctx).status == old(ctx).status,
            final(ctx).local_id == old(ctx).local_id,
    {
        if self.error.is_none() {
            let found = match self.lanes[lane].error() {
                Some(e) => Some(e.clone()),
                None => None,
            };
            if found.is_some() {
                self.error = found;
                self.error_lane = lane;
            }
        }
        if self.error.is_some() {
            ctx.cancel();
        }
    }

    /// Hands the outcome of the step of I/O that lane `lane` asked for to its
    /// processor, and queues the lane again. The answer is `false`, and nothing
    /// changes, where there is no such lane or the lane waits for no outcome.
    /// A failure is put on record, and cancels the query.
    pub fn complete_async(
        &mut self,
        lane: usize,
        outcome: AsyncOutcome<S, B>,
        ctx: &mut QueryContext,
    ) -> (accepted: bool)
        requires
            old(self).inv(),
        ensures
            final(self).inv(),
            final(self).lanes().len() == old(self).lanes().len(),
            accepted == (lane < old(self).lanes().len() && old(self).lanes()[lane as int].status()
                == Schedule::PendingAsync),
            !accepted ==> final(self).lanes() == old(self).lanes() && final(self).error() == old(
                self,
            ).error() && *final(ctx) == *old(ctx),
            final(self).sink() == old(self).sink(),
            accepted ==> final(self).lanes()[lane as int].status() == Schedule::Queued,
            accepted ==> final(self).lanes()[lane as int].state() == state_after(outcome),
            accepted ==> final(self).lanes()[lane as int].fetched() == if outcome is Fetched {
                old(self).lanes()[lane as int].fetched() + 1
            } else {
                old(self).lanes()[lane as int].fetched()
            },
            accepted ==> final(self).lanes()[lane as int].port() == match outcome {
                AsyncOutcome::Failed(err) => old(self).lanes()[lane as int].port().fail(err),
                _ => old(self).lanes()[lane as int].port(),
            },
            forall|i: int|
                0 <= i < old(self).lanes().len() && i != lane ==> final(self).lanes()[i] == old(
                    self,
                ).lanes()[i],
            forall|i: int|
                0 <= i < old(self).lanes().len() ==> (#[trigger] final(self).lanes()[i]).pushed()
                    == old(self).lanes()[i].pushed() && final(self).lanes()[i].received() == old(
                    self,
                ).lanes()[i].received(),
            accepted && outcome is Failed ==> final(self).error() is Some && final(ctx).cancelled,
            old(self).error() is Some ==> final(self).error() == old(self).error(),
            old(ctx).cancelled ==> final(ctx).cancelled,
    {
        if lane >= self.lanes.len() {
            return false;
        }
        let accepted = self.lanes[lane].complete_async(outcome);
        if accepted {
            self.record_error(lane, ctx);
        } else {
            assert(self.lanes@ =~= old(self).lanes@);
        }
        accepted
    }

    /// Hands the batch that lane `lane` gave out to be decoded back to its
    /// processor, decoded or with the reason why it could not be, and queues
    /// the lane again; the sink is woken for the block. The answer is `false`,
    /// and nothing changes, where there is no such lane or the lane waits for
    /// no block. A failure is put on record, and cancels the query.
    pub fn complete_sync(
        &mut self,
        lane: usize,
        stream: S,
        decoded: Result<D, String>,
        ctx: &mut QueryContext,
    ) -> (accepted: bool)
        requires
            old(self).inv(),
        ensures
            final(self).inv(),
            final(self).lanes().len() == old(self).lanes().len(),
            accepted == (lane < old(self).lanes().len() && old(self).lanes()[lane as int].status()
                == Schedule::PendingSync),
            !accepted ==> final(self).lanes() == old(self).lanes() && final(self).error() == old(
                self,
            ).error() && final(self).sink() == old(self).sink() && *final(ctx) == *old(ctx),
            accepted ==> final(self).sink() == if old(self).sink() == Schedule::Parked {
                Schedule::Queued
            } else {
                old(self).sink()
            },
            accepted ==> final(self).lanes()[lane as int].status() == Schedule::Queued,
            accepted ==> final(self).lanes()[lane as int].state() == state_after_decode::<S, B, D>(
                stream,
                decoded,
            ),
            accepted ==> port_after_decode(final(self).lanes()[lane as int].port(), decoded),
            accepted ==> final(self).lanes()[lane as int].pushed() == old(
                self,
            ).lanes()[lane as int].pushed() + decoded_blocks(decoded),
            forall|i: int|
                0 <= i < old(self).lanes().len() && i != lane ==> final(self).lanes()[i] == old(
                    self,
                ).lanes()[i],
            forall|i: int|
                0 <= i < old(self).lanes().len() ==> (#[trigger] final(self).lanes()[i]).received()
                    == old(self).lanes()[i].received() && final(self).lanes()[i].fetched() == old(
                    self,
                ).lanes()[i].fetched(),
            accepted && decoded is Err ==> final(self).error() is Some && final(ctx).cancelled,
            accepted && decoded is Err && old(self).error() is None ==> final(self).lanes()[lane as int].port() == PortState::<D>::Failed(final(self).error()->0),
            old(self).error() is Some ==> final(self).error() == old(self).error(),
            final(self).error() is None ==> final(ctx).cancelled == old(ctx).cancelled,
            old(ctx).cancelled ==> final(ctx).cancelled,
            final(ctx).partitions == old(ctx).partitions,
            final(ctx).status == old(ctx).status,
            final(ctx).local_id == old(ctx).local_id,
    {
        if lane >= self.lanes.len() {
            return false;
        }
        let accepted = self.lanes[lane].complete_sync(stream, decoded);
        if accepted {
            if self.sink == Schedule::Parked {
                self.sink = Schedule::Queued;
            }
            self.record_error(lane, ctx);
        } else {
            assert(self.lanes@ =~= old(self).lanes@);
        }
        accepted
    }

    /// The first lane from `from` up to, and without, `to` that is to be
    /// polled.
    fn find_queued(&self, from: usize, to: usize) -> (found: Option<usize>)
        requires
            from <= to <= self.lanes@.len(),
        ensures
            match found {
                Some(k) => from <= k < to && self.lanes@[k as int].status() == Schedule::Queued,
                None => forall|j: int|
                    from <= j < to ==> (#[trigger] self.lanes@[j]).status() != Schedule::Queued,
            },
            self.first_queued(from as int, to as int) == match found {
                Some(k) => Some(k as int),
                None => None,
            },
    {
        let mut k: usize = from;
        while k < to
            invariant
                from <= k <= to <= self.lanes@.len(),
                forall|j: int|
                    from <= j < k ==> (#[trigger] self.lanes@[j]).status() != Schedule::Queued,
            decreases to - k,
        {
            if self.lanes[k].is_queued() {
                proof {
                    self.lemma_first_queued(from as int, to as int, Some(k as int));
                }
                return Some(k);
            }
            k += 1;
        }
        proof {
            self.lemma_first_queued(from as int, to as int, None);
        }
        None
    }

    /// The first lane from `from` up to, and without, `to` whose port holds a
    /// block.
    fn find_data(&self, from: usize, to: usize) -> (found: Option<usize>)
        requires
            from <= to <= self.lanes@.len(),
        ensures
            match found {
                Some(k) => from <= k < to && self.lanes@[k as int].port() is Holding,
                None => forall|j: int|
                    from <= j < to ==> !((#[trigger] self.lanes@[j]).port() is Holding),
            },
            self.first_with_data(from as int, to as int) == match found {
                Some(k) => Some(k as int),
                None => None,
            },
    {
        let mut k: usize = from;
        while k < to
            invariant
                from <= k <= to <= self.lanes@.len(),
                forall|j: int| from <= j < k ==> !((#[trigger] self.lanes@[j]).port() is Holding),
            decreases to - k,
        {
            if self.lanes[k].has_data() {
                proof {
                    Self::lemma_first_holding(self.lanes(), from as int, to as int, Some(k as int));
                }
                return Some(k);
            }
            k += 1;
        }
        proof {
            Self::lemma_first_holding(self.lanes(), from as int, to as int, None);
        }
        None
    }

    /// Whether no port will hand out another block.
    fn all_ports_finished(&self) -> (all: bool)
        ensures
            all == (forall|j: int|
                0 <= j < self.lanes@.len() ==> (#[trigger] self.lanes@[j]).port().is_finished()),
    {
        let mut k: usize = 0;
        while k < self.lanes.len()
            invariant
                k <= self.lanes@.len(),
                forall|j: int| 0 <= j < k ==> (#[trigger] self.lanes@[j]).port().is_finished(),
            decreases self.lanes@.len() - k,
        {
            if !self.lanes[k].is_port_finished() {
                return false;
            }
            k += 1;
        }
        true
    }

    /// Whether lane `i` is as it was in `before`, but for what the sink pulled
    /// from it.
    pub open spec fn source_untouched(&self, before: &Self, i: int) -> bool {
        &&& self.lanes()[i].state() == before.lanes()[i].state()
        &&& self.lanes()[i].pushed() == before.lanes()[i].pushed()
        &&& self.lanes()[i].fetched() == before.lanes()[i].fetched()
        &&& self.lanes()[i].aborted() == before.lanes()[i].aborted()
    }

    /// Polls the sink: it pulls one block, from the first port that holds one,
    /// counted from the lane behind the one it pulled from last. With nothing
    /// to pull, it is done if no port will hand out another block, and parked
    /// otherwise.
    fn poll_sink(&mut self)
        requires
            old(self).inv(),
        ensures
            final(self).inv(),
            final(self).lanes().len() == old(self).lanes().len(),
            final(self).error() == old(self).error(),
            final(self).cursor == old(self).cursor,
            final(self).sink_polled(old(self)),
            forall|i: int|
                0 <= i < old(self).lanes().len() ==> final(self).source_untouched(old(self), i),
            forall|i: int|
                0 <= i < old(self).lanes().len() ==> (#[trigger] final(self).lanes()[i]).received()
                    == old(self).lanes()[i].received() || (old(self).lanes()[i].port() is Holding
                    && final(self).lanes()[i].received() == old(self).lanes()[i].received() + held(
                    old(self).lanes()[i].port(),
                )),
    {
        let n = self.lanes.len();
        let start = self.next_input;
        let found = match self.find_data(start, n) {
            Some(k) => Some(k),
            None => self.find_data(0, start),
        };
        match found {
            Some(k) => {
                self.lanes[k].pull();
                self.next_input = if k + 1 >= n {
                    0
                } else {
                    k + 1
                };
                self.sink = Schedule::Queued;
                proof {
                    assert(old(self).lanes()[k as int].port() is Holding);
                    assert(self.pulled_from(old(self), k as int));
                }
            },
            None => {
                if self.all_ports_finished() {
                    self.sink = Schedule::Finished;
                } else {
                    self.sink = Schedule::Parked;
                }
                proof {
                    assert(self.lanes@ =~= old(self).lanes@);
                }
            },
        }
    }

    /// Polls lane `lane`, wakes the sink, and puts an error on record.
    fn poll_lane(&mut self, lane: usize, ctx: &mut QueryContext) -> (step: Step<S, B>)
        requires
            old(self).inv(),
            lane < old(self).lanes().len(),
            !old(ctx).cancelled,
            old(self).lanes()[lane as int].status() == Schedule::Queued,
        ensures
            final(self).inv(),
            final(self).lanes().len() == old(self).lanes().len(),
            forall|i: int|
                0 <= i < old(self).lanes().len() && i != lane ==> final(self).lanes()[i] == old(
                    self,
                ).lanes()[i],
            forall|i: int|
                0 <= i < old(self).lanes().len() ==> (#[trigger] final(self).lanes()[i]).received()
                    == old(self).lanes()[i].received(),
            old(self).error() is Some ==> final(self).error() == old(self).error(),
            final(self).error() is Some ==> final(ctx).cancelled,
            final(self).lanes()[lane as int].port() is Failed ==> final(self).error() is Some,
            final(self).error() is Some && old(self).error() is None ==> final(self).lanes()[lane as int].port() == PortState::<D>::Failed(final(self).error()->0),
            step is Progress || step is RunAsync || step is RunSync,
            step is RunAsync <==> final(self).lanes()[lane as int].status()
                == Schedule::PendingAsync,
            step is RunSync <==> final(self).lanes()[lane as int].status()
                == Schedule::PendingSync,
            step matches Step::RunSync(l, stream, batch) ==> l == lane && Some((stream, batch))
                == work_for(
                refill(old(self).lanes()[lane as int].state(), old(ctx).partitions@),
            ),
            final(self).lanes()[lane as int].status() != Schedule::Queued,
            final(self).lanes()[lane as int].polled_from(
                &old(self).lanes()[lane as int],
                old(ctx).partitions@,
                final(ctx).partitions@,
            ),
            step matches Step::RunAsync(_, request) ==> Some(request) == request_for(
                refill(old(self).lanes()[lane as int].state(), old(ctx).partitions@),
            ),
            final(self).sink() == if old(self).sink() == Schedule::Parked {
                Schedule::Queued
            } else {
                old(self).sink()
            },
            final(self).cursor == old(self).cursor,
            step matches Step::RunAsync(l, _) ==> l == lane && final(self).lanes()[lane as int].status()
                == Schedule::PendingAsync,
            old(self).lanes()[lane as int].port() is Holding ==> final(self).lanes()[lane as int].status()
                == Schedule::Parked && final(self).lanes()[lane as int].port() == old(
                self,
            ).lanes()[lane as int].port() && final(self).source_pushed_nothing(old(self), lane as int),
            final(ctx).status == old(ctx).status,
            final(ctx).local_id == old(ctx).local_id,
    {
        let lane_step = self.lanes[lane].poll(ctx);
        if self.sink == Schedule::Parked {
            self.sink = Schedule::Queued;
        }
        self.record_error(lane, ctx);
        match lane_step {
            LaneStep::RunAsync(request) => Step::RunAsync(lane, request),
            LaneStep::RunSync(stream, batch) => Step::RunSync(lane, stream, batch),
            _ => Step::Progress,
        }
    }

    /// Whether the processor of lane `i` has pushed nothing since `before`.
    pub open spec fn source_pushed_nothing(&self, before: &Self, i: int) -> bool {
        self.lanes()[i].pushed() == before.lanes()[i].pushed() && self.lanes()[i].fetched()
            == before.lanes()[i].fetched()
    }

    /// Finishes every processor of a cancelled query.
    fn drain(&mut self, ctx: &mut QueryContext)
        requires
            old(self).inv(),
            old(ctx).cancelled,
        ensures
            final(self).inv(),
            final(self).all_finished(),
            final(self).lanes().len() == old(self).lanes().len(),
            final(self).error() == old(self).error(),
            final(ctx).cancelled,
            final(ctx).status == old(ctx).status,
            final(ctx).local_id == old(ctx).local_id,
            forall|i: int|
                0 <= i < old(self).lanes().len() ==> (#[trigger] final(self).lanes()[i]).received()
                    == old(self).lanes()[i].received(),
    {
        let n = self.lanes.len();
        self.sink = Schedule::Queued;
        let mut i: usize = 0;
        while i < n
            invariant
                i <= n,
                n == self.lanes@.len(),
                n == old(self).lanes@.len(),
                self.inv(),
                self.sink == Schedule::Queued,
                ctx.cancelled,
                ctx.status == old(ctx).status,
                ctx.local_id == old(ctx).local_id,
                self.error == old(self).error,
                forall|k: int|
                    0 <= k < i ==> (#[trigger] self.lanes@[k]).status() == Schedule::Finished,
                forall|k: int|
                    0 <= k < n ==> (#[trigger] self.lanes@[k]).received() == old(
                        self,
                    ).lanes@[k].received(),
            decreases n - i,
        {
            let _ = self.lanes[i].poll(ctx);
            i += 1;
        }
        self.sink = Schedule::Finished;
    }

    /// Whether the pipeline is being torn down: the query is cancelled, or an
    /// error is on record.
    pub open spec fn aborting(&self, ctx: &QueryContext) -> bool {
        ctx.cancelled || self.error() is Some
    }

    /// Runs one step of the schedule.
    ///
    /// Once the query is cancelled, by the caller or by the failure of a
    /// processor, the step finishes every processor and the answer is `Done`.
    /// Before that, the step polls one processor: the first that is queued,
    /// counted in a round from the one behind the processor that was polled
    /// last, the sink standing behind the last lane. A parked processor, and
    /// one that waits for an outcome, is not polled. Where none is queued, nothing
    /// changes, and the answer is `Done` if all are finished and `Idle` if not.
    pub fn step(&mut self, ctx: &mut QueryContext) -> (step: Step<S, B>)
        requires
            old(self).inv(),
        ensures
            final(self).inv(),
            final(self).lanes().len() == old(self).lanes().len(),
            old(self).error() is Some ==> final(self).error() == old(self).error(),
            final(self).error() is Some ==> final(ctx).cancelled,
            old(ctx).cancelled ==> final(ctx).cancelled,
            final(ctx).status == old(ctx).status,
            final(ctx).local_id == old(ctx).local_id,
            old(self).aborting(old(ctx)) ==> step is Done && final(self).error() == old(
                self,
            ).error() && forall|i: int|
                0 <= i < old(self).lanes().len() ==> (#[trigger] final(self).lanes()[i]).received()
                    == old(self).lanes()[i].received(),
            step is Done ==> final(self).all_finished(),
            step is Idle ==> final(self).none_queued() && !final(self).all_finished() && final(self).any_waiting(),
            (step is Idle || step is Done) && !old(self).aborting(old(ctx)) ==> final(self).lanes()
                == old(self).lanes() && final(self).sink() == old(self).sink() && *final(ctx)
                == *old(ctx),
            !old(self).aborting(old(ctx)) && !old(self).none_queued() ==> step is Progress || step
                is RunAsync || step is RunSync,
            step matches Step::RunSync(lane, _, _) ==> lane < final(self).lanes().len() && final(self).lanes()[lane as int].status() == Schedule::PendingSync,
            step matches Step::RunAsync(lane, _) ==> lane < final(self).lanes().len() && final(self).lanes()[lane as int].status() == Schedule::PendingAsync,
            !old(self).aborting(old(ctx)) ==> match old(self).turn() {
                None => step is Idle || step is Done,
                Some(p) => if p < old(self).lanes().len() {
                    &&& final(self).cursor() == p + 1
                    &&& final(self).lanes()[p].polled_from(
                        &old(self).lanes()[p],
                        old(ctx).partitions@,
                        final(ctx).partitions@,
                    )
                    &&& final(self).sink() == if old(self).sink() == Schedule::Parked {
                        Schedule::Queued
                    } else {
                        old(self).sink()
                    }
                    &&& step matches Step::RunAsync(lane, request) ==> lane == p && Some(request)
                        == request_for(refill(old(self).lanes()[p].state(), old(ctx).partitions@))
                    &&& step matches Step::RunSync(lane, stream, batch) ==> lane == p && Some(
                        (stream, batch),
                    ) == work_for(refill(old(self).lanes()[p].state(), old(ctx).partitions@))
                    &&& step is RunAsync <==> final(self).lanes()[p].status()
                        == Schedule::PendingAsync
                    &&& step is RunSync <==> final(self).lanes()[p].status()
                        == Schedule::PendingSync
                    &&& final(self).lanes()[p].port() is Failed ==> final(self).error() is Some
                    &&& final(self).error() is Some && old(self).error() is None ==> final(self).lanes()[p].port() == PortState::<D>::Failed(final(self).error()->0)
                    &&& forall|i: int|
                        0 <= i < old(self).lanes().len() && i != p ==> final(self).lanes()[i]
                            == old(self).lanes()[i]
                } else {
                    &&& final(self).cursor() == 0
                    &&& step is Progress
                    &&& final(ctx).partitions@ == old(ctx).partitions@
                    &&& final(self).sink_polled(old(self))
                    &&& forall|i: int|
                        0 <= i < old(self).lanes().len() ==> final(self).source_untouched(
                            old(self),
                            i,
                        )
                },
            },
            !old(self).aborting(old(ctx)) ==> forall|i: int|
                0 <= i < old(self).lanes().len() && (#[trigger] old(self).lanes()[i]).status()
                    != Schedule::Queued ==> final(self).source_untouched(old(self), i),
            !old(self).aborting(old(ctx)) ==> forall|i: int|
                0 <= i < old(self).lanes().len() && (#[trigger] old(self).lanes()[i]).port()
                    is Holding ==> final(self).source_pushed_nothing(old(self), i),
    {
        if self.error.is_some() {
            ctx.cancel();
        }
        if ctx.is_cancelled() {
            self.drain(ctx);
            return Step::Done;
        }
        let n = self.lanes.len();
        let start = self.cursor;
        match self.find_queued(start, n) {
            Some(lane) => {
                self.cursor = lane + 1;
                return self.poll_lane(lane, ctx);
            },
            None => {},
        }
        if self.sink == Schedule::Queued {
            self.cursor = 0;
            let ghost mid = *self;
            self.poll_sink();
            proof {
                assert forall|i: int| 0 <= i < n implies self.source_untouched(old(self), i)
                    && self.source_pushed_nothing(old(self), i) by {
                    assert(self.source_untouched(&mid, i));
                }
                assert(mid.lanes() == old(self).lanes());
                assert(mid.next_pull() == old(self).next_pull());
                if let Some(k) = mid.next_pull() {
                    assert(self.pulled_from(&mid, k));
                    assert(self.pulled_from(old(self), k));
                }
            }
            return Step::Progress;
        }
        match self.find_queued(0, start) {
            Some(lane) => {
                self.cursor = lane + 1;
                return self.poll_lane(lane, ctx);
            },
            None => {},
        }
        if self.is_done() {
            Step::Done
        } else {
            Step::Idle
        }
    }

    /// Hands out what the pipeline produced.
    ///
    /// With an error on record, the answer is that error, as the processor
    /// reported it. Without one, a cancelled query gives a `CancelledError`,
    /// and a pipeline that is not finished an `InternalError`. Otherwise the
    /// answer holds, for each lane, the blocks that its processor pushed, all
    /// of them and in order, as many as batches were fetched.
    pub fn finish(self, ctx: &QueryContext) -> (r: Result<Vec<Vec<D>>, ErrorCode>)
        requires
            self.inv(),
        ensures
            self.error() matches Some(e) ==> r == Err::<Vec<Vec<D>>, ErrorCode>(e),
            self.error() is None && ctx.cancelled ==> is_failure(
                r,
                ErrorKind::CancelledError,
                "query was cancelled"@,
            ),
            self.error() is None && !ctx.cancelled && !self.finished_cleanly() ==> is_failure(
                r,
                ErrorKind::InternalError,
                "pipeline is not finished"@,
            ),
            self.error() is None && !ctx.cancelled && self.finished_cleanly() ==> is_output_of(
                r,
                self.lanes(),
            ),
    {
        if let Some(e) = self.error {
            return Err(e);
        }
        if ctx.is_cancelled() {
            return Err(ErrorCode::create(ErrorKind::CancelledError, "query was cancelled"));
        }
        if !self.is_done() || self.any_aborted() {
            return Err(ErrorCode::create(ErrorKind::InternalError, "pipeline is not finished"));
        }
        let ghost all = self.lanes@;
        let n = self.lanes.len();
        let mut lanes = self.lanes;
        let mut reversed: Vec<Vec<D>> = Vec::new();
        while lanes.len() > 0
            invariant
                lanes@.len() + reversed@.len() == n,
                n == all.len(),
                forall|k: int| 0 <= k < lanes@.len() ==> lanes@[k] == all[k],
                forall|k: int|
                    0 <= k < reversed@.len() ==> (#[trigger] reversed@[k])@ == all[n - 1
                        - k].received(),
            decreases lanes@.len(),
        {
            let lane = lanes.pop().unwrap();
            reversed.push(lane.into_received());
        }
        let mut blocks: Vec<Vec<D>> = Vec::new();
        while reversed.len() > 0
            invariant
                reversed@.len() + blocks@.len() == n,
                n == all.len(),
                forall|k: int|
                    0 <= k < reversed@.len() ==> (#[trigger] reversed@[k])@ == all[n - 1
                        - k].received(),
                forall|k: int| 0 <= k < blocks@.len() ==> (#[trigger] blocks@[k])@ == all[k].received(),
            decreases reversed@.len(),
        {
            let received = reversed.pop().unwrap();
            blocks.push(received);
        }
        proof {
            assert forall|i: int| 0 <= i < n implies (#[trigger] blocks@[i])@ == all[i].pushed()
                && all[i].fetched() == all[i].pushed().len() by {
                assert(all[i].inv());
                assert(all[i].received() + held(all[i].port()) =~= all[i].received());
            }
        }
        Ok(blocks)
    }

    /// Whether every processor is done and no lane was aborted: nothing was
    /// cancelled and nothing failed.
    pub open spec fn finished_cleanly(&self) -> bool {
        &&& self.all_finished()
        &&& forall|i: int|
            0 <= i < self.lanes().len() ==> !(#[trigger] self.lanes()[i]).aborted()
    }

    /// Whether a lane was aborted.
    fn any_aborted(&self) -> (any: bool)
        ensures
            any == !(forall|i: int|
                0 <= i < self.lanes@.len() ==> !(#[trigger] self.lanes@[i]).aborted()),
    {
        let mut k: usize = 0;
        while k < self.lanes.len()
            invariant
                k <= self.lanes@.len(),
                forall|j: int| 0 <= j < k ==> !(#[trigger] self.lanes@[j]).aborted(),
            decreases self.lanes@.len() - k,
        {
            if self.lanes[k].is_aborted() {
                return true;
            }
            k += 1;
        }
        false
    }
}

} // verus!
