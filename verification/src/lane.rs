//! A scan processor together with the port that it pushes into and what the
//! consumer has pulled out of that port: one edge of a pipeline, as the
//! scheduler handles it.

use vstd::prelude::*;
use crate::context::QueryContext;
use crate::datavalues::DataSchema;
use crate::error::ErrorCode;
use crate::error::ErrorKind;
use crate::partition::PartInfo;
use crate::port::Port;
use crate::port::PortState;
use crate::processor::Event;
use crate::table_source::AsyncOutcome;
use crate::table_source::AsyncRequest;
use crate::table_source::IcebergTableSource;
use crate::table_source::partitions_left;
use crate::table_source::refill;
use crate::table_source::request_for;
use crate::table_source::state_after;
use crate::table_source::state_after_decode;
use crate::table_source::work_for;
use crate::table_source::State;

verus! {

/// Where a processor stands with the scheduler.
#[derive(Clone, Copy, Debug, PartialEq, Eq, Structural)]
pub enum Schedule {
    /// To be polled.
    Queued,
    /// Waiting for a neighbour to change a port; not polled meanwhile.
    Parked,
    /// Waiting for the outcome of a step of I/O; not polled meanwhile.
    PendingAsync,
    /// Waiting for a batch to be decoded; not polled meanwhile.
    PendingSync,
    /// Done for good.
    Finished,
}

/// What polling a lane came to.
#[derive(Debug)]
pub enum LaneStep<S, B> {
    /// The lane was not polled: it is parked, or waits for an outcome.
    Skipped,
    /// The port is full: the lane is parked until the consumer pulls.
    Parked,
    /// The processor asks for this step of I/O, and waits for its outcome.
    RunAsync(AsyncRequest<S>),
    /// The processor hands out the batch `1` of the stream `0` to be decoded,
    /// and waits for the block.
    RunSync(S, B),
    /// The processor is done for good.
    Finished,
}

/// The units that a port in `state` holds: one or none.
pub open spec fn held<D>(state: PortState<D>) -> Seq<D> {
    match state {
        PortState::Holding(unit) => seq![unit],
        _ => Seq::empty(),
    }
}

/// The number of batches that a processor in `state` has fetched and not
/// handed out yet: one or none.
pub open spec fn pending<S, B>(state: State<S, B>) -> nat {
    match state {
        State::ReadData(_, Some(_)) => 1,
        _ => 0,
    }
}

/// The number of batches that a lane of this standing has handed out to be
/// decoded and not got back: one or none.
pub open spec fn decoding(status: Schedule) -> nat {
    if status == Schedule::PendingSync {
        1
    } else {
        0
    }
}

/// The blocks that a decoded batch adds to what was pushed: the block, or
/// none where decoding failed.
pub open spec fn decoded_blocks<D>(decoded: Result<D, String>) -> Seq<D> {
    match decoded {
        Ok(block) => seq![block],
        Err(_) => Seq::empty(),
    }
}

/// Whether `after` is what a port that was empty is once `decoded` was handed
/// in: it holds the block, or it has failed with an `InputError` that carries
/// the reason.
pub open spec fn port_after_decode<D>(after: PortState<D>, decoded: Result<D, String>) -> bool {
    match decoded {
        Ok(block) => after == PortState::Holding(block),
        Err(detail) => after matches PortState::Failed(e) && e.kind == ErrorKind::InputError
            && e.message@ == "Cannot convert arrow record batch to data block: "@ + detail@,
    }
}

/// A scan processor, its output port, and what was pulled from the port.
pub struct Lane<S, B, D> {
    source: IcebergTableSource<S, B>,
    port: Port<D>,
    received: Vec<D>,
    status: Schedule,
    aborted: bool,
    pushed: Ghost<Seq<D>>,
    fetched: Ghost<nat>,
}

impl<S, B, D> Lane<S, B, D> {
    /// Where the processor is.
    pub closed spec fn state(&self) -> State<S, B> {
        self.source.state()
    }

    /// What the port is.
    pub closed spec fn port(&self) -> PortState<D> {
        self.port@
    }

    /// The blocks that the consumer pulled, in order.
    pub closed spec fn received(&self) -> Seq<D> {
        self.received@
    }

    /// Where the processor stands with the scheduler.
    pub closed spec fn status(&self) -> Schedule {
        self.status
    }

    /// Whether the lane saw the query cancelled, or its processor fail.
    pub closed spec fn aborted(&self) -> bool {
        self.aborted
    }

    /// Every block that the processor pushed since the lane was made, in
    /// order.
    pub closed spec fn pushed(&self) -> Seq<D> {
        self.pushed@
    }

    /// The number of batches that were fetched since the lane was made.
    pub closed spec fn fetched(&self) -> nat {
        self.fetched@
    }

    /// Whether the lane waits for an outcome: of a step of I/O, or of
    /// decoding.
    pub open spec fn waits_for_outcome(&self) -> bool {
        self.status() == Schedule::PendingAsync || self.status() == Schedule::PendingSync
    }

    /// What holds of a lane at all times.
    ///
    /// A finished lane has a finished processor and a finished port, and a
    /// finished port belongs to a finished lane. A lane that waits for an
    /// outcome has handed its state out, and one that waits for a block has an
    /// empty port to put it into. A parked lane has a full port. A lane is
    /// aborted exactly where its processor failed or it saw the query
    /// cancelled. As long as it is not, nothing was lost: every block that was
    /// pushed was pulled or is in the port, and every batch that was fetched
    /// was pushed, is pending, or is out to be decoded.
    pub open spec fn inv(&self) -> bool {
        &&& self.status() == Schedule::Finished ==> self.state() is Finish
            && self.port().is_finished()
        &&& self.waits_for_outcome() ==> self.state() is Finish
        &&& self.status() == Schedule::PendingSync ==> self.port() is Empty
        &&& self.status() == Schedule::Parked ==> self.port() is Holding
        &&& self.port() is Finished ==> self.status() == Schedule::Finished
        &&& self.port() is Failed ==> self.aborted()
        &&& self.aborted() ==> self.port() is Failed || self.status() == Schedule::Finished
        &&& !self.aborted() ==> {
            &&& self.pushed() == self.received() + held(self.port())
            &&& self.fetched() == self.pushed().len() + pending(self.state()) + decoding(
                self.status(),
            )
        }
    }

    /// Whether `self` is what a poll of the processor makes of the lane
    /// `before`, in a query that is not cancelled, where `partitions` were left
    /// before the poll and `left` are left after it.
    ///
    /// Nothing is pulled, fetched or pushed. A processor between data files
    /// takes the next partition. One that finds its port full is parked, and
    /// keeps what it has. Otherwise the lane waits for an outcome or is
    /// finished, and the port is as it was unless the lane is finished.
    pub open spec fn polled_from(
        &self,
        before: &Self,
        partitions: Seq<PartInfo>,
        left: Seq<PartInfo>,
    ) -> bool {
        &&& self.received() == before.received()
        &&& self.fetched() == before.fetched()
        &&& self.pushed() == before.pushed()
        &&& left == partitions_left(before.state(), partitions)
        &&& self.status() != Schedule::Queued
        &&& self.status() == Schedule::Parked <==> before.port() is Holding
        &&& before.port() is Holding ==> self.state() == refill(before.state(), partitions)
        &&& self.status() != Schedule::Finished ==> self.port() == before.port()
        &&& before.port() is Failed ==> self.port() == before.port()
        &&& self.status() == Schedule::PendingSync <==> before.port() is Empty && work_for(
            refill(before.state(), partitions),
        ) is Some
        &&& self.status() == Schedule::PendingAsync <==> before.port() is Empty && request_for(
            refill(before.state(), partitions),
        ) is Some
        &&& self.waits_for_outcome() ==> self.state() is Finish
        &&& self.status() == Schedule::Finished ==> self.state() is Finish
            && self.port().is_finished()
    }

    /// A lane that finished without being aborted lost nothing: the consumer
    /// pulled every block that the processor pushed, in the order pushed, and
    /// the processor pushed one block for each batch that was fetched.
    pub proof fn lemma_finished_lane_lost_nothing(&self)
        requires
            self.inv(),
            self.status() == Schedule::Finished,
            !self.aborted(),
        ensures
            self.received() == self.pushed(),
            self.fetched() == self.pushed().len(),
            self.port() is Finished,
    {
        assert(self.received() + held(self.port()) =~= self.received());
    }

    /// As long as a lane is not aborted, every block that was pushed is with
    /// the consumer or in the port, and the port holds at most one.
    pub proof fn lemma_nothing_piles_up(&self)
        requires
            self.inv(),
            !self.aborted(),
        ensures
            self.received().len() <= self.pushed().len() <= self.received().len() + 1,
            self.received() == self.pushed().subrange(0, self.received().len() as int),
            self.pushed().len() <= self.fetched() <= self.pushed().len() + 1,
    {
        assert(self.received() =~= (self.received() + held(self.port())).subrange(
            0,
            self.received().len() as int,
        ));
    }

    /// A lane whose processor is between data files, with an empty port, to
    /// be polled.
    pub fn create(source_schema: DataSchema, output_schema: DataSchema) -> (lane: Lane<S, B, D>)
        ensures
            lane.inv(),
            lane.state() == State::<S, B>::ReadMeta(None),
            lane.port() is Empty,
            lane.received() == Seq::<D>::empty(),
            lane.pushed() == Seq::<D>::empty(),
            lane.fetched() == 0,
            lane.status() == Schedule::Queued,
            !lane.aborted(),
    {
        let source = IcebergTableSource::create(source_schema, output_schema).unwrap();
        let lane = Lane {
            source,
            port: Port::new(),
            received: Vec::new(),
            status: Schedule::Queued,
            aborted: false,
            pushed: Ghost(Seq::empty()),
            fetched: Ghost(0),
        };
        assert(lane.received() + held(lane.port()) =~= lane.pushed());
        lane
    }

    /// Whether the lane is done for good.
    pub fn is_finished(&self) -> (b: bool)
        ensures
            b == (self.status() == Schedule::Finished),
    {
        self.status == Schedule::Finished
    }

    /// Whether the lane saw the query cancelled, or its processor fail.
    pub fn is_aborted(&self) -> (b: bool)
        ensures
            b == self.aborted(),
    {
        self.aborted
    }

    /// Whether the lane is to be polled.
    pub fn is_queued(&self) -> (b: bool)
        ensures
            b == (self.status() == Schedule::Queued),
    {
        self.status == Schedule::Queued
    }

    /// Whether the lane waits for the outcome of a step of I/O.
    pub fn is_pending(&self) -> (b: bool)
        ensures
            b == (self.status() == Schedule::PendingAsync),
    {
        self.status == Schedule::PendingAsync
    }

    /// Whether the lane waits for a batch to be decoded.
    pub fn is_computing(&self) -> (b: bool)
        ensures
            b == (self.status() == Schedule::PendingSync),
    {
        self.status == Schedule::PendingSync
    }

    /// Whether a block waits in the port.
    pub fn has_data(&self) -> (b: bool)
        ensures
            b == (self.port() is Holding),
    {
        self.port.has_data()
    }

    /// Whether no more blocks will come out of the port.
    pub fn is_port_finished(&self) -> (b: bool)
        ensures
            b == self.port().is_finished(),
    {
        self.port.is_finished()
    }

    /// The error that the processor reported, if it failed.
    pub fn error(&self) -> (e: Option<&ErrorCode>)
        ensures
            match self.port() {
                PortState::Failed(err) => e == Some(&err),
                _ => e is None,
            },
    {
        self.port.error()
    }

    /// How many blocks the consumer has pulled.
    pub fn num_received(&self) -> (n: usize)
        ensures
            n == self.received().len(),
    {
        self.received.len()
    }

    /// The blocks that the consumer has pulled, in order.
    pub fn into_received(self) -> (blocks: Vec<D>)
        ensures
            blocks@ == self.received(),
    {
        self.received
    }

    /// Polls the processor, if it is its turn.
    ///
    /// Once the query is cancelled, every lane that is not finished is polled,
    /// and finishes. Before that, only a queued lane is polled: a parked one and
    /// one that waits for an outcome are skipped, and stay as they are. A
    /// processor that finds its port full is parked, with the port and what it
    /// has fetched untouched. One that asks for I/O is told to start it, one
    /// that has a batch to decode hands it out, and either waits.
    pub fn poll(&mut self, ctx: &mut QueryContext) -> (step: LaneStep<S, B>)
        requires
            old(self).inv(),
        ensures
            final(self).inv(),
            final(ctx).cancelled == old(ctx).cancelled,
            final(ctx).status == old(ctx).status,
            final(ctx).local_id == old(ctx).local_id,
            final(self).received() == old(self).received(),
            final(self).fetched() == old(self).fetched(),
            final(self).pushed() == old(self).pushed(),
            old(self).aborted() ==> final(self).aborted(),
            final(self).aborted() && !old(self).aborted() ==> old(ctx).cancelled || final(self).port()
                is Failed,
            old(self).port() is Failed ==> final(self).port() == old(self).port(),
            old(self).port().is_finished() ==> final(self).port().is_finished(),
            final(self).port() is Holding ==> old(self).port() is Holding,
            old(self).status() == Schedule::Finished ==> step is Finished && *final(self) == *old(
                self,
            ) && *final(ctx) == *old(ctx),
            step is Finished <==> final(self).status() == Schedule::Finished,
            step is Parked ==> final(self).status() == Schedule::Parked,
            step is Skipped ==> *final(self) == *old(self) && *final(ctx) == *old(ctx),
            step is Skipped <==> !old(ctx).cancelled && old(self).status() != Schedule::Queued
                && old(self).status() != Schedule::Finished,
            old(ctx).cancelled ==> step is Finished && final(ctx).partitions@ == old(
                ctx,
            ).partitions@,
            old(ctx).cancelled && old(self).status() != Schedule::Finished ==> final(self).port()
                == old(self).port().finish(),
            !old(ctx).cancelled && old(self).status() == Schedule::Queued ==> {
                &&& final(self).polled_from(old(self), old(ctx).partitions@, final(ctx).partitions@)
                &&& step is RunAsync <==> final(self).status() == Schedule::PendingAsync
                &&& step is RunSync <==> final(self).status() == Schedule::PendingSync
                &&& step matches LaneStep::RunAsync(request) ==> Some(request) == request_for(
                    refill(old(self).state(), old(ctx).partitions@),
                )
                &&& step matches LaneStep::RunSync(stream, batch) ==> Some((stream, batch))
                    == work_for(refill(old(self).state(), old(ctx).partitions@))
            },
    {
        let cancelled = ctx.is_cancelled();
        if self.status == Schedule::Finished {
            return LaneStep::Finished;
        }
        if cancelled {
            self.aborted = true;
        } else if self.status != Schedule::Queued {
            return LaneStep::Skipped;
        }
        let event = self.source.event(ctx, &mut self.port);
        if self.port.error().is_some() {
            self.aborted = true;
        }
        match event {
            Event::Finished => {
                self.status = Schedule::Finished;
                LaneStep::Finished
            },
            Event::NeedsConsume => {
                self.status = Schedule::Parked;
                LaneStep::Parked
            },
            Event::Ready => {
                match self.source.process(&mut self.port) {
                    Some((stream, batch)) => {
                        self.status = Schedule::PendingSync;
                        LaneStep::RunSync(stream, batch)
                    },
                    None => {
                        self.aborted = true;
                        self.status = Schedule::Finished;
                        LaneStep::Finished
                    },
                }
            },
            _ => {
                match self.source.async_process(&mut self.port) {
                    Some(request) => {
                        self.status = Schedule::PendingAsync;
                        LaneStep::RunAsync(request)
                    },
                    None => {
                        self.aborted = true;
                        self.status = Schedule::Finished;
                        LaneStep::Finished
                    },
                }
            },
        }
    }

    /// Pulls the block that waits in the port, if there is one, and says
    /// whether there was. A lane that was parked on the full port is queued
    /// again.
    pub fn pull(&mut self) -> (pulled: bool)
        requires
            old(self).inv(),
        ensures
            final(self).inv(),
            pulled == (old(self).port() is Holding),
            final(self).received() == old(self).received() + held(old(self).port()),
            final(self).port() == old(self).port().pull(),
            final(self).pushed() == old(self).pushed(),
            final(self).fetched() == old(self).fetched(),
            final(self).state() == old(self).state(),
            final(self).aborted() == old(self).aborted(),
            final(self).status() == if pulled && old(self).status() == Schedule::Parked {
                Schedule::Queued
            } else {
                old(self).status()
            },
    {
        match self.port.try_pull() {
            Some(unit) => {
                self.received.push(unit);
                if self.status == Schedule::Parked {
                    self.status = Schedule::Queued;
                }
                proof {
                    assert(self.received@ =~= old(self).received@ + held(old(self).port@));
                    assert(self.received@ + held(self.port@) =~= old(self).received@ + held(
                        old(self).port@,
                    ));
                }
                true
            },
            None => {
                proof {
                    assert(self.received@ =~= old(self).received@ + held(old(self).port@));
                }
                false
            },
        }
    }

    /// Hands the outcome of a step of I/O to the processor, and queues the
    /// lane again. A lane that does not wait for such an outcome takes none:
    /// it stays as it is, and the answer is `false`.
    pub fn complete_async(&mut self, outcome: AsyncOutcome<S, B>) -> (accepted: bool)
        requires
            old(self).inv(),
        ensures
            final(self).inv(),
            accepted == (old(self).status() == Schedule::PendingAsync),
            !accepted ==> *final(self) == *old(self),
            accepted ==> final(self).status() == Schedule::Queued,
            accepted ==> final(self).state() == state_after(outcome),
            accepted ==> final(self).port() == match outcome {
                AsyncOutcome::Failed(err) => old(self).port().fail(err),
                _ => old(self).port(),
            },
            final(self).received() == old(self).received(),
            final(self).pushed() == old(self).pushed(),
            final(self).fetched() == if accepted && outcome is Fetched {
                old(self).fetched() + 1
            } else {
                old(self).fetched()
            },
            old(self).aborted() ==> final(self).aborted(),
            final(self).aborted() && !old(self).aborted() ==> outcome is Failed && final(self).port()
                is Failed,
            accepted && outcome is Failed ==> final(self).port() is Failed,
            old(self).port() is Failed ==> final(self).port() == old(self).port(),
            old(self).port().is_finished() ==> final(self).port().is_finished(),
            final(self).port() is Holding ==> old(self).port() is Holding,
    {
        if self.status != Schedule::PendingAsync {
            return false;
        }
        let ghost is_fetch = outcome is Fetched;
        self.source.async_process_complete(&mut self.port, outcome);
        proof {
            if is_fetch {
                self.fetched@ = self.fetched@ + 1;
            }
        }
        if self.port.error().is_some() {
            self.aborted = true;
        }
        self.status = Schedule::Queued;
        true
    }

    /// Hands the batch that was out to be decoded back to the processor,
    /// decoded or with the reason why it could not be, and queues the lane
    /// again: the block goes into the port, a failure is reported on it. A
    /// lane that does not wait for a block takes none: it stays as it is, and
    /// the answer is `false`.
    pub fn complete_sync(&mut self, stream: S, decoded: Result<D, String>) -> (accepted: bool)
        requires
            old(self).inv(),
        ensures
            final(self).inv(),
            accepted == (old(self).status() == Schedule::PendingSync),
            !accepted ==> *final(self) == *old(self),
            accepted ==> final(self).status() == Schedule::Queued,
            accepted ==> final(self).state() == state_after_decode::<S, B, D>(stream, decoded),
            accepted ==> port_after_decode(final(self).port(), decoded),
            accepted ==> final(self).pushed() == old(self).pushed() + decoded_blocks(decoded),
            final(self).received() == old(self).received(),
            final(self).fetched() == old(self).fetched(),
            old(self).aborted() ==> final(self).aborted(),
            accepted ==> final(self).aborted() == (decoded is Err),
            old(self).port().is_finished() ==> final(self).port().is_finished(),
    {
        if self.status != Schedule::PendingSync {
            return false;
        }
        let ghost blocks = decoded_blocks(decoded);
        let _ = self.source.emit(&mut self.port, stream, decoded);
        proof {
            self.pushed@ = self.pushed@ + blocks;
            assert(self.received@ + held(self.port@) =~= self.pushed@);
        }
        if self.port.error().is_some() {
            self.aborted = true;
        }
        self.status = Schedule::Queued;
        true
    }
}

} // verus!
