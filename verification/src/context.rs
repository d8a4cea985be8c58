//! The state that one query shares between its interpreter and its
//! processors: the partitions still to be read, the cancellation flag and the
//! status line.

use vstd::prelude::*;
use vstd::string::*;
use std::collections::VecDeque;
use crate::partition::PartInfo;

verus! {

/// Per-query state. It is created when the query starts and handed by
/// reference to whoever needs it; the status line is written through
/// [`QueryContext::set_status_info`] only.
pub struct QueryContext {
    /// The partitions that no processor has taken yet, in plan order.
    pub partitions: VecDeque<PartInfo>,
    /// Whether the query was cancelled.
    pub cancelled: bool,
    /// The last status reported.
    pub status: String,
    /// The identifier of the node this query is coordinated from.
    pub local_id: String,
}

impl QueryContext {
    /// A fresh context on node `local_id`: no partitions, not cancelled, empty
    /// status.
    pub fn create(local_id: &str) -> (ctx: QueryContext)
        ensures
            ctx.partitions@ == Seq::<PartInfo>::empty(),
            !ctx.cancelled,
            ctx.status@ == Seq::<char>::empty(),
            ctx.local_id@ == local_id@,
    {
        QueryContext {
            partitions: VecDeque::new(),
            cancelled: false,
            status: String::new(),
            local_id: String::from_str(local_id),
        }
    }

    /// Replaces the partitions to be read by `parts`.
    pub fn set_partitions(&mut self, parts: Vec<PartInfo>)
        ensures
            final(self).partitions@ == parts@,
            final(self).cancelled == old(self).cancelled,
            final(self).status == old(self).status,
            final(self).local_id == old(self).local_id,
    {
        let mut queue: VecDeque<PartInfo> = VecDeque::new();
        let mut i: usize = 0;
        while i < parts.len()
            invariant
                i <= parts.len(),
                queue@ == parts@.subrange(0, i as int),
            decreases parts.len() - i,
        {
            queue.push_back(parts[i].clone());
            i += 1;
        }
        assert(parts@.subrange(0, parts.len() as int) == parts@);
        self.partitions = queue;
    }

    /// Takes the next partition, if any is left.
    pub fn get_partition(&mut self) -> (part: Option<PartInfo>)
        ensures
            old(self).partitions@.len() == 0 ==> part is None && final(self).partitions@ == old(
                self,
            ).partitions@,
            old(self).partitions@.len() > 0 ==> part == Some(old(self).partitions@[0])
                && final(self).partitions@ == old(self).partitions@.drop_first(),
            final(self).cancelled == old(self).cancelled,
            final(self).status == old(self).status,
            final(self).local_id == old(self).local_id,
    {
        self.partitions.pop_front()
    }

    /// Records `status` as the query's status line.
    pub fn set_status_info(&mut self, status: &str)
        ensures
            final(self).status@ == status@,
            final(self).partitions == old(self).partitions,
            final(self).cancelled == old(self).cancelled,
            final(self).local_id == old(self).local_id,
    {
        self.status = String::from_str(status);
    }

    /// The last status reported.
    pub fn get_status_info(&self) -> (status: &str)
        ensures
            status@ == self.status@,
    {
        self.status.as_str()
    }

    /// Signals cancellation. It cannot be taken back.
    pub fn cancel(&mut self)
        ensures
            final(self).cancelled,
            final(self).partitions == old(self).partitions,
            final(self).status == old(self).status,
            final(self).local_id == old(self).local_id,
    {
        self.cancelled = true;
    }

    /// Whether cancellation was signalled.
    pub fn is_cancelled(&self) -> (c: bool)
        ensures
            c == self.cancelled,
    {
        self.cancelled
    }
}

} // verus!
