//! Where an exchange sends the rows that reach it.

use vstd::prelude::*;
use crate::plan::FragmentKind;

verus! {

/// The partitioning of a boundary between fragments: how rows are routed,
/// and by which columns. The planner makes it; lowering the plan reads it.
#[derive(Debug)]
pub struct ExchangeFragment {
    pub kind: FragmentKind,
    /// The columns that rows are routed by, as indices into the schema.
    pub keys: Vec<usize>,
}

/// The downstream partitions, out of `partitions` many, that a row whose keys
/// hash to `key_hash` is sent to.
///
/// A merge sends every row to the one consumer. A shuffle sends a row to the
/// partition that its hash picks. A broadcast sends it to all of them, in
/// order. Without partitions a row goes nowhere.
pub open spec fn spec_destinations(kind: FragmentKind, key_hash: u64, partitions: nat) -> Seq<
    usize,
> {
    if partitions == 0 {
        Seq::empty()
    } else {
        match kind {
            FragmentKind::Merge => seq![0usize],
            FragmentKind::Shuffle => seq![(key_hash as nat % partitions) as usize],
            FragmentKind::Broadcast => Seq::new(partitions, |i: int| i as usize),
        }
    }
}

impl ExchangeFragment {
    /// The boundary that routes rows as `kind` says, by the columns `keys`.
    pub fn new(kind: FragmentKind, keys: Vec<usize>) -> (fragment: ExchangeFragment)
        ensures
            fragment.kind == kind,
            fragment.keys == keys,
    {
        ExchangeFragment { kind, keys }
    }

    /// The downstream partitions, out of `partitions` many, that a row whose
    /// keys hash to `key_hash` is sent to.
    pub fn destinations(&self, key_hash: u64, partitions: usize) -> (to: Vec<usize>)
        ensures
            to@ == spec_destinations(self.kind, key_hash, partitions as nat),
    {
        let mut to: Vec<usize> = Vec::new();
        if partitions == 0 {
            return to;
        }
        match self.kind {
            FragmentKind::Merge => {
                to.push(0);
            },
            FragmentKind::Shuffle => {
                to.push((key_hash % partitions as u64) as usize);
            },
            FragmentKind::Broadcast => {
                let mut i: usize = 0;
                while i < partitions
                    invariant
                        i <= partitions,
                        to@ == Seq::new(i as nat, |k: int| k as usize),
                    decreases partitions - i,
                {
                    to.push(i);
                    assert(to@ =~= Seq::new((i + 1) as nat, |k: int| k as usize));
                    i += 1;
                }
            },
        }
        assert(to@ =~= spec_destinations(self.kind, key_hash, partitions as nat));
        to
    }
}

/// Every row is sent to partitions that exist. A merge sends it to the first,
/// a shuffle to exactly one, a broadcast to each exactly once.
pub proof fn lemma_destinations_exist(kind: FragmentKind, key_hash: u64, partitions: nat)
    requires
        0 < partitions <= usize::MAX,
    ensures
        forall|k: int|
            0 <= k < spec_destinations(kind, key_hash, partitions).len() ==> (
            #[trigger] spec_destinations(kind, key_hash, partitions)[k]) < partitions,
        kind != FragmentKind::Broadcast ==> spec_destinations(kind, key_hash, partitions).len()
            == 1,
        kind == FragmentKind::Merge ==> spec_destinations(kind, key_hash, partitions)[0] == 0,
        kind == FragmentKind::Broadcast ==> spec_destinations(kind, key_hash, partitions).len()
            == partitions && forall|p: int|
            0 <= p < partitions ==> #[trigger] spec_destinations(kind, key_hash, partitions)[p]
                == p,
{
}

} // verus!
