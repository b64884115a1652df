use std::cmp::Ordering;
use vstd::prelude::*;

use crate::frontier::Frontier;
use crate::graph::edge::Cost;

verus! {

/// An entry of a [`MinHeap`]: a cost and the identifier that waits at it.
#[derive(Debug)]
pub struct MinHeapItem(pub Cost, pub u32);

impl PartialEq for MinHeapItem {
    /// Two entries are equal where their costs are, whatever the
    /// identifiers.
    fn eq(&self, other: &Self) -> (equal: bool) {
        self.0 == other.0
    }
}

impl vstd::std_specs::cmp::PartialEqSpecImpl for MinHeapItem {
    open spec fn obeys_eq_spec() -> bool {
        true
    }

    open spec fn eq_spec(&self, other: &Self) -> bool {
        self.0 == other.0
    }
}

impl Eq for MinHeapItem {}

impl PartialOrd for MinHeapItem {
    /// An entry is the greater of two where its cost is the less: the
    /// greatest entry leaves first.
    fn partial_cmp(&self, other: &Self) -> (order: Option<Ordering>) {
        if self.0 < other.0 {
            Some(Ordering::Greater)
        } else if self.0 > other.0 {
            Some(Ordering::Less)
        } else {
            Some(Ordering::Equal)
        }
    }
}

impl vstd::std_specs::cmp::PartialOrdSpecImpl for MinHeapItem {
    open spec fn obeys_partial_cmp_spec() -> bool {
        true
    }

    open spec fn partial_cmp_spec(&self, other: &Self) -> Option<Ordering> {
        if self.0 < other.0 {
            Some(Ordering::Greater)
        } else if self.0 > other.0 {
            Some(Ordering::Less)
        } else {
            Some(Ordering::Equal)
        }
    }
}

/// A priority frontier that hands out the identifier of least cost first:
/// the one of its greatest entry.
///
/// It does not deduplicate: an identifier may wait several times, at
/// different costs, which is what lets a search lower the cost of a node that
/// it has already discovered. Among entries of equal cost the oldest leaves
/// first.
pub struct MinHeap {
    /// The entries that wait, in the order they came.
    pub opened: Vec<MinHeapItem>,
}

/// The position of the least cost among the first `n` entries of `entries`,
/// the first such position where several entries share it.
pub open spec fn first_min(entries: Seq<MinHeapItem>, n: nat) -> int
    decreases n,
{
    if n <= 1 {
        0
    } else {
        let best = first_min(entries, (n - 1) as nat);
        if entries[n - 1].0 < entries[best].0 {
            n - 1
        } else {
            best
        }
    }
}

/// The position that `first_min` gives lies among the first `n` entries, no
/// entry among them costs less, and every entry before it costs more.
pub proof fn lemma_first_min(entries: Seq<MinHeapItem>, n: nat)
    requires
        0 < n <= entries.len(),
    ensures
        0 <= first_min(entries, n) < n,
        forall|j: int|
            0 <= j < n ==> entries[first_min(entries, n)].0 <= (#[trigger] entries[j]).0,
        forall|j: int|
            0 <= j < first_min(entries, n) ==> entries[first_min(entries, n)].0 < (
            #[trigger] entries[j]).0,
    decreases n,
{
    if n > 1 {
        lemma_first_min(entries, (n - 1) as nat);
    }
}

impl View for MinHeap {
    type V = Seq<MinHeapItem>;

    /// The entries that wait, in the order they came.
    open spec fn view(&self) -> Seq<MinHeapItem> {
        self.opened@
    }
}

impl MinHeap {
    /// The position of the entry that leaves next.
    pub open spec fn front(&self) -> int {
        first_min(self@, self@.len())
    }
}

impl Frontier for MinHeap {
    open spec fn pending(&self) -> nat {
        self@.len()
    }

    open spec fn deduplicates() -> bool {
        false
    }

    open spec fn room(&self) -> nat {
        0
    }

    open spec fn accepts(&self, id: u32, cost: Option<Cost>) -> bool {
        true
    }

    /// A push without a cost counts as a push at cost zero.
    open spec fn pushed(&self, id: u32, cost: Option<Cost>, after: &Self) -> bool {
        after@ == self@.push(
            MinHeapItem(
                match cost {
                    Some(c) => c,
                    None => 0,
                },
                id,
            ),
        )
    }

    open spec fn next(&self) -> Option<u32> {
        if self@.len() > 0 {
            Some(self@[self.front()].1)
        } else {
            None
        }
    }

    open spec fn popped(&self, after: &Self) -> bool {
        after@ == if self@.len() > 0 {
            self@.remove(self.front())
        } else {
            self@
        }
    }

    fn new() -> (frontier: Self)
        ensures
            frontier@ == Seq::<MinHeapItem>::empty(),
    {
        MinHeap { opened: Vec::new() }
    }

    fn push(&mut self, id: u32, cost: Option<Cost>) -> (accepted: bool) {
        let cost: Cost = match cost {
            Some(c) => c,
            None => 0,
        };
        self.opened.push(MinHeapItem(cost, id));
        true
    }

    /// Removes and returns an identifier that waits at the least cost: no
    /// entry that stays behind costs less.
    fn pop(&mut self) -> (id: Option<u32>)
        ensures
            id is Some ==> {
                let before = old(self)@;
                let after = final(self)@;
                let at = old(self).front();
                &&& 0 <= at < before.len()
                &&& id == Some(before[at].1)
                &&& forall|j: int|
                    0 <= j < before.len() ==> before[at].0 <= (#[trigger] before[j]).0
                &&& forall|j: int|
                    0 <= j < after.len() ==> before[at].0 <= (#[trigger] after[j]).0
            },
    {
        if self.opened.len() == 0 {
            return None;
        }
        let mut best: usize = 0;
        let mut i: usize = 1;
        while i < self.opened.len()
            invariant
                1 <= i <= self.opened.len(),
                best == first_min(self.opened@, i as nat),
                0 <= best < i,
            decreases self.opened.len() - i,
        {
            if self.opened[i] > self.opened[best] {
                best = i;
            }
            i = i + 1;
        }
        proof {
            lemma_first_min(self.opened@, self.opened@.len());
        }
        let item: MinHeapItem = self.opened.remove(best);
        Some(item.1)
    }

    fn is_empty(&self) -> (empty: bool) {
        self.opened.len() == 0
    }
}

} // verus!
