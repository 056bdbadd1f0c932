//! The settlement guard: the ids of the remittances that have been paid out.

use vstd::prelude::*;

verus! {

/// The set of remittance ids that have completed payout.
///
/// It is kept apart from the records' status and decides alone whether a
/// remittance may still be paid: an id, once marked, is never taken out.
#[derive(Clone, Debug)]
pub struct SettlementGuard {
    paid: Vec<u64>,
}

impl View for SettlementGuard {
    type V = Set<u64>;

    closed spec fn view(&self) -> Set<u64> {
        self.paid@.to_set()
    }
}

impl SettlementGuard {
    /// No id is listed twice.
    pub closed spec fn wf(&self) -> bool {
        self.paid@.no_duplicates()
    }

    /// The marked ids, in the order in which they were marked.
    pub closed spec fn listing(&self) -> Seq<u64> {
        self.paid@
    }

    /// The guard with no id marked.
    pub fn new() -> (g: SettlementGuard)
        ensures
            g.wf(),
            g@ == Set::<u64>::empty(),
    {
        let g = SettlementGuard { paid: Vec::new() };
        g
    }

    /// Whether `id` has been marked as paid out.
    pub fn contains(&self, id: u64) -> (found: bool)
        ensures
            found == self@.contains(id),
    {
        let mut i: usize = 0;
        while i < self.paid.len()
            invariant
                i <= self.paid@.len(),
                forall|j: int| 0 <= j < i ==> self.paid@[j] != id,
            decreases self.paid@.len() - i,
        {
            if self.paid[i] == id {
                return true;
            }
            i += 1;
        }
        false
    }

    /// Marks `id` as paid out; says whether it was unmarked before.
    pub fn mark(&mut self, id: u64) -> (fresh: bool)
        requires
            old(self).wf(),
        ensures
            final(self).wf(),
            final(self)@ == old(self)@.insert(id),
            fresh == !old(self)@.contains(id),
    {
        if self.contains(id) {
            false
        } else {
            self.paid.push(id);
            proof {
                old(self).paid@.lemma_push_to_set_commute(id);
            }
            true
        }
    }

    /// The marked ids as a list without repeats, in the order in which they
    /// were marked.
    pub fn to_vec(&self) -> (list: Vec<u64>)
        requires
            self.wf(),
        ensures
            list@ == self.listing(),
            list@.no_duplicates(),
            list@.to_set() == self@,
    {
        let mut list: Vec<u64> = Vec::new();
        let mut i: usize = 0;
        while i < self.paid.len()
            invariant
                i <= self.paid@.len(),
                list@ == self.paid@.subrange(0, i as int),
            decreases self.paid@.len() - i,
        {
            list.push(self.paid[i]);
            i += 1;
        }
        assert(list@ =~= self.paid@);
        list
    }

    /// The guard that marks the entries of `list`. An id that occurs more than
    /// once in `list` is marked once.
    pub fn from_vec(list: &Vec<u64>) -> (g: SettlementGuard)
        ensures
            g.wf(),
            g@ == list@.to_set(),
    {
        let mut g = SettlementGuard::new();
        let mut i: usize = 0;
        while i < list.len()
            invariant
                i <= list@.len(),
                g.wf(),
                g@ == list@.subrange(0, i as int).to_set(),
            decreases list@.len() - i,
        {
            g.mark(list[i]);
            proof {
                list@.subrange(0, i as int).lemma_push_to_set_commute(list@[i as int]);
                assert(list@.subrange(0, i as int).push(list@[i as int]) =~= list@.subrange(
                    0,
                    i + 1,
                ));
            }
            i += 1;
        }
        assert(list@.subrange(0, i as int) =~= list@);
        g
    }
}

} // verus!
