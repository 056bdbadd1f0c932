//! A registry of identities: the administrators, or the payout agents.

use vstd::prelude::*;
use crate::types::Address;

verus! {

/// A finite set of identities, kept as a list in which none occurs twice.
#[derive(Clone, Debug)]
pub struct Registry {
    members: Vec<Address>,
}

impl View for Registry {
    type V = Set<Address>;

    closed spec fn view(&self) -> Set<Address> {
        self.members@.to_set()
    }
}

impl Registry {
    /// No identity is listed twice.
    pub closed spec fn wf(&self) -> bool {
        self.members@.no_duplicates()
    }

    /// The listed identities, in the order in which they were added.
    pub closed spec fn listing(&self) -> Seq<Address> {
        self.members@
    }

    /// A well-formed registry is a finite set with one member per list entry.
    pub proof fn lemma_finite(&self)
        requires
            self.wf(),
        ensures
            self@.finite(),
            self@.len() == self.listing().len(),
            self@ == self.listing().to_set(),
            self.listing().no_duplicates(),
    {
        vstd::seq_lib::seq_to_set_is_finite(self.members@);
        self.members@.unique_seq_to_set();
    }

    /// The empty registry.
    pub fn new() -> (r: Registry)
        ensures
            r.wf(),
            r@ == Set::<Address>::empty(),
    {
        let r = Registry { members: Vec::new() };
        r
    }

    /// The position of `who` in the list, if it is a member.
    fn position(&self, who: Address) -> (at: Option<usize>)
        ensures
            match at {
                Some(i) => i < self.members@.len() && self.members@[i as int] == who,
                None => !self.members@.contains(who),
            },
    {
        let mut i: usize = 0;
        while i < self.members.len()
            invariant
                i <= self.members@.len(),
                forall|j: int| 0 <= j < i ==> self.members@[j] != who,
            decreases self.members@.len() - i,
        {
            if self.members[i] == who {
                return Some(i);
            }
            i += 1;
        }
        None
    }

    /// Whether `who` is a member.
    pub fn contains(&self, who: Address) -> (found: bool)
        ensures
            found == self@.contains(who),
    {
        self.position(who).is_some()
    }

    /// The number of members.
    pub fn len(&self) -> (n: usize)
        requires
            self.wf(),
        ensures
            n == self@.len(),
    {
        proof {
            self.lemma_finite();
        }
        self.members.len()
    }

    /// Adds `who`; says whether it was new. A member is not added again.
    pub fn insert(&mut self, who: Address) -> (added: bool)
        requires
            old(self).wf(),
        ensures
            final(self).wf(),
            final(self)@ == old(self)@.insert(who),
            added == !old(self)@.contains(who),
    {
        if self.position(who).is_some() {
            false
        } else {
            self.members.push(who);
            proof {
                old(self).members@.lemma_push_to_set_commute(who);
            }
            true
        }
    }

    /// Takes `who` out; says whether it was a member.
    pub fn remove(&mut self, who: Address) -> (removed: bool)
        requires
            old(self).wf(),
        ensures
            final(self).wf(),
            final(self)@ == old(self)@.remove(who),
            removed == old(self)@.contains(who),
    {
        match self.position(who) {
            Some(i) => {
                self.members.remove(i);
                proof {
                    let before = old(self).members@;
                    let after = self.members@;
                    before.remove_ensures(i as int);
                    assert forall|a: Address|
                        after.to_set().contains(a) == before.to_set().remove(who).contains(
                            a,
                        ) by {
                        if before.contains(a) && a != who {
                            let k = choose|k: int| 0 <= k < before.len() && before[k] == a;
                            if k < i {
                                assert(after[k] == a);
                            } else {
                                assert(after[k - 1] == a);
                            }
                        }
                    }
                }
                true
            },
            None => false,
        }
    }

    /// The members as a list without repeats, in the order in which they were
    /// added.
    pub fn to_vec(&self) -> (list: Vec<Address>)
        requires
            self.wf(),
        ensures
            list@ == self.listing(),
            list@.no_duplicates(),
            list@.to_set() == self@,
    {
        let mut list: Vec<Address> = Vec::new();
        let mut i: usize = 0;
        while i < self.members.len()
            invariant
                i <= self.members@.len(),
                list@ == self.members@.subrange(0, i as int),
            decreases self.members@.len() - i,
        {
            list.push(self.members[i]);
            i += 1;
        }
        assert(list@ =~= self.members@);
        list
    }

    /// The registry that holds the entries of `list`. An identity that occurs
    /// more than once in `list` is taken once.
    pub fn from_vec(list: &Vec<Address>) -> (r: Registry)
        ensures
            r.wf(),
            r@ == list@.to_set(),
    {
        let mut r = Registry::new();
        let mut i: usize = 0;
        while i < list.len()
            invariant
                i <= list@.len(),
                r.wf(),
                r@ == list@.subrange(0, i as int).to_set(),
            decreases list@.len() - i,
        {
            r.insert(list[i]);
            proof {
                list@.subrange(0, i as int).lemma_push_to_set_commute(list@[i as int]);
                assert(list@.subrange(0, i as int).push(list@[i as int]) =~= list@.subrange(
                    0,
                    i + 1,
                ));
            }
            i += 1;
        }
        assert(list@.subrange(0, i as int) =~= list@);
        r
    }
}

} // verus!
