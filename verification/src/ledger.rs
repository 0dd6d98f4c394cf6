use vstd::prelude::*;
use crate::address::Address;
use crate::record::Pool;

verus! {

/// A pool as the ledger keeps it: under the address of its control record.
struct Entry {
    control: Address,
    pool: Pool,
}

/// The pools of one program, each under the address of its control record.
/// A pool's share mint and vaults are made with its record and live as long
/// as it does, so one of them exists exactly where the record does.
pub struct Ledger {
    program: Address,
    entries: Vec<Entry>,
}

impl Ledger {
    /// No address holds two pools, and every pool is valid. A new ledger is
    /// so, and every instruction keeps it so.
    pub closed spec fn wf(self) -> bool {
        &&& forall|i: int, j: int|
            0 <= i < j < self.entries@.len() ==> (#[trigger] self.entries@[i]).control != (
            #[trigger] self.entries@[j]).control
        &&& forall|i: int| 0 <= i < self.entries@.len() ==> (#[trigger] self.entries@[i]).pool.valid()
    }

    /// Some entry stands under `control`.
    spec fn holds(self, control: Address) -> bool {
        exists|i: int| 0 <= i < self.entries@.len() && #[trigger] self.entries@[i].control == control
    }

    /// The place of an entry under `control`.
    spec fn place(self, control: Address) -> int {
        choose|i: int| 0 <= i < self.entries@.len() && #[trigger] self.entries@[i].control == control
    }

    /// The pools of the ledger by the addresses of their control records.
    pub closed spec fn view(self) -> Map<Address, Pool> {
        Map::new(|control: Address| self.holds(control), |control: Address| self.entries@[self.place(control)].pool)
    }

    /// The program that the pools belong to.
    pub closed spec fn program(self) -> Address {
        self.program
    }

    /// Every pool of a ledger is valid.
    pub proof fn lemma_pools_valid(self)
        requires
            self.wf(),
        ensures
            forall|control: Address| #[trigger]
                self@.contains_key(control) ==> self@[control].valid(),
    {
        assert forall|control: Address| #[trigger] self@.contains_key(control) implies self@[control].valid() by {
            let k = self.place(control);
            assert(self.entries@[k].pool.valid());
        }
    }

    /// A ledger without pools.
    pub fn new(program: Address) -> (r: Ledger)
        ensures
            r.wf(),
            r@ == Map::<Address, Pool>::empty(),
            r.program() == program,
    {
        let r = Ledger { program, entries: Vec::new() };
        assert(r@ =~= Map::<Address, Pool>::empty());
        r
    }

    /// The address of the program that the pools belong to.
    pub fn program_id(&self) -> (r: Address)
        ensures
            r == self.program(),
    {
        self.program
    }

    /// The place of the pool under `control`, if there is one.
    fn find(&self, control: &Address) -> (r: Option<usize>)
        requires
            self.wf(),
        ensures
            match r {
                Some(i) => i < self.entries@.len() && self.entries@[i as int].control == *control
                    && self@.contains_key(*control) && self@[*control]
                    == self.entries@[i as int].pool,
                None => !self@.contains_key(*control),
            },
    {
        let mut i: usize = 0;
        while i < self.entries.len()
            invariant
                self.wf(),
                i <= self.entries@.len(),
                forall|j: int| 0 <= j < i ==> self.entries@[j].control != *control,
            decreases self.entries@.len() - i,
        {
            if self.entries[i].control == *control {
                proof {
                    assert(self.holds(*control));
                    let k = self.place(*control);
                    assert(self.entries@[k].control == self.entries@[i as int].control);
                    assert(k == i);
                }
                return Some(i);
            }
            i = i + 1;
        }
        None
    }

    /// The pool whose control record is at `control`, if there is one.
    pub fn pool(&self, control: &Address) -> (r: Option<Pool>)
        requires
            self.wf(),
        ensures
            r == if self@.contains_key(*control) {
                Some(self@[*control])
            } else {
                None::<Pool>
            },
            r matches Some(pool) ==> pool.valid(),
    {
        match self.find(control) {
            Some(i) => Some(self.entries[i].pool),
            None => None,
        }
    }

    /// Tells whether a control record is at `control`.
    pub fn contains(&self, control: &Address) -> (r: bool)
        requires
            self.wf(),
        ensures
            r == self@.contains_key(*control),
    {
        self.find(control).is_some()
    }

    /// Puts `pool` under `control`, in place of the pool that was there if
    /// there was one.
    pub(crate) fn put(&mut self, control: Address, pool: Pool)
        requires
            old(self).wf(),
            pool.valid(),
        ensures
            final(self).wf(),
            final(self)@ == old(self)@.insert(control, pool),
            final(self).program() == old(self).program(),
    {
        let ghost before = *self;
        match self.find(&control) {
            Some(i) => {
                self.entries[i] = Entry { control, pool };
                proof {
                    let after = *self;
                    assert forall|a: Address| after.holds(a) == (before.holds(a) || a == control) by {
                        if before.holds(a) {
                            let k = before.place(a);
                            assert(after.entries@[k].control == a);
                        }
                        if after.holds(a) {
                            let k = after.place(a);
                            assert(before.entries@[k].control == a);
                        }
                    }
                    assert forall|a: Address| after.holds(a) implies after.entries@[after.place(a)].pool == (
                    if a == control {
                        pool
                    } else {
                        before.entries@[before.place(a)].pool
                    }) by {
                        let k = after.place(a);
                        if a != control {
                            assert(before.entries@[k].control == a);
                            assert(before.holds(a));
                        }
                    }
                    assert(after@ =~= before@.insert(control, pool));
                }
            },
            None => {
                self.entries.push(Entry { control, pool });
                proof {
                    let after = *self;
                    let n = before.entries@.len() as int;
                    assert(after.entries@[n].control == control);
                    assert forall|a: Address| after.holds(a) == (before.holds(a) || a == control) by {
                        if before.holds(a) {
                            let k = before.place(a);
                            assert(after.entries@[k].control == a);
                        }
                        if after.holds(a) {
                            let k = after.place(a);
                            if k < n {
                                assert(before.entries@[k].control == a);
                            }
                        }
                    }
                    assert forall|a: Address| after.holds(a) implies after.entries@[after.place(a)].pool == (
                    if a == control {
                        pool
                    } else {
                        before.entries@[before.place(a)].pool
                    }) by {
                        let k = after.place(a);
                        if a != control {
                            assert(k < n);
                            assert(before.entries@[k].control == a);
                            assert(before.holds(a));
                        }
                    }
                    assert(after@ =~= before@.insert(control, pool));
                }
            },
        }
    }
}

} // verus!
