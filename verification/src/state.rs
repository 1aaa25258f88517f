//! What the contract keeps between calls: its configuration and the nonce of
//! each principal.

use vstd::prelude::*;

verus! {

/// The address that burnt funds are sent to.
pub const BURN_ADDRESS: &'static str = "terra1sk06e3dyexuq4shw77y3dsv480xv42mq73anxu";

/// The accepted asset and the three role addresses.
#[derive(Clone, Debug, PartialEq, Eq)]
pub struct Config {
    pub stable_denom: String,
    pub burn_address: String,
    pub community_owner: String,
    pub community_dev: String,
}

/// A `Config` as plain text values.
pub struct ConfigModel {
    pub stable_denom: Seq<char>,
    pub burn_address: Seq<char>,
    pub community_owner: Seq<char>,
    pub community_dev: Seq<char>,
}

impl View for Config {
    type V = ConfigModel;

    open spec fn view(&self) -> ConfigModel {
        ConfigModel {
            stable_denom: self.stable_denom@,
            burn_address: self.burn_address@,
            community_owner: self.community_owner@,
            community_dev: self.community_dev@,
        }
    }
}

impl ConfigModel {
    /// No field of an initialized configuration is empty.
    pub open spec fn well_formed(self) -> bool {
        &&& self.stable_denom.len() > 0
        &&& self.burn_address.len() > 0
        &&& self.community_owner.len() > 0
        &&& self.community_dev.len() > 0
    }
}

/// One principal and its nonce.
#[derive(Clone, Debug)]
struct NonceEntry {
    address: String,
    nonce: u64,
}

/// The nonce of each principal that has one. A principal without an entry has
/// nonce 0.
#[derive(Debug)]
pub struct NonceTable {
    entries: Vec<NonceEntry>,
}

impl View for NonceTable {
    type V = Map<Seq<char>, u64>;

    closed spec fn view(&self) -> Map<Seq<char>, u64> {
        Map::new(
            |a: Seq<char>| self.holds(a),
            |a: Seq<char>| self.entries@[self.index_of(a)].nonce,
        )
    }
}

impl Clone for NonceTable {
    fn clone(&self) -> (table: NonceTable)
        ensures
            table@ == self@,
    {
        proof {
            use_type_invariant(self);
        }
        let mut entries: Vec<NonceEntry> = Vec::new();
        let mut i: usize = 0;
        while i < self.entries.len()
            invariant
                i <= self.entries@.len(),
                entries@ == self.entries@.subrange(0, i as int),
            decreases self.entries@.len() - i,
        {
            let entry: &NonceEntry = &self.entries[i];
            entries.push(NonceEntry { address: entry.address.clone(), nonce: entry.nonce });
            assert(entries@ =~= self.entries@.subrange(0, i + 1));
            i = i + 1;
        }
        assert(entries@ =~= self.entries@);
        let table = NonceTable { entries };
        assert forall|a: Seq<char>, k: int| table.holds_at(a, k) == self.holds_at(a, k) by {}
        assert(table@ =~= self@);
        table
    }
}

impl NonceTable {
    spec fn holds_at(&self, a: Seq<char>, i: int) -> bool {
        0 <= i < self.entries@.len() && self.entries@[i].address@ == a
    }

    spec fn holds(&self, a: Seq<char>) -> bool {
        exists|i: int| self.holds_at(a, i)
    }

    spec fn index_of(&self, a: Seq<char>) -> int {
        choose|i: int| self.holds_at(a, i)
    }

    /// Each principal has at most one entry.
    #[verifier::type_invariant]
    spec fn well_formed(&self) -> bool {
        forall|i: int, j: int|
            0 <= i < j < self.entries@.len() ==> (#[trigger] self.entries@[i]).address@ != (
            #[trigger] self.entries@[j]).address@
    }

    /// The nonce of a principal: its entry, or 0 where it has none.
    pub open spec fn nonce_of(&self, address: Seq<char>) -> u64 {
        if self@.dom().contains(address) {
            self@[address]
        } else {
            0
        }
    }

    proof fn lemma_index_unique(&self, a: Seq<char>, i: int)
        requires
            self.well_formed(),
            self.holds_at(a, i),
        ensures
            self.holds(a),
            self.index_of(a) == i,
    {
        let k = self.index_of(a);
        assert(self.holds_at(a, k));
        if k < i {
            assert(self.entries@[k].address@ != self.entries@[i].address@);
        } else if i < k {
            assert(self.entries@[i].address@ != self.entries@[k].address@);
        }
    }

    /// A table without entries.
    pub fn new() -> (table: NonceTable)
        ensures
            table@ == Map::<Seq<char>, u64>::empty(),
    {
        let entries: Vec<NonceEntry> = Vec::new();
        assert(entries@.len() == 0);
        let table = NonceTable { entries };
        assert(table@ =~= Map::<Seq<char>, u64>::empty());
        table
    }

    fn position(&self, address: &String) -> (r: Option<usize>)
        ensures
            match r {
                Some(i) => self.holds_at(address@, i as int),
                None => !self.holds(address@),
            },
    {
        let mut i: usize = 0;
        while i < self.entries.len()
            invariant
                i <= self.entries@.len(),
                forall|j: int| 0 <= j < i ==> !self.holds_at(address@, j),
            decreases self.entries@.len() - i,
        {
            if self.entries[i].address == *address {
                return Some(i);
            }
            i = i + 1;
        }
        None
    }

    /// The nonce of `address`.
    pub fn load(&self, address: &str) -> (nonce: u64)
        ensures
            nonce == self.nonce_of(address@),
    {
        let key: String = address.to_owned();
        match self.position(&key) {
            Some(i) => {
                proof {
                    use_type_invariant(self);
                    self.lemma_index_unique(address@, i as int);
                }
                self.entries[i].nonce
            },
            None => 0,
        }
    }

    /// Sets the nonce of `address`, making its entry where it has none.
    pub fn save(&mut self, address: &str, nonce: u64)
        ensures
            final(self)@ == old(self)@.insert(address@, nonce),
    {
        proof {
            use_type_invariant(&*self);
        }
        let key: String = address.to_owned();
        let found: Option<usize> = self.position(&key);
        let mut entries: Vec<NonceEntry> = Vec::new();
        std::mem::swap(&mut self.entries, &mut entries);
        match found {
            Some(i) => {
                entries.set(i, NonceEntry { address: key, nonce });
                self.entries = entries;
                proof {
                    let before = *old(self);
                    let after = *self;
                    assert forall|j: int| 0 <= j < after.entries@.len() implies (
                    #[trigger] after.entries@[j]).address@ == before.entries@[j].address@ by {}
                    assert(after.well_formed());
                    assert forall|a: Seq<char>| after.holds(a) == before.holds(a) by {
                        if after.holds(a) {
                            assert(before.holds_at(a, after.index_of(a)));
                        }
                        if before.holds(a) {
                            assert(after.holds_at(a, before.index_of(a)));
                        }
                    }
                    assert forall|a: Seq<char>| after.holds(a) implies after@[a]
                        == before@.insert(address@, nonce)[a] by {
                        let k = after.index_of(a);
                        assert(before.holds_at(a, k));
                        before.lemma_index_unique(a, k);
                        if a == address@ {
                            before.lemma_index_unique(a, i as int);
                        }
                    }
                    assert(after.holds_at(address@, i as int));
                    assert(after@ =~= before@.insert(address@, nonce));
                }
            },
            None => {
                entries.push(NonceEntry { address: key, nonce });
                proof {
                    let before = *old(self);
                    let last = before.entries@.len() as int;
                    assert forall|i: int, j: int| 0 <= i < j < entries@.len() implies (
                    #[trigger] entries@[i]).address@ != (#[trigger] entries@[j]).address@ by {
                        if j == last {
                            assert(!before.holds_at(address@, i));
                        } else {
                            assert(before.entries@[i].address@ != before.entries@[j].address@);
                        }
                    }
                }
                self.entries = entries;
                proof {
                    let before = *old(self);
                    let after = *self;
                    let last = before.entries@.len() as int;
                    assert(after.holds_at(address@, last));
                    assert forall|a: Seq<char>|
                        after.holds(a) == (a == address@ || before.holds(a)) by {
                        if after.holds(a) {
                            let k = after.index_of(a);
                            if k < last {
                                assert(before.holds_at(a, k));
                            }
                        }
                        if before.holds(a) {
                            assert(after.holds_at(a, before.index_of(a)));
                        }
                    }
                    assert(after.well_formed());
                    assert forall|a: Seq<char>| after.holds(a) implies after@[a]
                        == before@.insert(address@, nonce)[a] by {
                        let k = after.index_of(a);
                        if a == address@ {
                            after.lemma_index_unique(a, last);
                        } else {
                            assert(before.holds_at(a, k));
                            before.lemma_index_unique(a, k);
                        }
                    }
                    assert(after@ =~= before@.insert(address@, nonce));
                }
            },
        }
    }
}

} // verus!
