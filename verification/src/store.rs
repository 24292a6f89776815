//! Address-keyed storage with first-use allocation: the account lifecycle manager.
//!
//! Storage is created once at an address and never freed. Configuration and registry
//! entries may be overwritten in place; order records may not, so the set of processed
//! orders only grows.

use vstd::prelude::*;
use crate::address::Address;
use crate::state::{Allocation, Config, Entity, SupportedToken};

verus! {

/// All storage of one deployment.
pub struct Store {
    slots: Vec<Allocation>,
}

spec fn holds(s: Seq<Allocation>, k: Seq<u8>) -> bool {
    exists|i: int| 0 <= i < s.len() && (#[trigger] s[i]).address@ == k
}

spec fn index_of(s: Seq<Allocation>, k: Seq<u8>) -> int {
    choose|i: int| 0 <= i < s.len() && (#[trigger] s[i]).address@ == k
}

spec fn distinct(s: Seq<Allocation>) -> bool {
    forall|i: int, j: int|
        0 <= i < j < s.len() ==> (#[trigger] s[i]).address@ != (#[trigger] s[j]).address@
}

spec fn to_map(s: Seq<Allocation>) -> Map<Seq<u8>, Allocation> {
    Map::new(|k: Seq<u8>| holds(s, k), |k: Seq<u8>| s[index_of(s, k)])
}

proof fn lemma_index_unique(s: Seq<Allocation>, i: int)
    requires
        distinct(s),
        0 <= i < s.len(),
    ensures
        holds(s, s[i].address@),
        index_of(s, s[i].address@) == i,
        to_map(s).contains_key(s[i].address@),
        to_map(s)[s[i].address@] == s[i],
{
    let k = s[i].address@;
    assert(holds(s, k));
    let j = index_of(s, k);
    assert(0 <= j < s.len() && s[j].address@ == k);
    if j < i {
        assert(s[j].address@ != s[i].address@);
    } else if i < j {
        assert(s[i].address@ != s[j].address@);
    }
}

proof fn lemma_push(s: Seq<Allocation>, a: Allocation)
    requires
        distinct(s),
        !holds(s, a.address@),
    ensures
        distinct(s.push(a)),
        to_map(s.push(a)) == to_map(s).insert(a.address@, a),
{
    let t = s.push(a);
    assert forall|i: int, j: int| 0 <= i < j < t.len() implies (#[trigger] t[i]).address@ != (
    #[trigger] t[j]).address@ by {
        if j < s.len() {
            assert(s[i].address@ != s[j].address@);
        } else {
            assert(s[i].address@ != a.address@);
        }
    }
    assert forall|k: Seq<u8>| to_map(t).contains_key(k) <==> to_map(s).insert(
        a.address@,
        a,
    ).contains_key(k) by {
        if holds(t, k) {
            let i = index_of(t, k);
            if i < s.len() {
                assert(s[i].address@ == k);
            }
        }
        if holds(s, k) {
            let i = index_of(s, k);
            assert(t[i].address@ == k);
        }
        if k == a.address@ {
            assert(t[s.len() as int].address@ == k);
        }
    }
    assert forall|k: Seq<u8>| to_map(t).contains_key(k) implies to_map(t)[k] == to_map(s).insert(
        a.address@,
        a,
    )[k] by {
        let i = index_of(t, k);
        lemma_index_unique(t, i);
        if i < s.len() {
            lemma_index_unique(s, i);
        }
    }
    assert(to_map(t) =~= to_map(s).insert(a.address@, a));
}

proof fn lemma_update(s: Seq<Allocation>, i: int, a: Allocation)
    requires
        distinct(s),
        0 <= i < s.len(),
        a.address@ == s[i].address@,
    ensures
        distinct(s.update(i, a)),
        to_map(s.update(i, a)) == to_map(s).insert(a.address@, a),
{
    let t = s.update(i, a);
    assert forall|x: int, y: int| 0 <= x < y < t.len() implies (#[trigger] t[x]).address@ != (
    #[trigger] t[y]).address@ by {
        assert(s[x].address@ != s[y].address@);
    }
    assert forall|k: Seq<u8>| to_map(t).contains_key(k) <==> to_map(s).insert(
        a.address@,
        a,
    ).contains_key(k) by {
        if holds(t, k) {
            let j = index_of(t, k);
            assert(s[j].address@ == k);
        }
        if holds(s, k) {
            let j = index_of(s, k);
            assert(t[j].address@ == k);
        }
        if k == a.address@ {
            assert(t[i].address@ == k);
        }
    }
    assert forall|k: Seq<u8>| to_map(t).contains_key(k) implies to_map(t)[k] == to_map(s).insert(
        a.address@,
        a,
    )[k] by {
        let j = index_of(t, k);
        lemma_index_unique(t, j);
        lemma_index_unique(s, j);
    }
    assert(to_map(t) =~= to_map(s).insert(a.address@, a));
}

impl Store {
    /// No two allocations share an address, every allocation is as large as the layout of
    /// what it holds, and what it holds is well formed.
    pub closed spec fn wf(&self) -> bool {
        &&& distinct(self.slots@)
        &&& forall|i: int|
            0 <= i < self.slots@.len() ==> {
                &&& (#[trigger] self.slots@[i]).entity.wf()
                &&& self.slots@[i].space == self.slots@[i].entity.space()
            }
    }

    /// The allocations by address.
    pub closed spec fn view(&self) -> Map<Seq<u8>, Allocation> {
        to_map(self.slots@)
    }

    /// The configuration stored at `address`, if one is.
    pub open spec fn spec_config_at(&self, address: Seq<u8>) -> Option<Config> {
        if self@.contains_key(address) {
            match self@[address].entity {
                Entity::Config(c) => Some(c),
                _ => None,
            }
        } else {
            None
        }
    }

    /// The registry entry stored at `address`, if one is.
    pub open spec fn spec_token_at(&self, address: Seq<u8>) -> Option<SupportedToken> {
        if self@.contains_key(address) {
            match self@[address].entity {
                Entity::Token(t) => Some(t),
                _ => None,
            }
        } else {
            None
        }
    }

    /// Every order record of `self` is in `later`, unchanged.
    pub open spec fn orders_kept_by(&self, later: &Store) -> bool {
        forall|k: Seq<u8>|
            #![trigger self@[k]]
            #![trigger later@[k]]
            self@.contains_key(k) && self@[k].entity is Order ==> later@.contains_key(k)
                && later@[k] == self@[k]
    }

    /// Keeping order records is reflexive and transitive: over any run of operations that
    /// each keep them, every record stays as it was written.
    pub proof fn lemma_orders_kept(&self, middle: &Store, later: &Store)
        requires
            self.orders_kept_by(middle),
            middle.orders_kept_by(later),
        ensures
            self.orders_kept_by(self),
            self.orders_kept_by(later),
    {
        assert forall|k: Seq<u8>|
            #![trigger self@[k]]
            #![trigger later@[k]]
            self@.contains_key(k) && self@[k].entity is Order implies later@.contains_key(k)
                && later@[k] == self@[k] by {
            assert(middle@.contains_key(k) && middle@[k] == self@[k]);
        }
    }

    /// What well-formedness says of one allocation.
    pub proof fn lemma_entry(&self, k: Seq<u8>)
        requires
            self.wf(),
            self@.contains_key(k),
        ensures
            self@[k].address@ == k,
            self@[k].entity.wf(),
            self@[k].space == self@[k].entity.space(),
    {
        let i = index_of(self.slots@, k);
        assert(self.slots@[i].entity.wf());
    }

    /// A store with no allocation.
    pub fn new() -> (s: Store)
        ensures
            s.wf(),
            s@ == Map::<Seq<u8>, Allocation>::empty(),
    {
        let s = Store { slots: Vec::new() };
        assert(s@ =~= Map::<Seq<u8>, Allocation>::empty());
        s
    }

    fn find(&self, address: &Address) -> (r: Option<usize>)
        ensures
            match r {
                Some(i) => i < self.slots@.len() && self.slots@[i as int].address@ == address@,
                None => !holds(self.slots@, address@),
            },
    {
        let mut i: usize = 0;
        while i < self.slots.len()
            invariant
                i <= self.slots@.len(),
                forall|j: int| 0 <= j < i ==> (#[trigger] self.slots@[j]).address@ != address@,
            decreases self.slots@.len() - i,
        {
            if self.slots[i].address == *address {
                return Some(i);
            }
            i = i + 1;
        }
        None
    }

    /// Whether storage exists at `address`.
    pub fn contains(&self, address: &Address) -> (r: bool)
        ensures
            r == self@.contains_key(address@),
    {
        match self.find(address) {
            Some(_) => true,
            None => false,
        }
    }

    /// The storage at `address`.
    pub fn get(&self, address: &Address) -> (r: Option<&Allocation>)
        requires
            self.wf(),
        ensures
            match r {
                Some(a) => self@.contains_key(address@) && *a == self@[address@],
                None => !self@.contains_key(address@),
            },
    {
        match self.find(address) {
            Some(i) => {
                proof {
                    lemma_index_unique(self.slots@, i as int);
                }
                Some(&self.slots[i])
            },
            None => None,
        }
    }

    /// The configuration stored at `address`.
    pub fn config_at(&self, address: &Address) -> (r: Option<Config>)
        requires
            self.wf(),
        ensures
            r == self.spec_config_at(address@),
            r matches Some(c) ==> c.wf(),
    {
        match self.get(address) {
            Some(a) => {
                proof {
                    self.lemma_entry(address@);
                }
                match &a.entity {
                    Entity::Config(c) => Some(*c),
                    _ => None,
                }
            },
            None => None,
        }
    }

    /// The registry entry stored at `address`.
    pub fn token_at(&self, address: &Address) -> (r: Option<SupportedToken>)
        requires
            self.wf(),
        ensures
            r == self.spec_token_at(address@),
    {
        match self.get(address) {
            Some(a) => match &a.entity {
                Entity::Token(t) => Some(*t),
                _ => None,
            },
            None => None,
        }
    }

    /// Creates storage for `entity` at `address`, sized to its layout and funded by
    /// `payer`. Where storage already exists there, nothing changes and the result is
    /// `false`.
    pub fn allocate(&mut self, address: Address, payer: Address, entity: Entity) -> (created: bool)
        requires
            old(self).wf(),
            entity.wf(),
        ensures
            final(self).wf(),
            created == !old(self)@.contains_key(address@),
            created ==> final(self)@ == old(self)@.insert(
                address@,
                Allocation { address, payer, space: entity.space(), entity },
            ),
            !created ==> final(self)@ == old(self)@,
            old(self).orders_kept_by(final(self)),
    {
        match self.find(&address) {
            Some(_) => false,
            None => {
                let space: u64 = entity.layout_len();
                let a = Allocation { address, payer, space, entity };
                proof {
                    lemma_push(self.slots@, a);
                }
                self.slots.push(a);
                true
            },
        }
    }

    /// Overwrites the configuration stored at `address`. Where no configuration is stored
    /// there, nothing changes and the result is `false`.
    pub fn put_config(&mut self, address: &Address, config: Config) -> (written: bool)
        requires
            old(self).wf(),
            config.wf(),
        ensures
            final(self).wf(),
            written == old(self).spec_config_at(address@).is_some(),
            written ==> final(self)@ == old(self)@.insert(
                address@,
                Allocation { entity: Entity::Config(config), ..old(self)@[address@] },
            ),
            !written ==> final(self)@ == old(self)@,
            old(self).orders_kept_by(final(self)),
    {
        match self.find(address) {
            Some(i) => {
                proof {
                    lemma_index_unique(self.slots@, i as int);
                }
                let is_config: bool = match &self.slots[i].entity {
                    Entity::Config(_) => true,
                    _ => false,
                };
                if is_config {
                    let a = Allocation {
                        address: self.slots[i].address,
                        payer: self.slots[i].payer,
                        space: self.slots[i].space,
                        entity: Entity::Config(config),
                    };
                    proof {
                        lemma_update(self.slots@, i as int, a);
                    }
                    self.slots.set(i, a);
                    true
                } else {
                    false
                }
            },
            None => false,
        }
    }

    /// Overwrites the registry entry stored at `address`. Where no registry entry is stored
    /// there, nothing changes and the result is `false`.
    pub fn put_token(&mut self, address: &Address, token: SupportedToken) -> (written: bool)
        requires
            old(self).wf(),
        ensures
            final(self).wf(),
            written == old(self).spec_token_at(address@).is_some(),
            written ==> final(self)@ == old(self)@.insert(
                address@,
                Allocation { entity: Entity::Token(token), ..old(self)@[address@] },
            ),
            !written ==> final(self)@ == old(self)@,
            old(self).orders_kept_by(final(self)),
    {
        match self.find(address) {
            Some(i) => {
                proof {
                    lemma_index_unique(self.slots@, i as int);
                }
                let is_token: bool = match &self.slots[i].entity {
                    Entity::Token(_) => true,
                    _ => false,
                };
                if is_token {
                    let a = Allocation {
                        address: self.slots[i].address,
                        payer: self.slots[i].payer,
                        space: self.slots[i].space,
                        entity: Entity::Token(token),
                    };
                    proof {
                        lemma_update(self.slots@, i as int, a);
                    }
                    self.slots.set(i, a);
                    true
                } else {
                    false
                }
            },
            None => false,
        }
    }
}

} // verus!
