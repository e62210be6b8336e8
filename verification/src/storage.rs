use vstd::prelude::*;
use frame_support::BoundedVec;
use frame_support::traits::ConstU32;
use crate::assoc::{assoc_map, has_key, keys_distinct, lemma_len, lemma_push, lemma_remove, lemma_slot, lemma_update, slot};
use crate::model::PalletState;
use crate::owned::{owned_ids, owned_get, owned_len, owned_new};
use crate::types::{AccountId, Config, Event, Zombie, ZombieId, OWNED_LIST_BOUND};

verus! {

/// The storage of the zombies pallet.
pub struct Pallet {
    config: Config,
    count_for_zombies: u64,
    zombies: Vec<(ZombieId, Zombie)>,
    zombies_owned: Vec<(AccountId, BoundedVec<ZombieId, ConstU32<OWNED_LIST_BOUND>>)>,
    events: Vec<Event>,
}

/// The lists of owned ids by account; an account without a stored list has none.
pub open spec fn owned_view(s: Seq<(AccountId, BoundedVec<ZombieId, ConstU32<OWNED_LIST_BOUND>>)>) -> Map<AccountId, Seq<ZombieId>> {
    Map::new(
        |who: AccountId| true,
        |who: AccountId|
            if assoc_map(s).contains_key(who) {
                owned_ids(assoc_map(s)[who])
            } else {
                Seq::<ZombieId>::empty()
            },
    )
}

proof fn lemma_owned_view_remove(s: Seq<(AccountId, BoundedVec<ZombieId, ConstU32<OWNED_LIST_BOUND>>)>, i: int)
    requires
        keys_distinct(s),
        0 <= i < s.len(),
    ensures
        keys_distinct(s.remove(i)),
        owned_view(s.remove(i)) == owned_view(s).insert(s[i].0, Seq::<ZombieId>::empty()),
{
    lemma_remove(s, i);
    assert(owned_view(s.remove(i)) =~= owned_view(s).insert(s[i].0, Seq::<ZombieId>::empty()));
}

proof fn lemma_owned_view_push(
    s: Seq<(AccountId, BoundedVec<ZombieId, ConstU32<OWNED_LIST_BOUND>>)>,
    who: AccountId,
    v: BoundedVec<ZombieId, ConstU32<OWNED_LIST_BOUND>>,
)
    requires
        keys_distinct(s),
        !has_key(s, who),
    ensures
        keys_distinct(s.push((who, v))),
        owned_view(s.push((who, v))) == owned_view(s).insert(who, owned_ids(v)),
{
    lemma_push(s, who, v);
    assert(owned_view(s.push((who, v))) =~= owned_view(s).insert(who, owned_ids(v)));
}

/// Two ids are the same bytes.
pub(crate) fn ids_equal(a: &ZombieId, b: &ZombieId) -> (r: bool)
    ensures
        r == (*a == *b),
{
    let mut i: usize = 0;
    while i < 32
        invariant
            i <= 32,
            forall|j: int| 0 <= j < i ==> a[j] == b[j],
        decreases 32 - i,
    {
        if a[i] != b[i] {
            return false;
        }
        i = i + 1;
    }
    assert(*a =~= *b);
    true
}

impl View for Pallet {
    type V = PalletState;

    closed spec fn view(&self) -> PalletState {
        PalletState {
            config: self.config,
            count_for_zombies: self.count_for_zombies,
            zombies: assoc_map(self.zombies@),
            zombies_owned: owned_view(self.zombies_owned@),
            events: self.events@,
        }
    }
}

impl Pallet {
    /// The concrete layout is sound: keys are distinct and the counter matches the number
    /// of stored zombies.
    pub closed spec fn storage_ok(&self) -> bool {
        &&& keys_distinct(self.zombies@)
        &&& keys_distinct(self.zombies_owned@)
        &&& self.count_for_zombies == self.zombies@.len()
    }

    /// No list is stored for `who`.
    pub closed spec fn lacks_owned_entry(&self, who: AccountId) -> bool {
        !has_key(self.zombies_owned@, who)
    }

    /// The storage is sound and keeps the pallet's invariant.
    pub open spec fn wf(&self) -> bool {
        &&& self.storage_ok()
        &&& self@.inv()
    }

    pub proof fn lemma_storage_ok(&self)
        requires
            self.storage_ok(),
        ensures
            self@.owned_total(),
            self@.count_matches(),
    {
        lemma_len(self.zombies@);
    }

    /// Empty storage under the given configuration.
    pub(crate) fn empty(config: Config) -> (p: Pallet)
        ensures
            p.storage_ok(),
            p@.config == config,
            p@.count_for_zombies == 0,
            p@.zombies == Map::<ZombieId, Zombie>::empty(),
            p@.zombies_owned == Map::new(|who: AccountId| true, |who: AccountId| Seq::<ZombieId>::empty()),
            p@.events == Seq::<Event>::empty(),
    {
        let p = Pallet { config, count_for_zombies: 0, zombies: Vec::new(), zombies_owned: Vec::new(), events: Vec::new() };
        assert(assoc_map(p.zombies@) =~= Map::<ZombieId, Zombie>::empty());
        assert(owned_view(p.zombies_owned@) =~= Map::new(|who: AccountId| true, |who: AccountId| Seq::<ZombieId>::empty()));
        p
    }

    fn find_zombie(&self, id: &ZombieId) -> (r: Option<usize>)
        requires
            self.storage_ok(),
        ensures
            match r {
                Some(i) => i < self.zombies@.len() && self.zombies@[i as int].0 == *id,
                None => !has_key(self.zombies@, *id),
            },
    {
        let mut i: usize = 0;
        while i < self.zombies.len()
            invariant
                i <= self.zombies@.len(),
                forall|j: int| 0 <= j < i ==> self.zombies@[j].0 != *id,
            decreases self.zombies@.len() - i,
        {
            if ids_equal(&self.zombies[i].0, id) {
                return Some(i);
            }
            i = i + 1;
        }
        None
    }

    fn find_account(&self, who: AccountId) -> (r: Option<usize>)
        requires
            self.storage_ok(),
        ensures
            match r {
                Some(i) => i < self.zombies_owned@.len() && self.zombies_owned@[i as int].0 == who,
                None => !has_key(self.zombies_owned@, who),
            },
    {
        let mut i: usize = 0;
        while i < self.zombies_owned.len()
            invariant
                i <= self.zombies_owned@.len(),
                forall|j: int| 0 <= j < i ==> self.zombies_owned@[j].0 != who,
            decreases self.zombies_owned@.len() - i,
        {
            if self.zombies_owned[i].0 == who {
                return Some(i);
            }
            i = i + 1;
        }
        None
    }

    /// The runtime's configuration.
    pub fn config(&self) -> (r: Config)
        ensures
            r == self@.config,
    {
        self.config
    }

    /// `CountForZombies`.
    pub fn count_for_zombies(&self) -> (r: u64)
        ensures
            r == self@.count_for_zombies,
    {
        self.count_for_zombies
    }

    /// `Zombies`: the zombie stored under `id`, if any.
    pub fn zombies(&self, id: &ZombieId) -> (r: Option<Zombie>)
        requires
            self.storage_ok(),
        ensures
            r == (if self@.zombies.contains_key(*id) {
                Some(self@.zombies[*id])
            } else {
                None::<Zombie>
            }),
    {
        match self.find_zombie(id) {
            Some(i) => {
                proof {
                    lemma_slot(self.zombies@, i as int);
                }
                Some(self.zombies[i].1)
            },
            None => None,
        }
    }

    /// `ZombiesOwned`: the ids that `who` owns, in storage order.
    pub fn zombies_owned(&self, who: AccountId) -> (r: Vec<ZombieId>)
        requires
            self.storage_ok(),
        ensures
            r@ == self@.zombies_owned[who],
    {
        let mut r: Vec<ZombieId> = Vec::new();
        match self.find_account(who) {
            Some(k) => {
                proof {
                    lemma_slot(self.zombies_owned@, k as int);
                }
                let list = &self.zombies_owned[k].1;
                let n = owned_len(list);
                let mut i: usize = 0;
                while i < n
                    invariant
                        i <= n,
                        n == owned_ids(*list).len(),
                        r@ == owned_ids(*list).subrange(0, i as int),
                    decreases n - i,
                {
                    r.push(owned_get(list, i));
                    i = i + 1;
                    assert(r@ =~= owned_ids(*list).subrange(0, i as int));
                }
                assert(r@ =~= owned_ids(*list));
            },
            None => {
                assert(r@ =~= Seq::<ZombieId>::empty());
            },
        }
        r
    }

    /// How many ids `who` owns.
    pub(crate) fn owned_len_of(&self, who: AccountId) -> (r: usize)
        requires
            self.storage_ok(),
        ensures
            r == self@.zombies_owned[who].len(),
    {
        match self.find_account(who) {
            Some(k) => {
                proof {
                    lemma_slot(self.zombies_owned@, k as int);
                }
                owned_len(&self.zombies_owned[k].1)
            },
            None => 0,
        }
    }

    /// The events deposited so far, oldest first.
    pub fn events(&self) -> (r: &[Event])
        ensures
            r@ == self@.events,
    {
        self.events.as_slice()
    }

    pub(crate) fn deposit_event(&mut self, e: Event)
        requires
            old(self).storage_ok(),
        ensures
            final(self).storage_ok(),
            final(self)@ == (PalletState { events: old(self)@.events.push(e), ..old(self)@ }),
    {
        self.events.push(e);
    }

    /// Stores a zombie under an id not yet in use, with the counter raised to `new_count`.
    pub(crate) fn insert_new_zombie(&mut self, id: ZombieId, z: Zombie, new_count: u64)
        requires
            old(self).storage_ok(),
            !old(self)@.zombies.contains_key(id),
            new_count == old(self)@.count_for_zombies + 1,
        ensures
            final(self).storage_ok(),
            final(self)@ == (PalletState {
                count_for_zombies: (old(self)@.count_for_zombies + 1) as u64,
                zombies: old(self)@.zombies.insert(id, z),
                ..old(self)@
            }),
    {
        proof {
            lemma_push(self.zombies@, id, z);
        }
        self.zombies.push((id, z));
        self.count_for_zombies = new_count;
    }

    /// Overwrites the zombie stored under an id in use.
    pub(crate) fn update_zombie(&mut self, id: ZombieId, z: Zombie)
        requires
            old(self).storage_ok(),
            old(self)@.zombies.contains_key(id),
        ensures
            final(self).storage_ok(),
            final(self)@ == (PalletState { zombies: old(self)@.zombies.insert(id, z), ..old(self)@ }),
    {
        match self.find_zombie(&id) {
            Some(i) => {
                proof {
                    lemma_update(self.zombies@, i as int, z);
                }
                self.zombies.set(i, (id, z));
            },
            None => {},
        }
    }

    /// Takes out the list that `who` owns, leaving none stored.
    pub(crate) fn take_owned(&mut self, who: AccountId) -> (r: BoundedVec<ZombieId, ConstU32<OWNED_LIST_BOUND>>)
        requires
            old(self).storage_ok(),
        ensures
            final(self).storage_ok(),
            owned_ids(r) == old(self)@.zombies_owned[who],
            final(self).lacks_owned_entry(who),
            final(self)@ == (PalletState {
                zombies_owned: old(self)@.zombies_owned.insert(who, Seq::<ZombieId>::empty()),
                ..old(self)@
            }),
    {
        match self.find_account(who) {
            Some(k) => {
                proof {
                    lemma_slot(self.zombies_owned@, k as int);
                    lemma_owned_view_remove(self.zombies_owned@, k as int);
                }
                let (_, list) = self.zombies_owned.remove(k);
                proof {
                    let s = old(self).zombies_owned@.remove(k as int);
                    if has_key(s, who) {
                        let j = slot(s, who);
                        lemma_slot(s, j);
                        assert(assoc_map(s).contains_key(who));
                    }
                }
                list
            },
            None => {
                let list = owned_new();
                proof {
                    assert(old(self)@.zombies_owned[who] == Seq::<ZombieId>::empty());
                    assert(self@.zombies_owned =~= old(self)@.zombies_owned.insert(who, Seq::<ZombieId>::empty()));
                }
                list
            },
        }
    }

    /// Stores `list` as what `who` owns, where `who` has no stored list.
    pub(crate) fn put_owned(&mut self, who: AccountId, list: BoundedVec<ZombieId, ConstU32<OWNED_LIST_BOUND>>)
        requires
            old(self).storage_ok(),
            old(self).lacks_owned_entry(who),
        ensures
            final(self).storage_ok(),
            final(self)@ == (PalletState {
                zombies_owned: old(self)@.zombies_owned.insert(who, owned_ids(list)),
                ..old(self)@
            }),
    {
        proof {
            lemma_owned_view_push(self.zombies_owned@, who, list);
        }
        self.zombies_owned.push((who, list));
    }
}

} // verus!
