use vstd::prelude::*;
use frame_support::BoundedVec;
use frame_support::traits::ConstU32;
use crate::hashing::{blake2_128, dna_payload, fresh_dna, hash_of_zombie, push_all};
use crate::laws::{lemma_purchase_completes, lemma_level_up_keeps_inv, lemma_mint_keeps_inv, lemma_transfer_zombie_to_keeps_inv, lemma_update_same_owner_keeps_inv};
use crate::model::{bred_bytes, bred_dna, burst_fits, gender_from_seed, minted_zombie};
use crate::owned::{owned_get, owned_ids, owned_len, owned_swap_remove, owned_try_push};
use crate::storage::{ids_equal, Pallet};
use crate::types::{
    ensure_signed, AccountId, Balance, BlockContext, DispatchError, Dna, Error, Event, Gender, Origin,
    Purchase, RandomSeed, Zombie, ZombieId, OWNED_LIST_BOUND,
};

verus! {

/// The first position of `id` in an owned list.
fn position_of(list: &BoundedVec<ZombieId, ConstU32<OWNED_LIST_BOUND>>, id: &ZombieId) -> (r: Option<usize>)
    ensures
        match r {
            Some(p) => p < owned_ids(*list).len() && owned_ids(*list)[p as int] == *id
                && forall|j: int| 0 <= j < p ==> owned_ids(*list)[j] != *id,
            None => !owned_ids(*list).contains(*id),
        },
{
    let n = owned_len(list);
    let mut i: usize = 0;
    while i < n
        invariant
            i <= n,
            n == owned_ids(*list).len(),
            forall|j: int| 0 <= j < i ==> owned_ids(*list)[j] != *id,
        decreases n - i,
    {
        let x = owned_get(list, i);
        if ids_equal(&x, id) {
            return Some(i);
        }
        i = i + 1;
    }
    None
}

impl Pallet {
    /// Fresh DNA: the BLAKE2-128 hash of the encoded random seed for `b"dna"`, extrinsic
    /// index (or `0`) and block number.
    fn gen_dna(ctx: &BlockContext) -> (d: Dna)
        ensures
            d == fresh_dna(*ctx),
    {
        let mut out: Vec<u8> = Vec::new();
        push_all(&mut out, ctx.random_dna.as_slice());
        let idx: u32 = match ctx.extrinsic_index {
            Some(i) => i,
            None => 0,
        };
        let a = vstd::bytes::u32_to_le_bytes(idx);
        push_all(&mut out, a.as_slice());
        let b = vstd::bytes::u64_to_le_bytes(ctx.block_number);
        push_all(&mut out, b.as_slice());
        assert(out@ =~= dna_payload(*ctx));
        let d = blake2_128(out.as_slice());
        proof {
            let c = fresh_dna(*ctx);
            assert(c@ == d@);
            assert(c =~= d);
        }
        d
    }
    

    /// A gender drawn from the randomness for `b"gender"`.
    fn gen_gender(seed: &RandomSeed) -> (g: Gender)
        ensures
            g == gender_from_seed(*seed),
    {
        match seed[0] % 2 {
            0 => Gender::Male,
            7 => Gender::NewType,
            _ => Gender::Female,
        }
    }

    /// DNA bred from two parents: each bit comes from `parent_a` where fresh DNA has a one
    /// and from `parent_b` where it has a zero.
    pub fn breed_dna(&self, parent_a: &ZombieId, parent_b: &ZombieId, ctx: &BlockContext) -> (r: Result<Dna, Error>)
        requires
            self.storage_ok(),
        ensures
            r == self@.breed_outcome(*parent_a, *parent_b, *ctx),
    {
        let dna_a = match self.zombies(parent_a) {
            Some(z) => z.dna,
            None => return Err(Error::ZombieNotExists),
        };
        let dna_b = match self.zombies(parent_b) {
            Some(z) => z.dna,
            None => return Err(Error::ZombieNotExists),
        };
        let mut new_dna = Self::gen_dna(ctx);
        let ghost g = new_dna;
        let mut i: usize = 0;
        while i < 16
            invariant
                i <= 16,
                forall|j: int| 0 <= j < i ==> new_dna[j] == (g[j] & dna_a[j]) | (!g[j] & dna_b[j]),
                forall|j: int| i <= j < 16 ==> new_dna[j] == g[j],
            decreases 16 - i,
        {
            new_dna[i] = (new_dna[i] & dna_a[i]) | (!new_dna[i] & dna_b[i]);
            i = i + 1;
        }
        proof {
            assert(new_dna@ =~= bred_bytes(g, dna_a, dna_b));
            let c = bred_dna(g, dna_a, dna_b);
            assert(c@ == new_dna@);
            assert(c =~= new_dna);
        }
        Ok(new_dna)
    }

    /// Mints a zombie for `owner` (fresh DNA and gender where none are given), lists it
    /// under the owner and counts it.
    pub fn mint(
        &mut self,
        owner: AccountId,
        dna: Option<Dna>,
        gender: Option<Gender>,
        level: u32,
        ctx: &BlockContext,
    ) -> (r: Result<ZombieId, Error>)
        requires
            old(self).wf(),
        ensures
            final(self).wf(),
            (final(self)@, r) == old(self)@.mint_outcome(*ctx, owner, dna, gender, level),
    {
        let zombie = Zombie {
            dna: match dna {
                Some(d) => d,
                None => Self::gen_dna(ctx),
            },
            price: None,
            gender: match gender {
                Some(g) => g,
                None => Self::gen_gender(&ctx.random_gender),
            },
            owner,
            level,
        };
        assert(zombie == minted_zombie(*ctx, owner, dna, gender, level));
        let zombie_id = hash_of_zombie(&zombie);
        let new_cnt = match self.count_for_zombies().checked_add(1) {
            Some(c) => c,
            None => return Err(Error::CountForZombiesOverflow),
        };
        if self.zombies(&zombie_id).is_some() {
            return Err(Error::ZombieAlreadyExists);
        }
        let ghost s0 = self@;
        proof {
            self.lemma_storage_ok();
        }
        let max_owned = self.config().max_zombie_owned;
        let mut list = self.take_owned(owner);
        if owned_len(&list) >= max_owned as usize {
            self.put_owned(owner, list);
            assert(self@.zombies_owned =~= s0.zombies_owned);
            assert(self@ == s0);
            return Err(Error::ExceedMaxZombieOwned);
        }
        match owned_try_push(&mut list, zombie_id) {
            Ok(()) => {
                self.put_owned(owner, list);
            },
            Err(_) => {
                self.put_owned(owner, list);
                assert(self@.zombies_owned =~= s0.zombies_owned);
                assert(self@ == s0);
                return Err(Error::ExceedMaxZombieOwned);
            },
        }
        self.insert_new_zombie(zombie_id, zombie, new_cnt);
        proof {
            let t = s0.mint_outcome(*ctx, owner, dna, gender, level).0;
            assert(self@.zombies_owned =~= t.zombies_owned);
            lemma_mint_keeps_inv(s0, *ctx, owner, dna, gender, level);
        }
        Ok(zombie_id)
    }

    /// Whether `acct` owns the zombie `zombie_id`.
    pub fn is_zombie_owner(&self, zombie_id: &ZombieId, acct: AccountId) -> (r: Result<bool, Error>)
        requires
            self.storage_ok(),
        ensures
            r == self@.owner_query(*zombie_id, acct),
    {
        match self.zombies(zombie_id) {
            Some(zombie) => Ok(zombie.owner == acct),
            None => Err(Error::ZombieNotExists),
        }
    }

    /// Raises a zombie's level by three for a `NewType` and by one otherwise, unless it has
    /// reached the maximum level.
    fn level_up_zombie(&mut self, zombie_id: &ZombieId) -> (r: Result<(), Error>)
        requires
            old(self).wf(),
            old(self)@.level_up_fits(*zombie_id),
        ensures
            final(self).wf(),
            (final(self)@, r) == old(self)@.level_up_outcome(*zombie_id),
    {
        match self.zombies(zombie_id) {
            Some(mut zombie) => {
                if zombie.level >= self.config().max_zombie_level {
                    return Ok(());
                }
                if zombie.gender == Gender::NewType {
                    zombie.level = zombie.level + 3;
                } else {
                    zombie.level = zombie.level + 1;
                }
                proof {
                    lemma_level_up_keeps_inv(self@, *zombie_id);
                }
                self.update_zombie(*zombie_id, zombie);
                Ok(())
            },
            None => Err(Error::ZombieNotExists),
        }
    }

    /// Whether the challenger beats the opponent: the higher level wins (tripled for a
    /// `NewType` when `burst_new_type`), and on a tie the randomness for `b"battle"` decides.
    pub fn is_winner(
        &self,
        challenger: &ZombieId,
        opponent: &ZombieId,
        burst_new_type: bool,
        ctx: &BlockContext,
    ) -> (r: Result<bool, Error>)
        requires
            self.storage_ok(),
            burst_new_type && self@.zombies.contains_key(*challenger) && self@.zombies.contains_key(*opponent)
                ==> burst_fits(self@.zombies[*challenger]) && burst_fits(self@.zombies[*opponent]),
        ensures
            r == self@.winner_outcome(*challenger, *opponent, burst_new_type, ctx.random_battle),
    {
        let zombie_challenger = match self.zombies(challenger) {
            Some(z) => z,
            None => return Err(Error::ZombieNotExists),
        };
        let zombie_opponent = match self.zombies(opponent) {
            Some(z) => z,
            None => return Err(Error::ZombieNotExists),
        };
        let mut challenger_level = zombie_challenger.level;
        let mut opponent_level = zombie_opponent.level;
        if burst_new_type {
            if zombie_challenger.gender == Gender::NewType {
                challenger_level = challenger_level * 3;
            }
            if zombie_opponent.gender == Gender::NewType {
                opponent_level = opponent_level * 3;
            }
        }
        if challenger_level != opponent_level {
            return Ok(challenger_level > opponent_level);
        } else if ctx.random_battle[0] % 2 == 0 {
            return Ok(true);
        }
        Ok(false)
    }

    /// Moves a zombie to `to`: it leaves its owner's list (the last id takes its place),
    /// loses its price and joins the end of `to`'s list. On failure nothing changes.
    pub fn transfer_zombie_to(&mut self, zombie_id: &ZombieId, to: AccountId) -> (r: Result<(), Error>)
        requires
            old(self).wf(),
        ensures
            final(self).wf(),
            (final(self)@, r) == old(self)@.transfer_zombie_to_outcome(*zombie_id, to),
    {
        let ghost s0 = self@;
        proof {
            self.lemma_storage_ok();
            lemma_transfer_zombie_to_keeps_inv(s0, *zombie_id, to);
        }
        let mut zombie = match self.zombies(zombie_id) {
            Some(z) => z,
            None => return Err(Error::ZombieNotExists),
        };
        let prev_owner = zombie.owner;
        let mut owned = self.take_owned(prev_owner);
        let ghost list = owned_ids(owned);
        match position_of(&owned, zombie_id) {
            None => {
                self.put_owned(prev_owner, owned);
                assert(self@.zombies_owned =~= s0.zombies_owned);
                assert(self@ == s0);
                Err(Error::ZombieNotExists)
            },
            Some(prev) => {
                proof {
                    list.index_of_first_ensures(*zombie_id);
                    let f = list.index_of_first(*zombie_id)->0;
                    assert(f == prev as int) by {
                        if f < prev {
                            assert(list[f] == *zombie_id);
                        }
                        if prev < f {
                            assert(list[prev as int] == *zombie_id);
                        }
                    }
                }
                let room = if to == prev_owner {
                    owned_len(&owned) - 1
                } else {
                    self.owned_len_of(to)
                };
                if room >= self.config().max_zombie_owned as usize {
                    self.put_owned(prev_owner, owned);
                    assert(self@.zombies_owned =~= s0.zombies_owned);
                    assert(self@ == s0);
                    return Err(Error::ExceedMaxZombieOwned);
                }
                owned_swap_remove(&mut owned, prev);
                self.put_owned(prev_owner, owned);
                zombie.owner = to;
                zombie.price = None;
                self.update_zombie(*zombie_id, zombie);
                let mut to_owned = self.take_owned(to);
                let pushed = owned_try_push(&mut to_owned, *zombie_id);
                self.put_owned(to, to_owned);
                proof {
                    let t = s0.transfer_zombie_to_outcome(*zombie_id, to).0;
                    assert(self@.zombies_owned =~= t.zombies_owned);
                    assert(self@.zombies =~= t.zombies);
                }
                match pushed {
                    Ok(()) => Ok(()),
                    Err(_) => Err(Error::ExceedMaxZombieOwned),
                }
            },
        }
    }


    /// Mints a zombie for the signed caller with fresh DNA and gender at level 0, and
    /// deposits `Created`.
    pub fn create_zombie(&mut self, origin: Origin, ctx: &BlockContext) -> (r: Result<(), DispatchError>)
        requires
            old(self).wf(),
        ensures
            final(self).wf(),
            (final(self)@, r) == old(self)@.create_zombie_outcome(origin, *ctx),
    {
        let caller = ensure_signed(origin)?;
        let zombie_id = match self.mint(caller, None, None, 0, ctx) {
            Ok(id) => id,
            Err(e) => return Err(DispatchError::Module(e)),
        };
        self.deposit_event(Event::Created(caller, zombie_id));
        Ok(())
    }

    /// Mints a zombie for the signed caller with fresh DNA and the given gender and level,
    /// and deposits `Created`.
    pub fn crate_cheat_zombie(
        &mut self,
        origin: Origin,
        gender: Gender,
        level: u32,
        ctx: &BlockContext,
    ) -> (r: Result<(), DispatchError>)
        requires
            old(self).wf(),
        ensures
            final(self).wf(),
            (final(self)@, r) == old(self)@.crate_cheat_zombie_outcome(origin, gender, level, *ctx),
    {
        let caller = ensure_signed(origin)?;
        let zombie_id = match self.mint(caller, None, Some(gender), level, ctx) {
            Ok(id) => id,
            Err(e) => return Err(DispatchError::Module(e)),
        };
        self.deposit_event(Event::Created(caller, zombie_id));
        Ok(())
    }

    /// The owner of a zombie sets (or clears) its price, and `PriceSet` is deposited.
    pub fn set_price(
        &mut self,
        origin: Origin,
        zombie_id: ZombieId,
        new_price: Option<Balance>,
    ) -> (r: Result<(), DispatchError>)
        requires
            old(self).wf(),
        ensures
            final(self).wf(),
            (final(self)@, r) == old(self)@.set_price_outcome(origin, zombie_id, new_price),
    {
        let caller = ensure_signed(origin)?;
        match self.is_zombie_owner(&zombie_id, caller) {
            Ok(true) => {},
            Ok(false) => return Err(DispatchError::Module(Error::NotZombieOwner)),
            Err(e) => return Err(DispatchError::Module(e)),
        }
        let mut zombie = match self.zombies(&zombie_id) {
            Some(z) => z,
            None => return Err(DispatchError::Module(Error::ZombieNotExists)),
        };
        zombie.price = new_price;
        proof {
            lemma_update_same_owner_keeps_inv(self@, zombie_id, zombie);
        }
        self.update_zombie(zombie_id, zombie);
        self.deposit_event(Event::PriceSet(caller, zombie_id, new_price));
        Ok(())
    }

    /// The owner of a zombie gives it to another account that has room for it, and
    /// `Transfered` is deposited.
    pub fn transfer(&mut self, origin: Origin, to: AccountId, zombie_id: ZombieId) -> (r: Result<(), DispatchError>)
        requires
            old(self).wf(),
        ensures
            final(self).wf(),
            (final(self)@, r) == old(self)@.transfer_outcome(origin, to, zombie_id),
    {
        let from = ensure_signed(origin)?;
        match self.is_zombie_owner(&zombie_id, from) {
            Ok(true) => {},
            Ok(false) => return Err(DispatchError::Module(Error::NotZombieOwner)),
            Err(e) => return Err(DispatchError::Module(e)),
        }
        if from == to {
            return Err(DispatchError::Module(Error::TransferToSelf));
        }
        let owned_by_to = self.owned_len_of(to);
        if owned_by_to >= self.config().max_zombie_owned as usize {
            return Err(DispatchError::Module(Error::ExceedMaxZombieOwned));
        }
        match self.transfer_zombie_to(&zombie_id, to) {
            Ok(()) => {},
            Err(e) => return Err(DispatchError::Module(e)),
        }
        self.deposit_event(Event::Transfered(from, to, zombie_id));
        Ok(())
    }

    /// The checks of buying a zombie, made before any currency moves: the zombie exists,
    /// the signed buyer does not own it, it is for sale at a price no higher than the bid,
    /// the buyer's free balance covers the bid and the buyer has room for one more zombie.
    /// On success, the payment that the buyer owes the seller; nothing is written.
    pub fn buy_zombie(
        &self,
        origin: Origin,
        zombie_id: ZombieId,
        bid_price: Balance,
        buyer_free_balance: Balance,
    ) -> (r: Result<Purchase, DispatchError>)
        requires
            self.wf(),
        ensures
            r == self@.buy_zombie_outcome(origin, zombie_id, bid_price, buyer_free_balance),
            r matches Ok(p) ==> self@.purchase_ready(p),
    {
        let buyer = ensure_signed(origin)?;
        let zombie = match self.zombies(&zombie_id) {
            Some(z) => z,
            None => return Err(DispatchError::Module(Error::ZombieNotExists)),
        };
        if buyer == zombie.owner {
            return Err(DispatchError::Module(Error::BuyerIsZombieOwner));
        }
        match zombie.price {
            Some(ask_price) => {
                if ask_price > bid_price {
                    return Err(DispatchError::Module(Error::ZombieBidPriceTooLow));
                }
            },
            None => return Err(DispatchError::Module(Error::ZombieNotForSale)),
        }
        if buyer_free_balance < bid_price {
            return Err(DispatchError::Module(Error::NotEnoughBalance));
        }
        let owned_by_to = self.owned_len_of(buyer);
        if owned_by_to >= self.config().max_zombie_owned as usize {
            return Err(DispatchError::Module(Error::ExceedMaxZombieOwned));
        }
        Ok(Purchase { buyer, seller: zombie.owner, zombie_id, price: bid_price })
    }

    /// Completes a purchase once the buyer has paid the seller: the zombie moves to the
    /// buyer, levels up, and `Bought` is deposited.
    pub fn complete_purchase(&mut self, purchase: Purchase)
        requires
            old(self).wf(),
            old(self)@.purchase_ready(purchase),
            old(self)@.level_up_fits(purchase.zombie_id),
        ensures
            final(self).wf(),
            final(self)@ == old(self)@.complete_purchase_outcome(purchase),
            final(self)@.zombies.contains_key(purchase.zombie_id),
            final(self)@.zombies[purchase.zombie_id].owner == purchase.buyer,
    {
        let ghost s0 = self@;
        proof {
            lemma_purchase_completes(s0, purchase);
        }
        let _ = self.transfer_zombie_to(&purchase.zombie_id, purchase.buyer);
        let _ = self.level_up_zombie(&purchase.zombie_id);
        self.deposit_event(Event::Bought(purchase.buyer, purchase.seller, purchase.zombie_id, purchase.price));
    }

    /// Breeds a new zombie for the signed caller from two zombies it owns; both parents
    /// level up. Inputs on which levelling up a parent would overflow a `u32` are left out.
    pub fn bleed_zombie(
        &mut self,
        origin: Origin,
        parent_a: ZombieId,
        parent_b: ZombieId,
        ctx: &BlockContext,
    ) -> (r: Result<(), DispatchError>)
        requires
            old(self).wf(),
            old(self)@.bleed_fits(origin, parent_a, parent_b, *ctx),
        ensures
            final(self).wf(),
            (final(self)@, r) == old(self)@.bleed_zombie_outcome(origin, parent_a, parent_b, *ctx),
    {
        let caller = ensure_signed(origin)?;
        match self.is_zombie_owner(&parent_a, caller) {
            Ok(true) => {},
            Ok(false) => return Err(DispatchError::Module(Error::NotZombieOwner)),
            Err(e) => return Err(DispatchError::Module(e)),
        }
        match self.is_zombie_owner(&parent_b, caller) {
            Ok(true) => {},
            Ok(false) => return Err(DispatchError::Module(Error::NotZombieOwner)),
            Err(e) => return Err(DispatchError::Module(e)),
        }
        let new_dna = match self.breed_dna(&parent_a, &parent_b, ctx) {
            Ok(d) => d,
            Err(e) => return Err(DispatchError::Module(e)),
        };
        match self.mint(caller, Some(new_dna), None, 0, ctx) {
            Ok(_) => {},
            Err(e) => return Err(DispatchError::Module(e)),
        }
        let _ = self.level_up_zombie(&parent_a);
        let _ = self.level_up_zombie(&parent_b);
        Ok(())
    }

    /// A zombie of the signed caller fights a zombie of someone else; the winner levels up
    /// and `Battle` is deposited. Inputs on which the tripled level of a `NewType` fighter,
    /// or the winner's new level, would overflow a `u32` are left out.
    pub fn battle(
        &mut self,
        origin: Origin,
        challenger: ZombieId,
        opponent: ZombieId,
        ctx: &BlockContext,
    ) -> (r: Result<(), DispatchError>)
        requires
            old(self).wf(),
            old(self)@.battle_fits(origin, challenger, opponent, *ctx),
        ensures
            final(self).wf(),
            (final(self)@, r) == old(self)@.battle_outcome(origin, challenger, opponent, *ctx),
    {
        let caller = ensure_signed(origin)?;
        match self.is_zombie_owner(&challenger, caller) {
            Ok(true) => {},
            Ok(false) => return Err(DispatchError::Module(Error::NotZombieOwner)),
            Err(e) => return Err(DispatchError::Module(e)),
        }
        if ids_equal(&challenger, &opponent) {
            return Err(DispatchError::Module(Error::BattleWithSelf));
        }
        match self.is_zombie_owner(&opponent, caller) {
            Ok(false) => {},
            Ok(true) => return Err(DispatchError::Module(Error::BattleWithSelf)),
            Err(e) => return Err(DispatchError::Module(e)),
        }
        let did_win = match self.is_winner(&challenger, &opponent, true, ctx) {
            Ok(w) => w,
            Err(e) => return Err(DispatchError::Module(e)),
        };
        if did_win {
            let _ = self.level_up_zombie(&challenger);
        } else {
            let _ = self.level_up_zombie(&opponent);
        }
        self.deposit_event(Event::Battle(challenger, opponent, did_win));
        Ok(())
    }

    /// Trains a zombie of the signed caller against another of its zombies: when the
    /// trainee does not win (levels compared without bursts), it levels up. Inputs on which
    /// that would overflow a `u32` are left out.
    pub fn train(
        &mut self,
        origin: Origin,
        trainee: ZombieId,
        trainer: ZombieId,
        ctx: &BlockContext,
    ) -> (r: Result<(), DispatchError>)
        requires
            old(self).wf(),
            old(self)@.train_fits(origin, trainee, trainer, *ctx),
        ensures
            final(self).wf(),
            (final(self)@, r) == old(self)@.train_outcome(origin, trainee, trainer, *ctx),
    {
        let caller = ensure_signed(origin)?;
        match self.is_zombie_owner(&trainee, caller) {
            Ok(true) => {},
            Ok(false) => return Err(DispatchError::Module(Error::NotZombieOwner)),
            Err(e) => return Err(DispatchError::Module(e)),
        }
        match self.is_zombie_owner(&trainer, caller) {
            Ok(true) => {},
            Ok(false) => return Err(DispatchError::Module(Error::NotZombieOwner)),
            Err(e) => return Err(DispatchError::Module(e)),
        }
        let is_training_hard = match self.is_winner(&trainee, &trainer, false, ctx) {
            Ok(w) => !w,
            Err(e) => return Err(DispatchError::Module(e)),
        };
        if is_training_hard {
            let _ = self.level_up_zombie(&trainee);
        }
        Ok(())
    }


    /// Whether levelling up `zombie_id` stays within a `u32` (always so for a missing zombie).
    pub fn can_level_up(&self, zombie_id: &ZombieId) -> (r: bool)
        requires
            self.storage_ok(),
        ensures
            r == self@.level_up_fits(*zombie_id),
    {
        match self.zombies(zombie_id) {
            Some(z) => !(z.level < self.config().max_zombie_level && z.gender == Gender::NewType) || z.level <= 4294967292,
            None => true,
        }
    }

    /// Whether `bleed_zombie` would overflow a level: its checks pass, the child can be
    /// minted, and levelling up the parents (the first, then the second) leaves a `u32`.
    fn bleed_overflows(&self, origin: Origin, parent_a: &ZombieId, parent_b: &ZombieId, ctx: &BlockContext) -> (r: bool)
        requires
            self.wf(),
        ensures
            r == !self@.bleed_fits(origin, *parent_a, *parent_b, *ctx),
    {
        let caller = match origin {
            Origin::Signed(c) => c,
            _ => return false,
        };
        let za = match self.zombies(parent_a) {
            Some(z) => z,
            None => return false,
        };
        let zb = match self.zombies(parent_b) {
            Some(z) => z,
            None => return false,
        };
        if za.owner != caller || zb.owner != caller {
            return false;
        }
        let dna = match self.breed_dna(parent_a, parent_b, ctx) {
            Ok(d) => d,
            Err(_) => return false,
        };
        let child = Zombie {
            dna,
            price: None,
            gender: Self::gen_gender(&ctx.random_gender),
            owner: caller,
            level: 0,
        };
        assert(child == minted_zombie(*ctx, caller, Some(dna), None, 0));
        let child_id = hash_of_zombie(&child);
        if self.count_for_zombies() == u64::MAX || self.zombies(&child_id).is_some()
            || self.owned_len_of(caller) >= self.config().max_zombie_owned as usize {
            return false;
        }
        let ghost s1 = self@.mint_outcome(*ctx, caller, Some(dna), None, 0).0;
        assert(child_id != *parent_a && child_id != *parent_b);
        assert(s1.zombies[*parent_a] == za && s1.zombies[*parent_b] == zb);
        let max_level = self.config().max_zombie_level;
        let room_a = !(za.level < max_level && za.gender == Gender::NewType) || za.level <= 4294967292;
        if !room_a {
            return true;
        }
        let zb2 = if ids_equal(parent_a, parent_b) {
            let mut z = za;
            if z.level < max_level {
                if z.gender == Gender::NewType {
                    z.level = z.level + 3;
                } else {
                    z.level = z.level + 1;
                }
            }
            z
        } else {
            zb
        };
        assert(s1.level_up_outcome(*parent_a).0.zombies[*parent_b] == zb2);
        !(!(zb2.level < max_level && zb2.gender == Gender::NewType) || zb2.level <= 4294967292)
    }

    /// `bleed_zombie` where it does not overflow a level; `None`, with nothing changed, where
    /// it would.
    pub fn bleed_zombie_checked(
        &mut self,
        origin: Origin,
        parent_a: ZombieId,
        parent_b: ZombieId,
        ctx: &BlockContext,
    ) -> (r: Option<Result<(), DispatchError>>)
        requires
            old(self).wf(),
        ensures
            final(self).wf(),
            r is None <==> !old(self)@.bleed_fits(origin, parent_a, parent_b, *ctx),
            r is None ==> final(self)@ == old(self)@,
            r matches Some(x) ==> (final(self)@, x) == old(self)@.bleed_zombie_outcome(origin, parent_a, parent_b, *ctx),
    {
        if self.bleed_overflows(origin, &parent_a, &parent_b, ctx) {
            return None;
        }
        Some(self.bleed_zombie(origin, parent_a, parent_b, ctx))
    }

    /// Whether `battle` would overflow a level: its checks pass and a `NewType` fighter's
    /// tripled level, or the winner's new level, leaves a `u32`.
    fn battle_overflows(&self, origin: Origin, challenger: &ZombieId, opponent: &ZombieId, ctx: &BlockContext) -> (r: bool)
        requires
            self.wf(),
        ensures
            r == !self@.battle_fits(origin, *challenger, *opponent, *ctx),
    {
        let caller = match origin {
            Origin::Signed(c) => c,
            _ => return false,
        };
        let zc = match self.zombies(challenger) {
            Some(z) => z,
            None => return false,
        };
        if zc.owner != caller || ids_equal(challenger, opponent) {
            return false;
        }
        let zo = match self.zombies(opponent) {
            Some(z) => z,
            None => return false,
        };
        if zo.owner == caller {
            return false;
        }
        if !(zc.gender != Gender::NewType || zc.level <= 1431655765) || !(zo.gender != Gender::NewType || zo.level
            <= 1431655765) {
            return true;
        }
        let did_win = match self.is_winner(challenger, opponent, true, ctx) {
            Ok(w) => w,
            Err(_) => return false,
        };
        if did_win {
            !self.can_level_up(challenger)
        } else {
            !self.can_level_up(opponent)
        }
    }

    /// `battle` where it does not overflow a level; `None`, with nothing changed, where it
    /// would.
    pub fn battle_checked(
        &mut self,
        origin: Origin,
        challenger: ZombieId,
        opponent: ZombieId,
        ctx: &BlockContext,
    ) -> (r: Option<Result<(), DispatchError>>)
        requires
            old(self).wf(),
        ensures
            final(self).wf(),
            r is None <==> !old(self)@.battle_fits(origin, challenger, opponent, *ctx),
            r is None ==> final(self)@ == old(self)@,
            r matches Some(x) ==> (final(self)@, x) == old(self)@.battle_outcome(origin, challenger, opponent, *ctx),
    {
        if self.battle_overflows(origin, &challenger, &opponent, ctx) {
            return None;
        }
        Some(self.battle(origin, challenger, opponent, ctx))
    }

    /// `train` where it does not overflow a level; `None`, with nothing changed, where it
    /// would.
    pub fn train_checked(
        &mut self,
        origin: Origin,
        trainee: ZombieId,
        trainer: ZombieId,
        ctx: &BlockContext,
    ) -> (r: Option<Result<(), DispatchError>>)
        requires
            old(self).wf(),
        ensures
            final(self).wf(),
            r is None <==> !old(self)@.train_fits(origin, trainee, trainer, *ctx),
            r is None ==> final(self)@ == old(self)@,
            r matches Some(x) ==> (final(self)@, x) == old(self)@.train_outcome(origin, trainee, trainer, *ctx),
    {
        let overflows = match origin {
            Origin::Signed(caller) => {
                match (self.zombies(&trainee), self.zombies(&trainer)) {
                    (Some(zt), Some(zr)) => {
                        if zt.owner == caller && zr.owner == caller {
                            match self.is_winner(&trainee, &trainer, false, ctx) {
                                Ok(won) => !won && !self.can_level_up(&trainee),
                                Err(_) => false,
                            }
                        } else {
                            false
                        }
                    },
                    _ => false,
                }
            },
            _ => false,
        };
        if overflows {
            return None;
        }
        Some(self.train(origin, trainee, trainer, ctx))
    }

}

} // verus!
