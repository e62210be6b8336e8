use vstd::prelude::*;
use crate::hashing::{fresh_dna, zombie_id_of};
use crate::types::{
    AccountId, Balance, BlockContext, DispatchError, Dna, Error, Event, Gender, Origin, Purchase,
    RandomSeed, Zombie, ZombieId, Config,
};

verus! {

/// The pallet's storage, read as mathematical values.
pub struct PalletState {
    /// The runtime's configuration.
    pub config: Config,
    /// `CountForZombies`: how many zombies were minted.
    pub count_for_zombies: u64,
    /// `Zombies`: every zombie by its id.
    pub zombies: Map<ZombieId, Zombie>,
    /// `ZombiesOwned`: the ids each account owns, in storage order; an account with no
    /// stored list maps to the empty sequence.
    pub zombies_owned: Map<AccountId, Seq<ZombieId>>,
    /// The events deposited so far.
    pub events: Seq<Event>,
}

impl PalletState {
    /// The ids that `who` owns.
    pub open spec fn owned(self, who: AccountId) -> Seq<ZombieId> {
        self.zombies_owned[who]
    }

    /// Every account has an entry (possibly empty).
    pub open spec fn owned_total(self) -> bool {
        forall|who: AccountId| #[trigger] self.zombies_owned.contains_key(who)
    }

    /// Every zombie is listed under its owner.
    pub open spec fn zombies_listed(self) -> bool {
        forall|id: ZombieId| #[trigger] self.zombies.contains_key(id)
            ==> self.zombies_owned[self.zombies[id].owner].contains(id)
    }

    /// Every listed id is a zombie owned by the account it is listed under.
    pub open spec fn listed_are_owned(self) -> bool {
        forall|who: AccountId, i: int| 0 <= i < self.zombies_owned[who].len()
            ==> self.zombies.contains_key(#[trigger] self.zombies_owned[who][i])
                && self.zombies[self.zombies_owned[who][i]].owner == who
    }

    /// No list holds an id twice, and none holds more than `max_zombie_owned` ids.
    pub open spec fn lists_well_formed(self) -> bool {
        forall|who: AccountId| #![trigger self.zombies_owned[who]]
            self.zombies_owned[who].no_duplicates()
            && self.zombies_owned[who].len() <= self.config.max_zombie_owned
    }

    /// The counter equals the number of zombies in storage.
    pub open spec fn count_matches(self) -> bool {
        &&& self.zombies.dom().finite()
        &&& self.count_for_zombies == self.zombies.dom().len()
    }

    /// What every operation of the pallet keeps.
    pub open spec fn inv(self) -> bool {
        &&& self.owned_total()
        &&& self.zombies_listed()
        &&& self.listed_are_owned()
        &&& self.lists_well_formed()
        &&& self.count_matches()
    }
}

/// The gender drawn from the randomness for `b"gender"`: the parity of its first byte.
pub open spec fn gender_from_seed(seed: RandomSeed) -> Gender {
    if seed[0] % 2 == 0 {
        Gender::Male
    } else {
        Gender::Female
    }
}

/// The zombie that `mint` builds: given DNA and gender, or fresh ones from the block.
pub open spec fn minted_zombie(
    ctx: BlockContext,
    owner: AccountId,
    dna: Option<Dna>,
    gender: Option<Gender>,
    level: u32,
) -> Zombie {
    Zombie {
        dna: match dna {
            Some(d) => d,
            None => fresh_dna(ctx),
        },
        price: None,
        gender: match gender {
            Some(g) => g,
            None => gender_from_seed(ctx.random_gender),
        },
        owner,
        level,
    }
}

/// The bytes of bred DNA: each bit comes from parent `a` where the fresh DNA `g` has a one,
/// and from parent `b` where it has a zero.
pub open spec fn bred_bytes(g: Dna, a: Dna, b: Dna) -> Seq<u8> {
    Seq::new(16, |i: int| (g[i] & a[i]) | (!g[i] & b[i]))
}

pub open spec fn bred_dna(g: Dna, a: Dna, b: Dna) -> Dna {
    choose|d: Dna| d@ == bred_bytes(g, a, b)
}

/// The strength of a zombie in a fight: its level, tripled for a `NewType` when bursts count.
pub open spec fn strength(z: Zombie, burst_new_type: bool) -> int {
    if burst_new_type && z.gender == Gender::NewType {
        z.level * 3
    } else {
        z.level as int
    }
}

/// A zombie's strength with bursts fits in a `u32`.
pub open spec fn burst_fits(z: Zombie) -> bool {
    z.gender == Gender::NewType ==> z.level * 3 <= u32::MAX
}

/// How much a zombie below the maximum level gains when it levels up.
pub open spec fn level_gain(g: Gender) -> int {
    if g == Gender::NewType {
        3
    } else {
        1
    }
}

impl PalletState {
    pub open spec fn with_event(self, e: Event) -> PalletState {
        PalletState { events: self.events.push(e), ..self }
    }

    /// `is_zombie_owner`.
    pub open spec fn owner_query(self, id: ZombieId, who: AccountId) -> Result<bool, Error> {
        if self.zombies.contains_key(id) {
            Ok(self.zombies[id].owner == who)
        } else {
            Err(Error::ZombieNotExists)
        }
    }

    /// `mint`.
    pub open spec fn mint_outcome(
        self,
        ctx: BlockContext,
        owner: AccountId,
        dna: Option<Dna>,
        gender: Option<Gender>,
        level: u32,
    ) -> (PalletState, Result<ZombieId, Error>) {
        let z = minted_zombie(ctx, owner, dna, gender, level);
        let id = zombie_id_of(z);
        if self.count_for_zombies == u64::MAX {
            (self, Err(Error::CountForZombiesOverflow))
        } else if self.zombies.contains_key(id) {
            (self, Err(Error::ZombieAlreadyExists))
        } else if self.owned(owner).len() >= self.config.max_zombie_owned {
            (self, Err(Error::ExceedMaxZombieOwned))
        } else {
            (
                PalletState {
                    count_for_zombies: (self.count_for_zombies + 1) as u64,
                    zombies: self.zombies.insert(id, z),
                    zombies_owned: self.zombies_owned.insert(owner, self.owned(owner).push(id)),
                    ..self
                },
                Ok(id),
            )
        }
    }

    /// Levelling up `id` does not overflow a `u32`: a `NewType` below the maximum level
    /// gains three.
    pub open spec fn level_up_fits(self, id: ZombieId) -> bool {
        self.zombies.contains_key(id) && self.zombies[id].level < self.config.max_zombie_level
            && self.zombies[id].gender == Gender::NewType ==> self.zombies[id].level + 3 <= u32::MAX
    }

    /// `level_up_zombie`.
    pub open spec fn level_up_outcome(self, id: ZombieId) -> (PalletState, Result<(), Error>) {
        if !self.zombies.contains_key(id) {
            (self, Err(Error::ZombieNotExists))
        } else if self.zombies[id].level >= self.config.max_zombie_level {
            (self, Ok(()))
        } else {
            let z = self.zombies[id];
            (
                PalletState {
                    zombies: self.zombies.insert(id, Zombie { level: (z.level + level_gain(z.gender)) as u32, ..z }),
                    ..self
                },
                Ok(()),
            )
        }
    }

    /// `is_winner`: whether the challenger wins; on equal strength the first byte of the
    /// randomness for `b"battle"` decides.
    pub open spec fn winner_outcome(
        self,
        challenger: ZombieId,
        opponent: ZombieId,
        burst_new_type: bool,
        seed: RandomSeed,
    ) -> Result<bool, Error> {
        if !self.zombies.contains_key(challenger) || !self.zombies.contains_key(opponent) {
            Err(Error::ZombieNotExists)
        } else {
            let c = strength(self.zombies[challenger], burst_new_type);
            let o = strength(self.zombies[opponent], burst_new_type);
            if c != o {
                Ok(c > o)
            } else {
                Ok(seed[0] % 2 == 0)
            }
        }
    }

    /// `breed_dna`.
    pub open spec fn breed_outcome(self, a: ZombieId, b: ZombieId, ctx: BlockContext) -> Result<Dna, Error> {
        if !self.zombies.contains_key(a) || !self.zombies.contains_key(b) {
            Err(Error::ZombieNotExists)
        } else {
            Ok(bred_dna(fresh_dna(ctx), self.zombies[a].dna, self.zombies[b].dna))
        }
    }

    /// `transfer_zombie_to`; a failure leaves the storage as it was.
    pub open spec fn transfer_zombie_to_outcome(self, id: ZombieId, to: AccountId) -> (PalletState, Result<(), Error>) {
        if !self.zombies.contains_key(id) {
            (self, Err(Error::ZombieNotExists))
        } else {
            let z = self.zombies[id];
            let list = self.owned(z.owner);
            if !list.contains(id) {
                (self, Err(Error::ZombieNotExists))
            } else {
                let pos = list.index_of_first(id)->0;
                let owned1 = self.zombies_owned.insert(z.owner, list.update(pos, list.last()).drop_last());
                if owned1[to].len() >= self.config.max_zombie_owned {
                    (self, Err(Error::ExceedMaxZombieOwned))
                } else {
                    (
                        PalletState {
                            zombies: self.zombies.insert(id, Zombie { owner: to, price: None, ..z }),
                            zombies_owned: owned1.insert(to, owned1[to].push(id)),
                            ..self
                        },
                        Ok(()),
                    )
                }
            }
        }
    }

    /// `create_zombie`.
    pub open spec fn create_zombie_outcome(self, origin: Origin, ctx: BlockContext) -> (PalletState, Result<(), DispatchError>) {
        match origin {
            Origin::Signed(caller) => {
                let (s1, r) = self.mint_outcome(ctx, caller, None, None, 0);
                match r {
                    Ok(id) => (s1.with_event(Event::Created(caller, id)), Ok(())),
                    Err(e) => (self, Err(DispatchError::Module(e))),
                }
            },
            _ => (self, Err(DispatchError::BadOrigin)),
        }
    }

    /// `crate_cheat_zombie`.
    pub open spec fn crate_cheat_zombie_outcome(
        self,
        origin: Origin,
        gender: Gender,
        level: u32,
        ctx: BlockContext,
    ) -> (PalletState, Result<(), DispatchError>) {
        match origin {
            Origin::Signed(caller) => {
                let (s1, r) = self.mint_outcome(ctx, caller, None, Some(gender), level);
                match r {
                    Ok(id) => (s1.with_event(Event::Created(caller, id)), Ok(())),
                    Err(e) => (self, Err(DispatchError::Module(e))),
                }
            },
            _ => (self, Err(DispatchError::BadOrigin)),
        }
    }

    /// `set_price`.
    pub open spec fn set_price_outcome(
        self,
        origin: Origin,
        id: ZombieId,
        new_price: Option<Balance>,
    ) -> (PalletState, Result<(), DispatchError>) {
        match origin {
            Origin::Signed(caller) => {
                if !self.zombies.contains_key(id) {
                    (self, Err(DispatchError::Module(Error::ZombieNotExists)))
                } else if self.zombies[id].owner != caller {
                    (self, Err(DispatchError::Module(Error::NotZombieOwner)))
                } else {
                    let z = self.zombies[id];
                    (
                        PalletState {
                            zombies: self.zombies.insert(id, Zombie { price: new_price, ..z }),
                            ..self
                        }.with_event(Event::PriceSet(caller, id, new_price)),
                        Ok(()),
                    )
                }
            },
            _ => (self, Err(DispatchError::BadOrigin)),
        }
    }

    /// `transfer`.
    pub open spec fn transfer_outcome(self, origin: Origin, to: AccountId, id: ZombieId) -> (PalletState, Result<(), DispatchError>) {
        match origin {
            Origin::Signed(from) => {
                if !self.zombies.contains_key(id) {
                    (self, Err(DispatchError::Module(Error::ZombieNotExists)))
                } else if self.zombies[id].owner != from {
                    (self, Err(DispatchError::Module(Error::NotZombieOwner)))
                } else if from == to {
                    (self, Err(DispatchError::Module(Error::TransferToSelf)))
                } else if self.owned(to).len() >= self.config.max_zombie_owned {
                    (self, Err(DispatchError::Module(Error::ExceedMaxZombieOwned)))
                } else {
                    let (s1, r) = self.transfer_zombie_to_outcome(id, to);
                    match r {
                        Ok(_) => (s1.with_event(Event::Transfered(from, to, id)), Ok(())),
                        Err(e) => (self, Err(DispatchError::Module(e))),
                    }
                }
            },
            _ => (self, Err(DispatchError::BadOrigin)),
        }
    }

    /// The checks of `buy_zombie`, made before any currency moves: on success, the payment
    /// that the buyer owes the seller.
    pub open spec fn buy_zombie_outcome(
        self,
        origin: Origin,
        id: ZombieId,
        bid_price: Balance,
        buyer_free_balance: Balance,
    ) -> Result<Purchase, DispatchError> {
        match origin {
            Origin::Signed(buyer) => {
                if !self.zombies.contains_key(id) {
                    Err(DispatchError::Module(Error::ZombieNotExists))
                } else if buyer == self.zombies[id].owner {
                    Err(DispatchError::Module(Error::BuyerIsZombieOwner))
                } else {
                    match self.zombies[id].price {
                        None => Err(DispatchError::Module(Error::ZombieNotForSale)),
                        Some(ask) => {
                            if ask > bid_price {
                                Err(DispatchError::Module(Error::ZombieBidPriceTooLow))
                            } else if buyer_free_balance < bid_price {
                                Err(DispatchError::Module(Error::NotEnoughBalance))
                            } else if self.owned(buyer).len() >= self.config.max_zombie_owned {
                                Err(DispatchError::Module(Error::ExceedMaxZombieOwned))
                            } else {
                                Ok(
                                    Purchase {
                                        buyer,
                                        seller: self.zombies[id].owner,
                                        zombie_id: id,
                                        price: bid_price,
                                    },
                                )
                            }
                        },
                    }
                }
            },
            _ => Err(DispatchError::BadOrigin),
        }
    }

    /// The storage still admits the purchase: the zombie is the seller's, the buyer is
    /// someone else and has room for one more zombie.
    pub open spec fn purchase_ready(self, p: Purchase) -> bool {
        &&& self.zombies.contains_key(p.zombie_id)
        &&& self.zombies[p.zombie_id].owner == p.seller
        &&& p.buyer != p.seller
        &&& self.owned(p.buyer).len() < self.config.max_zombie_owned
    }

    /// What `buy_zombie` does once the payment has gone through: the zombie moves to the
    /// buyer, levels up, and `Bought` is deposited.
    pub open spec fn complete_purchase_outcome(self, p: Purchase) -> PalletState {
        let s1 = self.transfer_zombie_to_outcome(p.zombie_id, p.buyer).0;
        let s2 = s1.level_up_outcome(p.zombie_id).0;
        s2.with_event(Event::Bought(p.buyer, p.seller, p.zombie_id, p.price))
    }

    /// `bleed_zombie`.
    pub open spec fn bleed_zombie_outcome(
        self,
        origin: Origin,
        parent_a: ZombieId,
        parent_b: ZombieId,
        ctx: BlockContext,
    ) -> (PalletState, Result<(), DispatchError>) {
        match origin {
            Origin::Signed(caller) => {
                if !self.zombies.contains_key(parent_a) {
                    (self, Err(DispatchError::Module(Error::ZombieNotExists)))
                } else if self.zombies[parent_a].owner != caller {
                    (self, Err(DispatchError::Module(Error::NotZombieOwner)))
                } else if !self.zombies.contains_key(parent_b) {
                    (self, Err(DispatchError::Module(Error::ZombieNotExists)))
                } else if self.zombies[parent_b].owner != caller {
                    (self, Err(DispatchError::Module(Error::NotZombieOwner)))
                } else {
                    let dna = bred_dna(fresh_dna(ctx), self.zombies[parent_a].dna, self.zombies[parent_b].dna);
                    let (s1, r) = self.mint_outcome(ctx, caller, Some(dna), None, 0);
                    match r {
                        Ok(_) => (s1.level_up_outcome(parent_a).0.level_up_outcome(parent_b).0, Ok(())),
                        Err(e) => (self, Err(DispatchError::Module(e))),
                    }
                }
            },
            _ => (self, Err(DispatchError::BadOrigin)),
        }
    }

    /// The checks of `battle` pass.
    pub open spec fn battle_allowed(self, caller: AccountId, challenger: ZombieId, opponent: ZombieId) -> bool {
        &&& self.zombies.contains_key(challenger)
        &&& self.zombies[challenger].owner == caller
        &&& challenger != opponent
        &&& self.zombies.contains_key(opponent)
        &&& self.zombies[opponent].owner != caller
    }

    /// The tripled levels of `NewType` fighters fit in a `u32` and the winner can level up
    /// without overflow, wherever the checks of `battle` pass.
    pub open spec fn battle_fits(self, origin: Origin, challenger: ZombieId, opponent: ZombieId, ctx: BlockContext) -> bool {
        match origin {
            Origin::Signed(caller) => self.battle_allowed(caller, challenger, opponent) ==> {
                let did_win = self.winner_outcome(challenger, opponent, true, ctx.random_battle)->Ok_0;
                &&& burst_fits(self.zombies[challenger])
                &&& burst_fits(self.zombies[opponent])
                &&& self.level_up_fits(if did_win { challenger } else { opponent })
            },
            _ => true,
        }
    }

    /// Both parents can level up without overflow, wherever `bleed_zombie` gets that far.
    pub open spec fn bleed_fits(self, origin: Origin, parent_a: ZombieId, parent_b: ZombieId, ctx: BlockContext) -> bool {
        match origin {
            Origin::Signed(caller) => (self.zombies.contains_key(parent_a) && self.zombies[parent_a].owner == caller
                && self.zombies.contains_key(parent_b) && self.zombies[parent_b].owner == caller) ==> {
                let dna = bred_dna(fresh_dna(ctx), self.zombies[parent_a].dna, self.zombies[parent_b].dna);
                let (s1, r) = self.mint_outcome(ctx, caller, Some(dna), None, 0);
                r is Ok ==> s1.level_up_fits(parent_a) && s1.level_up_outcome(parent_a).0.level_up_fits(parent_b)
            },
            _ => true,
        }
    }

    /// The trainee can level up without overflow, wherever `train` levels it up.
    pub open spec fn train_fits(self, origin: Origin, trainee: ZombieId, trainer: ZombieId, ctx: BlockContext) -> bool {
        match origin {
            Origin::Signed(caller) => (self.zombies.contains_key(trainee) && self.zombies[trainee].owner == caller
                && self.zombies.contains_key(trainer) && self.zombies[trainer].owner == caller
                && !(self.winner_outcome(trainee, trainer, false, ctx.random_battle)->Ok_0)) ==> self.level_up_fits(trainee),
            _ => true,
        }
    }

    /// `battle`.
    pub open spec fn battle_outcome(
        self,
        origin: Origin,
        challenger: ZombieId,
        opponent: ZombieId,
        ctx: BlockContext,
    ) -> (PalletState, Result<(), DispatchError>) {
        match origin {
            Origin::Signed(caller) => {
                if !self.zombies.contains_key(challenger) {
                    (self, Err(DispatchError::Module(Error::ZombieNotExists)))
                } else if self.zombies[challenger].owner != caller {
                    (self, Err(DispatchError::Module(Error::NotZombieOwner)))
                } else if challenger == opponent {
                    (self, Err(DispatchError::Module(Error::BattleWithSelf)))
                } else if !self.zombies.contains_key(opponent) {
                    (self, Err(DispatchError::Module(Error::ZombieNotExists)))
                } else if self.zombies[opponent].owner == caller {
                    (self, Err(DispatchError::Module(Error::BattleWithSelf)))
                } else {
                    let did_win = self.winner_outcome(challenger, opponent, true, ctx.random_battle)->Ok_0;
                    let winner = if did_win { challenger } else { opponent };
                    (
                        self.level_up_outcome(winner).0.with_event(Event::Battle(challenger, opponent, did_win)),
                        Ok(()),
                    )
                }
            },
            _ => (self, Err(DispatchError::BadOrigin)),
        }
    }

    /// `train`.
    pub open spec fn train_outcome(
        self,
        origin: Origin,
        trainee: ZombieId,
        trainer: ZombieId,
        ctx: BlockContext,
    ) -> (PalletState, Result<(), DispatchError>) {
        match origin {
            Origin::Signed(caller) => {
                if !self.zombies.contains_key(trainee) {
                    (self, Err(DispatchError::Module(Error::ZombieNotExists)))
                } else if self.zombies[trainee].owner != caller {
                    (self, Err(DispatchError::Module(Error::NotZombieOwner)))
                } else if !self.zombies.contains_key(trainer) {
                    (self, Err(DispatchError::Module(Error::ZombieNotExists)))
                } else if self.zombies[trainer].owner != caller {
                    (self, Err(DispatchError::Module(Error::NotZombieOwner)))
                } else {
                    let trainee_won = self.winner_outcome(trainee, trainer, false, ctx.random_battle)->Ok_0;
                    if !trainee_won {
                        (self.level_up_outcome(trainee).0, Ok(()))
                    } else {
                        (self, Ok(()))
                    }
                }
            },
            _ => (self, Err(DispatchError::BadOrigin)),
        }
    }
}

} // verus!
