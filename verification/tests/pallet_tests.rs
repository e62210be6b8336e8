use pallet_zombies::hashing::{encode_zombie, hash_of_zombie};
use pallet_zombies::{
    BlockContext, Config, DispatchError, Error, Event, Gender, GenesisConfig, Origin, Pallet, Purchase, Zombie,
    ZombieId,
};
use parity_scale_codec::Encode;

fn ctx(seed: u8) -> BlockContext {
    BlockContext {
        random_dna: [seed; 32],
        random_gender: [seed; 32],
        random_battle: [seed; 32],
        extrinsic_index: Some(seed as u32),
        block_number: 7,
    }
}

const MAX_ZOMBIE_OWNED: u32 = 5;
const MAX_ZOMBIE_LEVEL: u32 = 10;

fn config() -> Config {
    Config { max_zombie_owned: MAX_ZOMBIE_OWNED, max_zombie_level: MAX_ZOMBIE_LEVEL }
}

fn empty() -> Pallet {
    GenesisConfig::default().build(config())
}

fn gender_index(g: Gender) -> u8 {
    match g {
        Gender::Male => 0,
        Gender::Female => 1,
        Gender::NewType => 2,
    }
}

fn expected_id(z: &Zombie) -> ZombieId {
    let enc = (z.dna, z.price, gender_index(z.gender), z.owner, z.level).encode();
    sp_io::hashing::blake2_256(&enc)
}

fn expected_fresh_dna(c: &BlockContext) -> [u8; 16] {
    let payload = (c.random_dna, c.extrinsic_index.unwrap_or_default(), c.block_number).encode();
    sp_io::hashing::blake2_128(&payload)
}

fn signed(who: u64) -> Origin {
    Origin::Signed(who)
}

/// Mints a zombie with the given gender and level for `who` and returns its id.
fn cheat(p: &mut Pallet, who: u64, gender: Gender, level: u32, seed: u8) -> ZombieId {
    p.crate_cheat_zombie(signed(who), gender, level, &ctx(seed)).unwrap();
    let owned = p.zombies_owned(who);
    *owned.last().unwrap()
}

#[test]
fn create_zombie_mints_for_the_caller() {
    let mut p = empty();
    let c = ctx(2);
    assert_eq!(p.create_zombie(signed(1), &c), Ok(()));
    assert_eq!(p.count_for_zombies(), 1);
    let owned = p.zombies_owned(1);
    assert_eq!(owned.len(), 1);
    let id = owned[0];
    let z = p.zombies(&id).unwrap();
    assert_eq!(z.owner, 1);
    assert_eq!(z.level, 0);
    assert_eq!(z.price, None);
    assert_eq!(z.gender, Gender::Male);
    assert_eq!(z.dna, expected_fresh_dna(&c));
    assert_eq!(id, expected_id(&z));
    assert_eq!(p.events(), &[Event::Created(1, id)][..]);
}

#[test]
fn create_zombie_needs_a_signed_origin() {
    let mut p = empty();
    assert_eq!(p.create_zombie(Origin::Root, &ctx(1)), Err(DispatchError::BadOrigin));
    assert_eq!(p.create_zombie(Origin::Unsigned, &ctx(1)), Err(DispatchError::BadOrigin));
    assert_eq!(p.count_for_zombies(), 0);
    assert!(p.events().is_empty());
}

#[test]
fn fresh_gender_follows_the_parity_of_the_seed() {
    let mut p = empty();
    p.create_zombie(signed(1), &ctx(3)).unwrap();
    let id = p.zombies_owned(1)[0];
    assert_eq!(p.zombies(&id).unwrap().gender, Gender::Female);
    p.create_zombie(signed(1), &ctx(4)).unwrap();
    let id = p.zombies_owned(1)[1];
    assert_eq!(p.zombies(&id).unwrap().gender, Gender::Male);
}

#[test]
fn zombie_id_is_blake2_256_of_the_scale_encoding() {
    let z = Zombie { dna: [9; 16], price: Some(300), gender: Gender::NewType, owner: 42, level: 5 };
    let enc = (z.dna, z.price, 2u8, z.owner, z.level).encode();
    assert_eq!(encode_zombie(&z), enc);
    assert_eq!(hash_of_zombie(&z), sp_io::hashing::blake2_256(&enc));
    assert_ne!(hash_of_zombie(&z)[..16], z.dna[..]);
    let z2 = Zombie { price: None, ..z };
    assert_eq!(encode_zombie(&z2), (z2.dna, z2.price, 2u8, z2.owner, z2.level).encode());
}

#[test]
fn minting_the_same_zombie_twice_fails() {
    let mut p = empty();
    assert_eq!(p.create_zombie(signed(1), &ctx(5)), Ok(()));
    assert_eq!(p.create_zombie(signed(1), &ctx(5)), Err(DispatchError::Module(Error::ZombieAlreadyExists)));
    assert_eq!(p.count_for_zombies(), 1);
    assert_eq!(p.events().len(), 1);
}

#[test]
fn an_account_owns_at_most_the_maximum() {
    let mut p = empty();
    for s in 0..MAX_ZOMBIE_OWNED as u8 {
        assert_eq!(p.create_zombie(signed(1), &ctx(s)), Ok(()));
    }
    assert_eq!(p.zombies_owned(1).len(), MAX_ZOMBIE_OWNED as usize);
    assert_eq!(p.create_zombie(signed(1), &ctx(100)), Err(DispatchError::Module(Error::ExceedMaxZombieOwned)));
    assert_eq!(p.count_for_zombies(), MAX_ZOMBIE_OWNED as u64);
    assert_eq!(p.create_zombie(signed(2), &ctx(100)), Ok(()));
}

#[test]
fn cheat_zombie_takes_gender_and_level() {
    let mut p = empty();
    let id = cheat(&mut p, 1, Gender::NewType, 7, 1);
    let z = p.zombies(&id).unwrap();
    assert_eq!(z.gender, Gender::NewType);
    assert_eq!(z.level, 7);
    assert_eq!(p.events(), &[Event::Created(1, id)][..]);
    assert_eq!(p.crate_cheat_zombie(Origin::Root, Gender::Male, 1, &ctx(2)), Err(DispatchError::BadOrigin));
}

#[test]
fn set_price_by_owner_only() {
    let mut p = empty();
    let id = cheat(&mut p, 1, Gender::Male, 0, 1);
    assert_eq!(p.set_price(signed(2), id, Some(10)), Err(DispatchError::Module(Error::NotZombieOwner)));
    assert_eq!(p.set_price(signed(1), [0; 32], Some(10)), Err(DispatchError::Module(Error::ZombieNotExists)));
    assert_eq!(p.set_price(signed(1), id, Some(10)), Ok(()));
    assert_eq!(p.zombies(&id).unwrap().price, Some(10));
    assert_eq!(p.events().last(), Some(&Event::PriceSet(1, id, Some(10))));
    assert_eq!(p.set_price(signed(1), id, None), Ok(()));
    assert_eq!(p.zombies(&id).unwrap().price, None);
}

#[test]
fn transfer_moves_the_zombie() {
    let mut p = empty();
    let a = cheat(&mut p, 1, Gender::Male, 0, 1);
    let b = cheat(&mut p, 1, Gender::Male, 0, 2);
    let c = cheat(&mut p, 1, Gender::Male, 0, 3);
    p.set_price(signed(1), a, Some(5)).unwrap();
    assert_eq!(p.transfer(signed(1), 2, a), Ok(()));
    // the last id takes the place of the one that left
    assert_eq!(p.zombies_owned(1), vec![c, b]);
    assert_eq!(p.zombies_owned(2), vec![a]);
    let z = p.zombies(&a).unwrap();
    assert_eq!(z.owner, 2);
    assert_eq!(z.price, None);
    assert_eq!(p.events().last(), Some(&Event::Transfered(1, 2, a)));
}

#[test]
fn transfer_errors() {
    let mut p = empty();
    let a = cheat(&mut p, 1, Gender::Male, 0, 1);
    assert_eq!(p.transfer(signed(1), 1, a), Err(DispatchError::Module(Error::TransferToSelf)));
    assert_eq!(p.transfer(signed(2), 3, a), Err(DispatchError::Module(Error::NotZombieOwner)));
    assert_eq!(p.transfer(signed(1), 2, [1; 32]), Err(DispatchError::Module(Error::ZombieNotExists)));
    assert_eq!(p.transfer(Origin::Root, 2, a), Err(DispatchError::BadOrigin));
    for s in 10..10 + MAX_ZOMBIE_OWNED as u8 {
        cheat(&mut p, 2, Gender::Male, 0, s);
    }
    assert_eq!(p.transfer(signed(1), 2, a), Err(DispatchError::Module(Error::ExceedMaxZombieOwned)));
    assert_eq!(p.zombies(&a).unwrap().owner, 1);
}

#[test]
fn transfer_zombie_to_current_owner_moves_it_last() {
    let mut p = empty();
    let a = cheat(&mut p, 1, Gender::Male, 0, 1);
    let b = cheat(&mut p, 1, Gender::Male, 0, 2);
    p.set_price(signed(1), a, Some(3)).unwrap();
    assert_eq!(p.transfer_zombie_to(&a, 1), Ok(()));
    assert_eq!(p.zombies_owned(1), vec![b, a]);
    assert_eq!(p.zombies(&a).unwrap().price, None);
    assert_eq!(p.transfer_zombie_to(&[3; 32], 1), Err(Error::ZombieNotExists));
}

#[test]
fn buying_a_zombie() {
    let mut p = empty();
    let a = cheat(&mut p, 1, Gender::Male, 2, 1);
    assert_eq!(p.buy_zombie(signed(2), a, 100, 1000), Err(DispatchError::Module(Error::ZombieNotForSale)));
    p.set_price(signed(1), a, Some(50)).unwrap();
    assert_eq!(p.buy_zombie(signed(1), a, 100, 1000), Err(DispatchError::Module(Error::BuyerIsZombieOwner)));
    assert_eq!(p.buy_zombie(signed(2), a, 40, 1000), Err(DispatchError::Module(Error::ZombieBidPriceTooLow)));
    assert_eq!(p.buy_zombie(signed(2), a, 60, 59), Err(DispatchError::Module(Error::NotEnoughBalance)));
    assert_eq!(p.buy_zombie(signed(2), [8; 32], 60, 100), Err(DispatchError::Module(Error::ZombieNotExists)));
    assert_eq!(p.buy_zombie(Origin::Unsigned, a, 60, 100), Err(DispatchError::BadOrigin));
    let purchase = p.buy_zombie(signed(2), a, 60, 60).unwrap();
    assert_eq!(purchase, Purchase { buyer: 2, seller: 1, zombie_id: a, price: 60 });
    p.complete_purchase(purchase);
    let z = p.zombies(&a).unwrap();
    assert_eq!(z.owner, 2);
    assert_eq!(z.price, None);
    assert_eq!(z.level, 3);
    assert_eq!(p.zombies_owned(1), Vec::<ZombieId>::new());
    assert_eq!(p.zombies_owned(2), vec![a]);
    assert_eq!(p.events().last(), Some(&Event::Bought(2, 1, a, 60)));
}

#[test]
fn buyer_without_room_cannot_buy() {
    let mut p = empty();
    let a = cheat(&mut p, 1, Gender::Male, 0, 1);
    p.set_price(signed(1), a, Some(1)).unwrap();
    for s in 10..10 + MAX_ZOMBIE_OWNED as u8 {
        cheat(&mut p, 2, Gender::Male, 0, s);
    }
    assert_eq!(p.buy_zombie(signed(2), a, 1, 1), Err(DispatchError::Module(Error::ExceedMaxZombieOwned)));
}

#[test]
fn breeding_mixes_parent_dna_and_levels_up_parents() {
    let mut p = GenesisConfig {
        zombies: vec![(1, [0b1010_1010; 16], Gender::Male), (1, [0b0110_0110; 16], Gender::NewType)],
    }
    .build(config());
    let owned = p.zombies_owned(1);
    let (a, b) = (owned[0], owned[1]);
    let c = ctx(9);
    let g = expected_fresh_dna(&c);
    let bred = p.breed_dna(&a, &b, &c).unwrap();
    for i in 0..16 {
        assert_eq!(bred[i], (g[i] & 0b1010_1010) | (!g[i] & 0b0110_0110));
        assert_eq!(bred[i] & 0b0010_0010, 0b0010_0010);
        assert_eq!(bred[i] & 0b0001_0001, 0);
    }
    assert_eq!(p.bleed_zombie(signed(1), a, b, &c), Ok(()));
    let owned = p.zombies_owned(1);
    assert_eq!(owned.len(), 3);
    let child = p.zombies(&owned[2]).unwrap();
    assert_eq!(child.dna, bred);
    assert_eq!(child.level, 0);
    assert_eq!(p.zombies(&a).unwrap().level, 1);
    assert_eq!(p.zombies(&b).unwrap().level, 3);
    assert_eq!(p.count_for_zombies(), 3);
    assert_eq!(p.breed_dna(&a, &[0; 32], &c), Err(Error::ZombieNotExists));
}

#[test]
fn breeding_needs_both_parents_owned() {
    let mut p = empty();
    let a = cheat(&mut p, 1, Gender::Male, 0, 1);
    let b = cheat(&mut p, 2, Gender::Male, 0, 2);
    assert_eq!(p.bleed_zombie(signed(1), a, b, &ctx(3)), Err(DispatchError::Module(Error::NotZombieOwner)));
    assert_eq!(p.bleed_zombie(signed(1), a, [0; 32], &ctx(3)), Err(DispatchError::Module(Error::ZombieNotExists)));
    assert_eq!(p.bleed_zombie(signed(2), a, b, &ctx(3)), Err(DispatchError::Module(Error::NotZombieOwner)));
    assert_eq!(p.count_for_zombies(), 2);
}

#[test]
fn battle_stronger_wins() {
    let mut p = empty();
    let a = cheat(&mut p, 1, Gender::Male, 2, 1);
    let b = cheat(&mut p, 2, Gender::NewType, 1, 2);
    // b fights with strength 3 against 2
    assert_eq!(p.battle(signed(1), a, b, &ctx(0)), Ok(()));
    assert_eq!(p.events().last(), Some(&Event::Battle(a, b, false)));
    assert_eq!(p.zombies(&b).unwrap().level, 4);
    assert_eq!(p.zombies(&a).unwrap().level, 2);
    // now a (2) against b (12)
    assert_eq!(p.battle(signed(2), b, a, &ctx(1)), Ok(()));
    assert_eq!(p.events().last(), Some(&Event::Battle(b, a, true)));
    assert_eq!(p.zombies(&b).unwrap().level, 7);
}

#[test]
fn battle_tie_is_decided_by_randomness() {
    let mut p = empty();
    let a = cheat(&mut p, 1, Gender::Male, 3, 1);
    let b = cheat(&mut p, 2, Gender::Female, 3, 2);
    assert_eq!(p.battle(signed(1), a, b, &ctx(4)), Ok(()));
    assert_eq!(p.events().last(), Some(&Event::Battle(a, b, true)));
    assert_eq!(p.zombies(&a).unwrap().level, 4);
    let c = cheat(&mut p, 2, Gender::Female, 4, 3);
    assert_eq!(p.battle(signed(1), a, c, &ctx(5)), Ok(()));
    assert_eq!(p.events().last(), Some(&Event::Battle(a, c, false)));
    assert_eq!(p.zombies(&c).unwrap().level, 5);
}

#[test]
fn battle_errors() {
    let mut p = empty();
    let a = cheat(&mut p, 1, Gender::Male, 0, 1);
    let b = cheat(&mut p, 1, Gender::Male, 0, 2);
    let c = cheat(&mut p, 2, Gender::Male, 0, 3);
    assert_eq!(p.battle(signed(1), a, a, &ctx(0)), Err(DispatchError::Module(Error::BattleWithSelf)));
    assert_eq!(p.battle(signed(1), a, b, &ctx(0)), Err(DispatchError::Module(Error::BattleWithSelf)));
    assert_eq!(p.battle(signed(1), c, a, &ctx(0)), Err(DispatchError::Module(Error::NotZombieOwner)));
    assert_eq!(p.battle(signed(1), a, [0; 32], &ctx(0)), Err(DispatchError::Module(Error::ZombieNotExists)));
    assert_eq!(p.battle(Origin::Root, a, c, &ctx(0)), Err(DispatchError::BadOrigin));
    let before = p.events().len();
    assert_eq!(p.battle(signed(1), [5; 32], c, &ctx(0)), Err(DispatchError::Module(Error::ZombieNotExists)));
    assert_eq!(p.events().len(), before);
}

#[test]
fn training_levels_up_a_trainee_that_loses() {
    let mut p = empty();
    let weak = cheat(&mut p, 1, Gender::Male, 1, 1);
    let strong = cheat(&mut p, 1, Gender::Male, 5, 2);
    assert_eq!(p.train(signed(1), weak, strong, &ctx(0)), Ok(()));
    assert_eq!(p.zombies(&weak).unwrap().level, 2);
    assert_eq!(p.train(signed(1), strong, weak, &ctx(0)), Ok(()));
    assert_eq!(p.zombies(&strong).unwrap().level, 5);
    // no burst in training: a NewType at level 2 loses to level 3
    let nt = cheat(&mut p, 1, Gender::NewType, 2, 3);
    let three = cheat(&mut p, 1, Gender::Female, 3, 4);
    assert_eq!(p.train(signed(1), nt, three, &ctx(0)), Ok(()));
    assert_eq!(p.zombies(&nt).unwrap().level, 5);
    assert!(p.events().iter().all(|e| matches!(e, Event::Created(..))));
    assert_eq!(p.train(signed(2), weak, strong, &ctx(0)), Err(DispatchError::Module(Error::NotZombieOwner)));
}

#[test]
fn levels_stop_at_the_maximum() {
    let mut p = empty();
    let top = cheat(&mut p, 1, Gender::NewType, MAX_ZOMBIE_LEVEL, 1);
    let low = cheat(&mut p, 1, Gender::NewType, MAX_ZOMBIE_LEVEL - 1, 2);
    // training against itself ties; an odd first byte makes the trainee lose
    assert_eq!(p.train(signed(1), top, top, &ctx(1)), Ok(()));
    assert_eq!(p.zombies(&top).unwrap().level, MAX_ZOMBIE_LEVEL);
    assert_eq!(p.train(signed(1), low, low, &ctx(1)), Ok(()));
    assert_eq!(p.zombies(&low).unwrap().level, MAX_ZOMBIE_LEVEL + 2);
    assert_eq!(p.train(signed(1), low, low, &ctx(1)), Ok(()));
    assert_eq!(p.zombies(&low).unwrap().level, MAX_ZOMBIE_LEVEL + 2);
}

#[test]
fn is_zombie_owner_answers() {
    let mut p = empty();
    let a = cheat(&mut p, 1, Gender::Male, 0, 1);
    assert_eq!(p.is_zombie_owner(&a, 1), Ok(true));
    assert_eq!(p.is_zombie_owner(&a, 2), Ok(false));
    assert_eq!(p.is_zombie_owner(&[0; 32], 1), Err(Error::ZombieNotExists));
}

#[test]
fn genesis_mints_each_entry_once() {
    let p = GenesisConfig {
        zombies: vec![
            (1, [1; 16], Gender::Male),
            (2, [2; 16], Gender::Female),
            (1, [1; 16], Gender::Male),
        ],
    }
    .build(config());
    assert_eq!(p.count_for_zombies(), 2);
    assert_eq!(p.zombies_owned(1).len(), 1);
    assert_eq!(p.zombies_owned(2).len(), 1);
    let id = p.zombies_owned(2)[0];
    let z = p.zombies(&id).unwrap();
    assert_eq!(z, Zombie { dna: [2; 16], price: None, gender: Gender::Female, owner: 2, level: 0 });
    assert_eq!(id, expected_id(&z));
    assert!(p.events().is_empty());
    assert_eq!(GenesisConfig::default().zombies.len(), 0);
}

#[test]
fn mint_directly() {
    let mut p = empty();
    let id = p.mint(3, Some([4; 16]), Some(Gender::NewType), 2, &ctx(0)).unwrap();
    let z = p.zombies(&id).unwrap();
    assert_eq!(z, Zombie { dna: [4; 16], price: None, gender: Gender::NewType, owner: 3, level: 2 });
    assert_eq!(p.mint(3, Some([4; 16]), Some(Gender::NewType), 2, &ctx(1)), Err(Error::ZombieAlreadyExists));
    assert!(p.events().is_empty());
}

#[test]
fn ensure_signed_accepts_only_signed() {
    assert_eq!(pallet_zombies::ensure_signed(Origin::Signed(4)), Ok(4));
    assert_eq!(pallet_zombies::ensure_signed(Origin::Root), Err(DispatchError::BadOrigin));
}

#[test]
fn mint_under_a_bound_of_one() {
    let mut p = GenesisConfig::default().build(Config { max_zombie_owned: 1, max_zombie_level: 10 });
    let h1 = p.mint(1, Some([1; 16]), Some(Gender::Male), 0, &ctx(0)).unwrap();
    assert_eq!(p.mint(1, Some([2; 16]), Some(Gender::Male), 0, &ctx(0)), Err(Error::ExceedMaxZombieOwned));
    assert_eq!(p.count_for_zombies(), 1);
    assert_eq!(p.zombies_owned(1), vec![h1]);
    assert!(p.zombies(&h1).is_some());
    assert_eq!(p.config(), Config { max_zombie_owned: 1, max_zombie_level: 10 });
}

#[test]
fn swapping_fighters_flips_the_answer() {
    let mut p = empty();
    let a = cheat(&mut p, 1, Gender::Male, 2, 1);
    let b = cheat(&mut p, 2, Gender::NewType, 1, 2);
    assert_eq!(p.battle(signed(1), a, b, &ctx(0)), Ok(()));
    assert_eq!(p.events().last(), Some(&Event::Battle(a, b, false)));
    let mut q = empty();
    let a2 = cheat(&mut q, 1, Gender::Male, 2, 1);
    let b2 = cheat(&mut q, 2, Gender::NewType, 1, 2);
    assert_eq!(q.battle(signed(2), b2, a2, &ctx(0)), Ok(()));
    assert_eq!(q.events().last(), Some(&Event::Battle(b2, a2, true)));
}

#[test]
fn a_bought_zombie_stays_unpriced_until_its_owner_prices_it() {
    let mut p = empty();
    let a = cheat(&mut p, 1, Gender::Male, 0, 1);
    let other = cheat(&mut p, 2, Gender::Male, 0, 2);
    p.set_price(signed(1), a, Some(5)).unwrap();
    let purchase = p.buy_zombie(signed(2), a, 5, 5).unwrap();
    p.complete_purchase(purchase);
    assert_eq!(p.zombies(&a).unwrap().price, None);
    p.train(signed(2), a, other, &ctx(1)).unwrap();
    assert_eq!(p.set_price(signed(1), a, Some(9)), Err(DispatchError::Module(Error::NotZombieOwner)));
    assert_eq!(p.buy_zombie(signed(3), a, 100, 100), Err(DispatchError::Module(Error::ZombieNotForSale)));
    assert_eq!(p.set_price(signed(2), a, Some(9)), Ok(()));
    assert_eq!(p.buy_zombie(signed(3), a, 9, 9).map(|x| x.price), Ok(9));
}

#[test]
fn checked_calls_refuse_level_overflow() {
    let big = Config { max_zombie_owned: 5, max_zombie_level: u32::MAX };
    let mut p = GenesisConfig::default().build(big);
    p.crate_cheat_zombie(signed(1), Gender::NewType, u32::MAX - 2, &ctx(1)).unwrap();
    let nt = p.zombies_owned(1)[0];
    p.crate_cheat_zombie(signed(1), Gender::Male, 0, &ctx(2)).unwrap();
    let male = p.zombies_owned(1)[1];
    p.crate_cheat_zombie(signed(2), Gender::NewType, 2_000_000_000, &ctx(3)).unwrap();
    let foe = p.zombies_owned(2)[0];
    assert!(!p.can_level_up(&nt));
    assert!(p.can_level_up(&male));
    let before = p.count_for_zombies();
    assert_eq!(p.bleed_zombie_checked(signed(1), nt, male, &ctx(4)), None);
    assert_eq!(p.count_for_zombies(), before);
    // a failing check is no overflow
    assert_eq!(p.bleed_zombie_checked(signed(2), nt, male, &ctx(4)), Some(Err(DispatchError::Module(Error::NotZombieOwner))));
    // the trainee (Male, level 0) loses to the NewType and can level up
    assert_eq!(p.train_checked(signed(1), male, nt, &ctx(0)), Some(Ok(())));
    assert_eq!(p.zombies(&male).unwrap().level, 1);
    // the NewType trainee loses a tie on an odd byte and cannot level up
    assert_eq!(p.train_checked(signed(1), nt, nt, &ctx(1)), None);
    // tripling the foe's level overflows
    assert_eq!(p.battle_checked(signed(1), male, foe, &ctx(0)), None);
    assert_eq!(p.battle_checked(signed(1), male, male, &ctx(0)), Some(Err(DispatchError::Module(Error::BattleWithSelf))));
    assert_eq!(p.zombies(&foe).unwrap().level, 2_000_000_000);
}
