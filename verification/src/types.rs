use vstd::prelude::*;

verus! {

// The library is fixed to one runtime's types: hashes and randomness outputs are 32 bytes
// (`H256`), accounts are `u64`, balances `u128` and block numbers `u64`. Zombie ids and fresh
// DNA hash the SCALE encodings of these types, so they equal the pallet's on runtimes with
// these types only.

/// Identifier of a zombie: the 256-bit hash of its encoding when it was minted.
pub type ZombieId = [u8; 32];

/// Output of the runtime's randomness source (a 256-bit hash).
pub type RandomSeed = [u8; 32];

/// The genetic code of a zombie.
pub type Dna = [u8; 16];

/// Account identifier of the runtime (fixed to `u64`).
pub type AccountId = u64;

/// Currency amount of the runtime (fixed to `u128`).
pub type Balance = u128;

/// Block number of the runtime (fixed to `u64`; it is SCALE-encoded as 8 bytes in the
/// payload of fresh DNA).
pub type BlockNumber = u64;

/// The type-level bound of the stored lists of owned ids: the largest `u32`. How many
/// zombies an account may own is the runtime's `Config::max_zombie_owned`, which never
/// exceeds it.
pub const OWNED_LIST_BOUND: u32 = 4294967295;

/// The runtime's configuration of the pallet.
#[derive(Clone, Copy, Debug, PartialEq, Eq)]
pub struct Config {
    /// `MaxZombieOwned`: how many zombies one account may own at most.
    pub max_zombie_owned: u32,
    /// `MaxZombieLevel`: the level from which a zombie no longer levels up.
    pub max_zombie_level: u32,
}

#[derive(Clone, Copy, Debug, PartialEq, Eq, Structural)]
pub enum Gender {
    Male,
    Female,
    NewType,
}

/// A zombie as it is kept in storage.
#[derive(Clone, Copy, Debug, PartialEq, Eq)]
pub struct Zombie {
    pub dna: Dna,
    pub price: Option<Balance>,
    pub gender: Gender,
    pub owner: AccountId,
    pub level: u32,
}

/// Who dispatched a call.
#[derive(Clone, Copy, Debug, PartialEq, Eq, Structural)]
pub enum Origin {
    Root,
    Signed(AccountId),
    /// An unsigned (inherent or unsigned-transaction) origin.
    Unsigned,
}

/// The pallet's own errors.
#[derive(Clone, Copy, Debug, PartialEq, Eq, Structural)]
pub enum Error {
    CountForZombiesOverflow,
    ExceedMaxZombieOwned,
    BuyerIsZombieOwner,
    TransferToSelf,
    ZombieAlreadyExists,
    ZombieNotExists,
    NotZombieOwner,
    ZombieNotForSale,
    ZombieBidPriceTooLow,
    NotEnoughBalance,
    BattleWithSelf,
}

/// Why a dispatchable call failed.
#[derive(Clone, Copy, Debug, PartialEq, Eq, Structural)]
pub enum DispatchError {
    /// The origin was not a signed account.
    BadOrigin,
    /// One of the pallet's own errors.
    Module(Error),
}

/// Events deposited by the dispatchable calls.
#[derive(Clone, Copy, Debug, PartialEq, Eq)]
pub enum Event {
    Created(AccountId, ZombieId),
    PriceSet(AccountId, ZombieId, Option<Balance>),
    Transfered(AccountId, AccountId, ZombieId),
    Bought(AccountId, AccountId, ZombieId, Balance),
    Battle(ZombieId, ZombieId, bool),
}

/// What the runtime's environment answers during the current block: the outputs of its
/// randomness source for the subjects `b"dna"`, `b"gender"` and `b"battle"`, the index of
/// the extrinsic being applied and the block number.
#[derive(Clone, Copy, Debug, PartialEq, Eq)]
pub struct BlockContext {
    pub random_dna: RandomSeed,
    pub random_gender: RandomSeed,
    pub random_battle: RandomSeed,
    pub extrinsic_index: Option<u32>,
    pub block_number: BlockNumber,
}

/// A purchase that passed every check of `buy_zombie`: `buyer` pays `price` to `seller`,
/// and once paid receives `zombie_id`.
#[derive(Clone, Copy, Debug, PartialEq, Eq)]
pub struct Purchase {
    pub buyer: AccountId,
    pub seller: AccountId,
    pub zombie_id: ZombieId,
    pub price: Balance,
}

/// Checks that the origin is a signed account and returns it.
pub fn ensure_signed(origin: Origin) -> (r: Result<AccountId, DispatchError>)
    ensures
        match origin {
            Origin::Signed(who) => r == Ok::<AccountId, DispatchError>(who),
            _ => r == Err::<AccountId, DispatchError>(DispatchError::BadOrigin),
        },
{
    match origin {
        Origin::Signed(who) => Ok(who),
        _ => Err(DispatchError::BadOrigin),
    }
}

} // verus!
