//! A zombie game kept in on-chain storage: zombies are minted, priced, transferred,
//! bought, bred, fought and trained; every call is a state transition with a verified
//! contract over the storage model of `model`.

pub mod types;
pub mod owned;
pub mod hashing;
pub mod assoc;
pub mod model;
pub mod storage;
pub mod laws;
pub mod pallet;
pub mod genesis;

pub use genesis::GenesisConfig;
pub use storage::Pallet;
pub use types::{
    ensure_signed, AccountId, Balance, BlockContext, BlockNumber, DispatchError, Dna, Error, Event, Gender, Origin,
    Purchase, RandomSeed, Zombie, ZombieId, Config, OWNED_LIST_BOUND,
};
