use vstd::prelude::*;
use crate::laws::lemma_mint_keeps_inv;
use crate::model::PalletState;
use crate::storage::Pallet;
use crate::types::{AccountId, BlockContext, Config, Dna, Event, Gender, Zombie, ZombieId};

verus! {

/// The zombies that exist when the chain starts: an owner, a DNA and a gender for each.
pub struct GenesisConfig {
    pub zombies: Vec<(AccountId, Dna, Gender)>,
}

impl Default for GenesisConfig {
    fn default() -> (r: GenesisConfig)
        ensures
            r.zombies@ == Seq::<(AccountId, Dna, Gender)>::empty(),
    {
        GenesisConfig { zombies: Vec::new() }
    }
}

/// Storage before anything is written.
pub open spec fn empty_state(config: Config) -> PalletState {
    PalletState {
        config,
        count_for_zombies: 0,
        zombies: Map::<ZombieId, Zombie>::empty(),
        zombies_owned: Map::new(|who: AccountId| true, |who: AccountId| Seq::<ZombieId>::empty()),
        events: Seq::<Event>::empty(),
    }
}

/// Some block context; minting with a given DNA and gender does not read it.
pub open spec fn genesis_context() -> BlockContext {
    vstd::pervasive::arbitrary::<BlockContext>()
}

/// Storage after genesis: each entry minted in order at level 0, failures skipped.
pub open spec fn genesis_state(config: Config, entries: Seq<(AccountId, Dna, Gender)>) -> PalletState
    decreases entries.len(),
{
    if entries.len() == 0 {
        empty_state(config)
    } else {
        let e = entries.last();
        genesis_state(config, entries.drop_last()).mint_outcome(genesis_context(), e.0, Some(e.1), Some(e.2), 0).0
    }
}

/// Genesis storage keeps the invariant, whatever the configured entries.
pub proof fn law_genesis_keeps_invariant(config: Config, entries: Seq<(AccountId, Dna, Gender)>)
    ensures
        genesis_state(config, entries).inv(),
    decreases entries.len(),
{
    if entries.len() == 0 {
        assert(empty_state(config).zombies.dom() =~= Set::<ZombieId>::empty());
    } else {
        let e = entries.last();
        law_genesis_keeps_invariant(config, entries.drop_last());
        lemma_mint_keeps_inv(genesis_state(config, entries.drop_last()), genesis_context(), e.0, Some(e.1), Some(e.2), 0);
    }
}

impl GenesisConfig {
    /// Builds the genesis storage under the runtime's configuration: mints every
    /// configured zombie in order at level 0, ignoring those that cannot be minted.
    pub fn build(&self, config: Config) -> (p: Pallet)
        ensures
            p.wf(),
            p@ == genesis_state(config, self.zombies@),
    {
        let mut p = Pallet::empty(config);
        proof {
            p.lemma_storage_ok();
            assert(p@ == empty_state(config));
            assert(self.zombies@.subrange(0, 0) =~= Seq::<(AccountId, Dna, Gender)>::empty());
        }
        let ctx = BlockContext {
            random_dna: [0u8; 32],
            random_gender: [0u8; 32],
            random_battle: [0u8; 32],
            extrinsic_index: None,
            block_number: 0,
        };
        let mut i: usize = 0;
        while i < self.zombies.len()
            invariant
                i <= self.zombies@.len(),
                p.wf(),
                p@ == genesis_state(config, self.zombies@.subrange(0, i as int)),
            decreases self.zombies@.len() - i,
        {
            let (acct, dna, gender) = self.zombies[i];
            let ghost before = p@;
            let _ = p.mint(acct, Some(dna), Some(gender), 0, &ctx);
            assert(before.mint_outcome(ctx, acct, Some(dna), Some(gender), 0) == before.mint_outcome(
                genesis_context(),
                acct,
                Some(dna),
                Some(gender),
                0,
            ));
            i = i + 1;
            assert(self.zombies@.subrange(0, i as int).drop_last() =~= self.zombies@.subrange(0, i - 1));
        }
        assert(self.zombies@.subrange(0, self.zombies@.len() as int) =~= self.zombies@);
        p
    }
}

} // verus!
