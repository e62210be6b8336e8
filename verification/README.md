# pallet_zombies

A zombie collecting game kept in on-chain storage, written in Verus. Accounts mint
zombies, price them, give them away, buy them, breed them, fight with them and train
them. Every call is a state transition on the pallet's storage whose result is stated
exactly over a mathematical model and proved.

Layout of `src/`:

- `types.rs`: zombies, genders, origins, errors, events, the block context that the
  runtime supplies (randomness, extrinsic index, block number), and the runtime's
  configuration (`MaxZombieOwned`, `MaxZombieLevel`).
- `model.rs`: the storage as maps and sequences, its invariant, and the outcome of each
  call as a spec function.
- `storage.rs`: the concrete storage (association lists) and its reading as the model.
- `owned.rs`: the bounded list of ids an account owns (`BoundedVec` of `frame_support`).
- `hashing.rs`: SCALE encoding of a zombie and of the DNA payload, and the BLAKE2 hashes
  of `sp_io`.
- `pallet.rs`: the calls and their helpers.
- `genesis.rs`: the genesis configuration and the storage it builds.
- `laws.rs`: properties of the calls: the invariant is kept, failed calls write nothing,
  zombies never disappear or lose levels (on inputs where no level overflows), only owners
  act on their zombies, purchases complete, an unpriced zombie stays unpriced until its
  owner prices it, a minted zombie is refused again, levels are capped, breeding keeps
  shared bits, fights are decided by strength and swapping fighters flips the answer.
- `assoc.rs`: association lists read as finite maps.

`app/` holds the runtime glue: reading randomness and system information into a block
context, and paying for a purchase with the runtime's currency.
