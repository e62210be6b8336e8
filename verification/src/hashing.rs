use vstd::prelude::*;
use vstd::bytes::{spec_u32_to_le_bytes, spec_u64_to_le_bytes, spec_u128_to_le_bytes};
use crate::types::{Balance, BlockContext, Dna, Gender, Zombie, ZombieId};

verus! {

/// What `sp_io::hashing::blake2_128` returns for the given bytes.
pub uninterp spec fn blake2_128_of(data: Seq<u8>) -> Seq<u8>;

/// What `sp_io::hashing::blake2_256` returns for the given bytes.
pub uninterp spec fn blake2_256_of(data: Seq<u8>) -> Seq<u8>;

/// `sp_io::hashing::blake2_128`: the 128-bit BLAKE2b digest of `data`; its value is
/// named, not stated.
#[verifier::external_body]
pub(crate) fn blake2_128(data: &[u8]) -> (r: [u8; 16])
    ensures
        r@ == blake2_128_of(data@),
{
    sp_io::hashing::blake2_128(data)
}

/// `sp_io::hashing::blake2_256`: the 256-bit BLAKE2b digest of `data`; its value is
/// named, not stated.
#[verifier::external_body]
pub(crate) fn blake2_256(data: &[u8]) -> (r: [u8; 32])
    ensures
        r@ == blake2_256_of(data@),
{
    sp_io::hashing::blake2_256(data)
}

/// The SCALE index of a gender variant.
pub open spec fn gender_index(g: Gender) -> u8 {
    match g {
        Gender::Male => 0,
        Gender::Female => 1,
        Gender::NewType => 2,
    }
}

/// SCALE encoding of an optional balance: a `0` byte, or a `1` byte and the 16
/// little-endian bytes of the amount.
pub open spec fn option_balance_encoding(p: Option<Balance>) -> Seq<u8> {
    match p {
        None => seq![0u8],
        Some(x) => seq![1u8] + spec_u128_to_le_bytes(x),
    }
}

/// SCALE encoding of a zombie: its fields in declaration order.
pub open spec fn zombie_encoding(z: Zombie) -> Seq<u8> {
    z.dna@ + option_balance_encoding(z.price) + seq![gender_index(z.gender)]
        + spec_u64_to_le_bytes(z.owner) + spec_u32_to_le_bytes(z.level)
}

/// SCALE encoding of the tuple `(random seed, extrinsic index, block number)` from which
/// fresh DNA is hashed; a missing extrinsic index counts as `0`.
pub open spec fn dna_payload(ctx: BlockContext) -> Seq<u8> {
    ctx.random_dna@ + spec_u32_to_le_bytes(
        match ctx.extrinsic_index {
            Some(i) => i,
            None => 0u32,
        },
    ) + spec_u64_to_le_bytes(ctx.block_number)
}

/// The id that a zombie gets when it is minted: the BLAKE2-256 hash of its encoding.
pub open spec fn zombie_id_of(z: Zombie) -> ZombieId {
    choose|id: ZombieId| id@ == blake2_256_of(zombie_encoding(z))
}

/// Fresh DNA for the block: the BLAKE2-128 hash of the DNA payload.
pub open spec fn fresh_dna(ctx: BlockContext) -> Dna {
    choose|d: Dna| d@ == blake2_128_of(dna_payload(ctx))
}

pub(crate) fn push_all(out: &mut Vec<u8>, bytes: &[u8])
    ensures
        final(out)@ == old(out)@ + bytes@,
{
    let mut i: usize = 0;
    while i < bytes.len()
        invariant
            i <= bytes@.len(),
            out@ == old(out)@ + bytes@.subrange(0, i as int),
        decreases bytes@.len() - i,
    {
        out.push(bytes[i]);
        i = i + 1;
        assert(bytes@.subrange(0, i as int) =~= bytes@.subrange(0, i - 1) .push(bytes@[i - 1]));
    }
    assert(bytes@.subrange(0, bytes@.len() as int) =~= bytes@);
}

/// SCALE-encodes a zombie.
pub fn encode_zombie(z: &Zombie) -> (r: Vec<u8>)
    ensures
        r@ == zombie_encoding(*z),
{
    let mut out: Vec<u8> = Vec::new();
    push_all(&mut out, z.dna.as_slice());
    match z.price {
        None => {
            out.push(0u8);
        },
        Some(x) => {
            out.push(1u8);
            let b = vstd::bytes::u128_to_le_bytes(x);
            push_all(&mut out, b.as_slice());
        },
    }
    let g: u8 = match z.gender {
        Gender::Male => 0,
        Gender::Female => 1,
        Gender::NewType => 2,
    };
    out.push(g);
    let o = vstd::bytes::u64_to_le_bytes(z.owner);
    push_all(&mut out, o.as_slice());
    let l = vstd::bytes::u32_to_le_bytes(z.level);
    push_all(&mut out, l.as_slice());
    assert(out@ =~= zombie_encoding(*z));
    out
}

/// The id of a zombie: `BlakeTwo256::hash_of`, the BLAKE2-256 hash of its SCALE encoding.
pub fn hash_of_zombie(z: &Zombie) -> (id: ZombieId)
    ensures
        id == zombie_id_of(*z),
{
    let bytes = encode_zombie(z);
    let id = blake2_256(bytes.as_slice());
    proof {
        let c = zombie_id_of(*z);
        assert(c@ == id@);
        assert(c =~= id);
    }
    id
}

} // verus!
