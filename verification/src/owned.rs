use vstd::prelude::*;
use frame_support::BoundedVec;
use frame_support::traits::ConstU32;
use crate::types::{ZombieId, OWNED_LIST_BOUND};

verus! {

/// `frame_support::BoundedVec`: a `Vec` whose length the type parameter `S` bounds.
#[verifier::external_type_specification]
#[verifier::external_body]
#[verifier::reject_recursive_types(T)]
#[verifier::reject_recursive_types(S)]
pub struct ExBoundedVec<T, S>(BoundedVec<T, S>);

/// `frame_support::traits::ConstU32`: the bound `N` as a type.
#[verifier::external_type_specification]
#[verifier::external_body]
pub struct ExConstU32<const N: u32>(ConstU32<N>);

/// What a `BoundedVec` of ids bounded by `OWNED_LIST_BOUND` holds, in order.
pub uninterp spec fn owned_ids(v: BoundedVec<ZombieId, ConstU32<OWNED_LIST_BOUND>>) -> Seq<ZombieId>;

/// `BoundedVec::new`: an empty list.
#[verifier::external_body]
pub(crate) fn owned_new() -> (r: BoundedVec<ZombieId, ConstU32<OWNED_LIST_BOUND>>)
    ensures
        owned_ids(r) == Seq::<ZombieId>::empty(),
{
    BoundedVec::new()
}

/// `BoundedVec::try_push`: appends when the list holds fewer than its bound, else hands
/// the element back and leaves the list as it was.
#[verifier::external_body]
pub(crate) fn owned_try_push(
    v: &mut BoundedVec<ZombieId, ConstU32<OWNED_LIST_BOUND>>,
    id: ZombieId,
) -> (r: Result<(), ZombieId>)
    ensures
        r == (if owned_ids(*old(v)).len() < OWNED_LIST_BOUND {
            Ok::<(), ZombieId>(())
        } else {
            Err::<(), ZombieId>(id)
        }),
        owned_ids(*final(v)) == (if owned_ids(*old(v)).len() < OWNED_LIST_BOUND {
            owned_ids(*old(v)).push(id)
        } else {
            owned_ids(*old(v))
        }),
{
    v.try_push(id)
}

/// Length of the list (through `Deref` to `Vec`).
#[verifier::external_body]
pub(crate) fn owned_len(v: &BoundedVec<ZombieId, ConstU32<OWNED_LIST_BOUND>>) -> (r: usize)
    ensures
        r == owned_ids(*v).len(),
{
    v.len()
}

/// The id at position `i` (through `Index`, which panics out of bounds).
#[verifier::external_body]
pub(crate) fn owned_get(v: &BoundedVec<ZombieId, ConstU32<OWNED_LIST_BOUND>>, i: usize) -> (r: ZombieId)
    requires
        i < owned_ids(*v).len(),
    ensures
        r == owned_ids(*v)[i as int],
{
    v[i]
}

/// `BoundedVec::swap_remove`: removes the id at `i` and moves the last id into its place
/// (panics out of bounds).
#[verifier::external_body]
pub(crate) fn owned_swap_remove(
    v: &mut BoundedVec<ZombieId, ConstU32<OWNED_LIST_BOUND>>,
    i: usize,
) -> (r: ZombieId)
    requires
        i < owned_ids(*old(v)).len(),
    ensures
        r == owned_ids(*old(v))[i as int],
        owned_ids(*final(v)) == owned_ids(*old(v)).update(i as int, owned_ids(*old(v)).last()).drop_last(),
{
    v.swap_remove(i)
}

} // verus!
