use vstd::prelude::*;
use crate::model::{PalletState, bred_bytes, bred_dna, gender_from_seed, level_gain, minted_zombie, strength};
use crate::hashing::{fresh_dna, zombie_id_of};
use crate::types::{
    AccountId, Balance, BlockContext, Dna, Event, Gender, Origin, Purchase, RandomSeed, Zombie, ZombieId,
};

verus! {

/// Removing position `pos` by moving the last element into it drops exactly that element.
proof fn lemma_swap_remove(list: Seq<ZombieId>, pos: int)
    requires
        list.no_duplicates(),
        0 <= pos < list.len(),
    ensures
        list.update(pos, list.last()).drop_last().len() == list.len() - 1,
        list.update(pos, list.last()).drop_last().no_duplicates(),
        forall|x: ZombieId| #[trigger] list.update(pos, list.last()).drop_last().contains(x)
            <==> (list.contains(x) && x != list[pos]),
{
    let r = list.update(pos, list.last()).drop_last();
    let n = list.len();
    assert forall|i: int| 0 <= i < r.len() implies #[trigger] r[i] == (if i == pos { list[n - 1] } else { list[i] }) by {}
    assert forall|i: int, j: int| 0 <= i < r.len() && 0 <= j < r.len() && i != j implies r[i] != r[j] by {
        let i2 = if i == pos { n - 1 } else { i };
        let j2 = if j == pos { n - 1 } else { j };
        assert(r[i] == list[i2]);
        assert(r[j] == list[j2]);
    }
    assert forall|x: ZombieId| #[trigger] r.contains(x) <==> (list.contains(x) && x != list[pos]) by {
        if r.contains(x) {
            let i = choose|i: int| 0 <= i < r.len() && r[i] == x;
            let i2 = if i == pos { n - 1 } else { i };
            assert(list[i2] == x);
            assert(i2 != pos);
        }
        if list.contains(x) && x != list[pos] {
            let i = choose|i: int| 0 <= i < list.len() && list[i] == x;
            assert(i != pos);
            if i == n - 1 {
                assert(r[pos] == x);
            } else {
                assert(r[i] == x);
            }
        }
    }
}

/// Replacing a zombie by one with the same owner keeps the invariant.
pub proof fn lemma_update_same_owner_keeps_inv(s: PalletState, id: ZombieId, z: Zombie)
    requires
        s.inv(),
        s.zombies.contains_key(id),
        z.owner == s.zombies[id].owner,
    ensures
        (PalletState { zombies: s.zombies.insert(id, z), ..s }).inv(),
{
    let t = PalletState { zombies: s.zombies.insert(id, z), ..s };
    assert(t.zombies.dom() =~= s.zombies.dom());
    assert forall|x: ZombieId| #[trigger] t.zombies.contains_key(x) implies t.zombies_owned[t.zombies[x].owner].contains(x) by {
        assert(s.zombies.contains_key(x));
    }
    assert forall|who: AccountId, i: int| 0 <= i < t.zombies_owned[who].len() implies
        t.zombies.contains_key(#[trigger] t.zombies_owned[who][i]) && t.zombies[t.zombies_owned[who][i]].owner == who by {
        assert(s.zombies.contains_key(s.zombies_owned[who][i]));
    }
}

/// Every successful `mint` keeps the invariant (a failed one changes nothing).
pub proof fn lemma_mint_keeps_inv(
    s: PalletState,
    ctx: BlockContext,
    owner: AccountId,
    dna: Option<Dna>,
    gender: Option<Gender>,
    level: u32,
)
    requires
        s.inv(),
    ensures
        s.mint_outcome(ctx, owner, dna, gender, level).0.inv(),
{
    let z = minted_zombie(ctx, owner, dna, gender, level);
    let id = zombie_id_of(z);
    let (t, r) = s.mint_outcome(ctx, owner, dna, gender, level);
    if r is Ok {
        let old_list = s.owned(owner);
        let new_list = old_list.push(id);
        assert(!old_list.contains(id)) by {
            if old_list.contains(id) {
                let i = choose|i: int| 0 <= i < old_list.len() && old_list[i] == id;
                assert(s.zombies.contains_key(s.zombies_owned[owner][i]));
            }
        }
        assert forall|x: ZombieId| #[trigger] t.zombies.contains_key(x) implies t.zombies_owned[t.zombies[x].owner].contains(x) by {
            if x == id {
                assert(new_list[old_list.len() as int] == id);
            } else {
                let o = s.zombies[x].owner;
                assert(s.zombies_owned[o].contains(x));
                if o == owner {
                    let i = choose|i: int| 0 <= i < old_list.len() && old_list[i] == x;
                    assert(new_list[i] == x);
                }
            }
        }
        assert forall|who: AccountId, i: int| 0 <= i < t.zombies_owned[who].len() implies
            t.zombies.contains_key(#[trigger] t.zombies_owned[who][i]) && t.zombies[t.zombies_owned[who][i]].owner == who by {
            if who == owner && i == old_list.len() {
            } else {
                let x = s.zombies_owned[who][i];
                assert(s.zombies.contains_key(x));
                assert(x != id);
            }
        }
        assert forall|who: AccountId| #![trigger t.zombies_owned[who]]
            t.zombies_owned[who].no_duplicates() && t.zombies_owned[who].len() <= t.config.max_zombie_owned by {
            if who == owner {
                assert(s.zombies_owned[who].no_duplicates());
                assert forall|i: int, j: int| 0 <= i < new_list.len() && 0 <= j < new_list.len() && i != j implies new_list[i] != new_list[j] by {
                    if i < old_list.len() && j < old_list.len() {
                    } else if i < old_list.len() {
                        assert(old_list[i] != id);
                    } else {
                        assert(old_list[j] != id);
                    }
                }
            } else {
                assert(s.zombies_owned[who].no_duplicates());
            }
        }
        assert(t.zombies.dom() =~= s.zombies.dom().insert(id));
    }
}

/// Levelling up keeps the invariant.
pub proof fn lemma_level_up_keeps_inv(s: PalletState, id: ZombieId)
    requires
        s.inv(),
    ensures
        s.level_up_outcome(id).0.inv(),
{
    if s.zombies.contains_key(id) && s.zombies[id].level < s.config.max_zombie_level {
        let z = s.zombies[id];
        lemma_update_same_owner_keeps_inv(s, id, Zombie { level: (z.level + level_gain(z.gender)) as u32, ..z });
    }
}

/// Moving a zombie to another owner keeps the invariant.
pub proof fn lemma_transfer_zombie_to_keeps_inv(s: PalletState, id: ZombieId, to: AccountId)
    requires
        s.inv(),
    ensures
        s.transfer_zombie_to_outcome(id, to).0.inv(),
{
    let (t, r) = s.transfer_zombie_to_outcome(id, to);
    if r is Ok {
        let z = s.zombies[id];
        let prev = z.owner;
        let list = s.owned(prev);
        let pos = list.index_of_first(id)->0;
        list.index_of_first_ensures(id);
        assert(s.zombies_owned[prev].no_duplicates());
        lemma_swap_remove(list, pos);
        let removed = list.update(pos, list.last()).drop_last();
        let owned1 = s.zombies_owned.insert(prev, removed);
        let t1 = owned1[to];
        let new_to = t1.push(id);
        let z2 = Zombie { owner: to, price: None, ..z };
        assert(!t1.contains(id)) by {
            if to != prev && t1.contains(id) {
                let i = choose|i: int| 0 <= i < t1.len() && t1[i] == id;
                assert(s.zombies.contains_key(s.zombies_owned[to][i]));
            }
        }
        assert forall|x: ZombieId| #[trigger] t.zombies.contains_key(x) implies t.zombies_owned[t.zombies[x].owner].contains(x) by {
            if x == id {
                assert(new_to[t1.len() as int] == id);
            } else {
                let o = s.zombies[x].owner;
                assert(s.zombies_owned[o].contains(x));
                assert(owned1[o].contains(x));
                if o == to {
                    let i = choose|i: int| 0 <= i < t1.len() && t1[i] == x;
                    assert(new_to[i] == x);
                }
            }
        }
        assert forall|who: AccountId, i: int| 0 <= i < t.zombies_owned[who].len() implies
            t.zombies.contains_key(#[trigger] t.zombies_owned[who][i]) && t.zombies[t.zombies_owned[who][i]].owner == who by {
            let x = t.zombies_owned[who][i];
            if who == to && i == t1.len() {
            } else {
                assert(owned1[who][i] == x);
                assert(owned1[who].contains(x));
                if who == prev {
                    assert(list.contains(x) && x != id);
                    let j = choose|j: int| 0 <= j < list.len() && list[j] == x;
                    assert(s.zombies.contains_key(s.zombies_owned[prev][j]));
                } else {
                    assert(s.zombies.contains_key(s.zombies_owned[who][i]));
                    assert(x != id);
                }
            }
        }
        assert forall|who: AccountId| #![trigger t.zombies_owned[who]]
            t.zombies_owned[who].no_duplicates() && t.zombies_owned[who].len() <= t.config.max_zombie_owned by {
            assert(s.zombies_owned[who].no_duplicates());
            if who == to {
                assert(owned1[to].no_duplicates());
                assert forall|i: int, j: int| 0 <= i < new_to.len() && 0 <= j < new_to.len() && i != j implies new_to[i] != new_to[j] by {
                    if i < t1.len() && j < t1.len() {
                    } else if i < t1.len() {
                        assert(t1[i] != id);
                    } else {
                        assert(t1[j] != id);
                    }
                }
            }
        }
        assert(t.zombies.dom() =~= s.zombies.dom());
    }
}

/// A purchase that passed the checks always completes: the zombie goes to the buyer.
pub proof fn lemma_purchase_completes(s: PalletState, p: Purchase)
    requires
        s.inv(),
        s.purchase_ready(p),
    ensures
        s.transfer_zombie_to_outcome(p.zombie_id, p.buyer).1 is Ok,
        s.transfer_zombie_to_outcome(p.zombie_id, p.buyer).0.zombies.contains_key(p.zombie_id),
        s.complete_purchase_outcome(p).zombies.contains_key(p.zombie_id),
        s.complete_purchase_outcome(p).zombies[p.zombie_id].owner == p.buyer,
        s.complete_purchase_outcome(p).inv(),
{
    let id = p.zombie_id;
    let list = s.owned(p.seller);
    assert(s.zombies_owned[s.zombies[id].owner].contains(id));
    assert(s.owned(p.buyer) == s.zombies_owned.insert(p.seller, list.update(list.index_of_first(id)->0, list.last()).drop_last())[p.buyer]);
    lemma_transfer_zombie_to_keeps_inv(s, id, p.buyer);
    let s1 = s.transfer_zombie_to_outcome(id, p.buyer).0;
    lemma_level_up_keeps_inv(s1, id);
}

/// How storage may change from `s` to `t`: the configuration stays, the counter never goes
/// down, no zombie disappears, a zombie's DNA and gender never change and its level never
/// goes down, and events are only appended.
pub open spec fn evolves(s: PalletState, t: PalletState) -> bool {
    &&& t.config == s.config
    &&& s.count_for_zombies <= t.count_for_zombies
    &&& forall|id: ZombieId| #[trigger] s.zombies.contains_key(id) ==> {
        &&& t.zombies.contains_key(id)
        &&& t.zombies[id].dna == s.zombies[id].dna
        &&& t.zombies[id].gender == s.zombies[id].gender
        &&& t.zombies[id].level >= s.zombies[id].level
    }
    &&& s.events.len() <= t.events.len()
    &&& t.events.subrange(0, s.events.len() as int) == s.events
}

proof fn lemma_evolves_refl(s: PalletState)
    ensures
        evolves(s, s),
{
    assert(s.events.subrange(0, s.events.len() as int) =~= s.events);
}

/// Evolving storage twice evolves it: the properties of `evolves` hold across any sequence
/// of calls.
pub proof fn law_evolves_transitive(s: PalletState, t: PalletState, u: PalletState)
    requires
        evolves(s, t),
        evolves(t, u),
    ensures
        evolves(s, u),
{
    assert forall|id: ZombieId| #[trigger] s.zombies.contains_key(id) implies u.zombies.contains_key(id)
        && u.zombies[id].dna == s.zombies[id].dna && u.zombies[id].gender == s.zombies[id].gender
        && u.zombies[id].level >= s.zombies[id].level by {
        assert(t.zombies.contains_key(id));
    }
    assert(u.events.subrange(0, s.events.len() as int) =~= u.events.subrange(0, t.events.len() as int).subrange(
        0,
        s.events.len() as int,
    ));
}

proof fn lemma_with_event_evolves(s: PalletState, e: Event)
    ensures
        evolves(s, s.with_event(e)),
{
    assert(s.with_event(e).events.subrange(0, s.events.len() as int) =~= s.events);
}

proof fn lemma_mint_evolves(s: PalletState, ctx: BlockContext, owner: AccountId, dna: Option<Dna>, gender: Option<Gender>, level: u32)
    ensures
        evolves(s, s.mint_outcome(ctx, owner, dna, gender, level).0),
{
    lemma_evolves_refl(s);
}

proof fn lemma_level_up_evolves(s: PalletState, id: ZombieId)
    requires
        s.level_up_fits(id),
    ensures
        evolves(s, s.level_up_outcome(id).0),
{
    lemma_evolves_refl(s);
}

proof fn lemma_transfer_zombie_to_evolves(s: PalletState, id: ZombieId, to: AccountId)
    ensures
        evolves(s, s.transfer_zombie_to_outcome(id, to).0),
        s.level_up_fits(id) ==> s.transfer_zombie_to_outcome(id, to).0.level_up_fits(id),
{
    lemma_evolves_refl(s);
}

proof fn lemma_complete_purchase_evolves(s: PalletState, p: Purchase)
    requires
        s.level_up_fits(p.zombie_id),
    ensures
        evolves(s, s.complete_purchase_outcome(p)),
{
    let s1 = s.transfer_zombie_to_outcome(p.zombie_id, p.buyer).0;
    lemma_transfer_zombie_to_evolves(s, p.zombie_id, p.buyer);
    let s2 = s1.level_up_outcome(p.zombie_id).0;
    lemma_level_up_evolves(s1, p.zombie_id);
    law_evolves_transitive(s, s1, s2);
    lemma_with_event_evolves(s2, Event::Bought(p.buyer, p.seller, p.zombie_id, p.price));
    law_evolves_transitive(s, s2, s.complete_purchase_outcome(p));
}

/// Every call that fails leaves storage exactly as it was, and every call (failed or not)
/// only evolves storage: the configuration stays, no zombie is ever removed, DNA and gender
/// never change, levels and the counter never go down, and events are only appended. This
/// holds of the calls and of `mint`, `transfer_zombie_to`, levelling up and completing a
/// purchase, on every input that does not overflow a level.
pub proof fn law_calls_evolve_storage(
    s: PalletState,
    origin: Origin,
    ctx: BlockContext,
    a: ZombieId,
    b: ZombieId,
    to: AccountId,
    gender: Gender,
    level: u32,
    price: Option<Balance>,
    dna: Option<Dna>,
    fresh_gender: Option<Gender>,
    purchase: Purchase,
)
    ensures
        s.create_zombie_outcome(origin, ctx).1 is Err ==> s.create_zombie_outcome(origin, ctx).0 == s,
        s.crate_cheat_zombie_outcome(origin, gender, level, ctx).1 is Err ==> s.crate_cheat_zombie_outcome(origin, gender, level, ctx).0 == s,
        s.set_price_outcome(origin, a, price).1 is Err ==> s.set_price_outcome(origin, a, price).0 == s,
        s.transfer_outcome(origin, to, a).1 is Err ==> s.transfer_outcome(origin, to, a).0 == s,
        s.bleed_zombie_outcome(origin, a, b, ctx).1 is Err ==> s.bleed_zombie_outcome(origin, a, b, ctx).0 == s,
        s.battle_outcome(origin, a, b, ctx).1 is Err ==> s.battle_outcome(origin, a, b, ctx).0 == s,
        s.train_outcome(origin, a, b, ctx).1 is Err ==> s.train_outcome(origin, a, b, ctx).0 == s,
        s.mint_outcome(ctx, to, dna, fresh_gender, level).1 is Err ==> s.mint_outcome(ctx, to, dna, fresh_gender, level).0 == s,
        s.transfer_zombie_to_outcome(a, to).1 is Err ==> s.transfer_zombie_to_outcome(a, to).0 == s,
        evolves(s, s.create_zombie_outcome(origin, ctx).0),
        evolves(s, s.crate_cheat_zombie_outcome(origin, gender, level, ctx).0),
        evolves(s, s.set_price_outcome(origin, a, price).0),
        evolves(s, s.transfer_outcome(origin, to, a).0),
        s.bleed_fits(origin, a, b, ctx) ==> evolves(s, s.bleed_zombie_outcome(origin, a, b, ctx).0),
        s.battle_fits(origin, a, b, ctx) ==> evolves(s, s.battle_outcome(origin, a, b, ctx).0),
        s.train_fits(origin, a, b, ctx) ==> evolves(s, s.train_outcome(origin, a, b, ctx).0),
        evolves(s, s.mint_outcome(ctx, to, dna, fresh_gender, level).0),
        evolves(s, s.transfer_zombie_to_outcome(a, to).0),
        s.level_up_fits(a) ==> evolves(s, s.level_up_outcome(a).0),
        s.level_up_fits(purchase.zombie_id) ==> evolves(s, s.complete_purchase_outcome(purchase)),
{
    lemma_evolves_refl(s);
    lemma_mint_evolves(s, ctx, to, dna, fresh_gender, level);
    lemma_transfer_zombie_to_evolves(s, a, to);
    if s.level_up_fits(a) {
        lemma_level_up_evolves(s, a);
    }
    if s.level_up_fits(purchase.zombie_id) {
        lemma_complete_purchase_evolves(s, purchase);
    }
    if let Origin::Signed(caller) = origin {
        // create_zombie / crate_cheat_zombie
        let m1 = s.mint_outcome(ctx, caller, None, None, 0);
        lemma_mint_evolves(s, ctx, caller, None, None, 0);
        if let Ok(id) = m1.1 {
            lemma_with_event_evolves(m1.0, Event::Created(caller, id));
            law_evolves_transitive(s, m1.0, m1.0.with_event(Event::Created(caller, id)));
        }
        let m2 = s.mint_outcome(ctx, caller, None, Some(gender), level);
        lemma_mint_evolves(s, ctx, caller, None, Some(gender), level);
        if let Ok(id) = m2.1 {
            lemma_with_event_evolves(m2.0, Event::Created(caller, id));
            law_evolves_transitive(s, m2.0, m2.0.with_event(Event::Created(caller, id)));
        }
        // set_price
        if s.zombies.contains_key(a) {
            let z = s.zombies[a];
            let u = PalletState { zombies: s.zombies.insert(a, Zombie { price, ..z }), ..s };
            lemma_evolves_refl(u);
            assert(evolves(s, u));
            lemma_with_event_evolves(u, Event::PriceSet(caller, a, price));
            law_evolves_transitive(s, u, u.with_event(Event::PriceSet(caller, a, price)));
        }
        // transfer
        let t1 = s.transfer_zombie_to_outcome(a, to).0;
        lemma_with_event_evolves(t1, Event::Transfered(caller, to, a));
        law_evolves_transitive(s, t1, t1.with_event(Event::Transfered(caller, to, a)));
        // bleed_zombie
        if s.bleed_fits(origin, a, b, ctx) && s.zombies.contains_key(a) && s.zombies.contains_key(b)
            && s.zombies[a].owner == caller && s.zombies[b].owner == caller {
            let dna2 = bred_dna(fresh_dna(ctx), s.zombies[a].dna, s.zombies[b].dna);
            let (b1, r1) = s.mint_outcome(ctx, caller, Some(dna2), None, 0);
            lemma_mint_evolves(s, ctx, caller, Some(dna2), None, 0);
            if r1 is Ok {
                let b2 = b1.level_up_outcome(a).0;
                lemma_level_up_evolves(b1, a);
                lemma_level_up_evolves(b2, b);
                law_evolves_transitive(s, b1, b2);
                law_evolves_transitive(s, b2, b2.level_up_outcome(b).0);
            }
        }
        // battle
        if s.battle_fits(origin, a, b, ctx) && s.battle_allowed(caller, a, b) {
            let did_win = s.winner_outcome(a, b, true, ctx.random_battle)->Ok_0;
            let w = if did_win { a } else { b };
            lemma_level_up_evolves(s, w);
            let s1 = s.level_up_outcome(w).0;
            lemma_with_event_evolves(s1, Event::Battle(a, b, did_win));
            law_evolves_transitive(s, s1, s1.with_event(Event::Battle(a, b, did_win)));
        }
        // train
        if s.train_fits(origin, a, b, ctx) && s.zombies.contains_key(a) && s.zombies.contains_key(b)
            && s.zombies[a].owner == caller && s.zombies[b].owner == caller
            && !(s.winner_outcome(a, b, false, ctx.random_battle)->Ok_0) {
            lemma_level_up_evolves(s, a);
        }
    }
}

/// Every call keeps the invariant: each zombie is listed exactly under its owner, no list
/// holds an id twice or more than `max_zombie_owned` ids, and the counter equals the number
/// of zombies.
pub proof fn law_calls_keep_invariant(
    s: PalletState,
    origin: Origin,
    ctx: BlockContext,
    a: ZombieId,
    b: ZombieId,
    to: AccountId,
    gender: Gender,
    level: u32,
    price: Option<Balance>,
)
    requires
        s.inv(),
    ensures
        s.create_zombie_outcome(origin, ctx).0.inv(),
        s.crate_cheat_zombie_outcome(origin, gender, level, ctx).0.inv(),
        s.set_price_outcome(origin, a, price).0.inv(),
        s.transfer_outcome(origin, to, a).0.inv(),
        s.bleed_zombie_outcome(origin, a, b, ctx).0.inv(),
        s.battle_outcome(origin, a, b, ctx).0.inv(),
        s.train_outcome(origin, a, b, ctx).0.inv(),
{
    if let Origin::Signed(caller) = origin {
        lemma_mint_keeps_inv(s, ctx, caller, None, None, 0);
        lemma_mint_keeps_inv(s, ctx, caller, None, Some(gender), level);
        if s.zombies.contains_key(a) {
            let z = s.zombies[a];
            lemma_update_same_owner_keeps_inv(s, a, Zombie { price, ..z });
        }
        lemma_transfer_zombie_to_keeps_inv(s, a, to);
        if s.zombies.contains_key(a) && s.zombies.contains_key(b) {
            let dna = bred_dna(fresh_dna(ctx), s.zombies[a].dna, s.zombies[b].dna);
            lemma_mint_keeps_inv(s, ctx, caller, Some(dna), None, 0);
            let b1 = s.mint_outcome(ctx, caller, Some(dna), None, 0).0;
            lemma_level_up_keeps_inv(b1, a);
            lemma_level_up_keeps_inv(b1.level_up_outcome(a).0, b);
        }
        lemma_level_up_keeps_inv(s, a);
        lemma_level_up_keeps_inv(s, b);
    }
}

/// Only the owner of a zombie can set its price or transfer it, and a transfer moves the
/// zombie to the receiver: listed under it, no longer under the sender, and not for sale.
pub proof fn law_owner_only_and_transfer_moves(
    s: PalletState,
    origin: Origin,
    id: ZombieId,
    to: AccountId,
    price: Option<Balance>,
)
    requires
        s.inv(),
    ensures
        s.set_price_outcome(origin, id, price).1 is Ok ==> (origin matches Origin::Signed(c) && s.zombies.contains_key(id) && s.zombies[id].owner == c),
        s.transfer_outcome(origin, to, id).1 is Ok ==> {
            let t = s.transfer_outcome(origin, to, id).0;
            &&& (origin matches Origin::Signed(c) && s.zombies.contains_key(id) && s.zombies[id].owner == c && c != to)
            &&& t.zombies[id].owner == to
            &&& t.zombies[id].price == None::<Balance>
            &&& t.owned(to).contains(id)
            &&& !t.owned(s.zombies[id].owner).contains(id)
        },
{
    if let Origin::Signed(from) = origin {
        if s.transfer_outcome(origin, to, id).1 is Ok {
            lemma_transfer_zombie_to_keeps_inv(s, id, to);
            let t1 = s.transfer_zombie_to_outcome(id, to).0;
            let t = t1.with_event(Event::Transfered(from, to, id));
            assert(t.zombies.contains_key(id));
            assert(t.zombies_owned[t.zombies[id].owner].contains(id));
            if t.owned(from).contains(id) {
                let i = choose|i: int| 0 <= i < t.owned(from).len() && t.owned(from)[i] == id;
                assert(t.zombies.contains_key(t.zombies_owned[from][i]));
            }
        }
    }
}

/// A successful purchase check asks the buyer to pay the bid, which covers the asking price
/// and is covered by the buyer's free balance, to the zombie's current owner; and once paid,
/// the purchase always completes with the zombie owned by the buyer.
pub proof fn law_purchase(s: PalletState, origin: Origin, id: ZombieId, bid: Balance, free: Balance)
    requires
        s.inv(),
    ensures
        s.buy_zombie_outcome(origin, id, bid, free) matches Ok(p) ==> {
            &&& origin == Origin::Signed(p.buyer)
            &&& p.zombie_id == id && p.price == bid && p.seller == s.zombies[id].owner
            &&& s.zombies[id].price matches Some(ask) && ask <= bid
            &&& bid <= free
            &&& s.purchase_ready(p)
            &&& s.complete_purchase_outcome(p).zombies[id].owner == p.buyer
            &&& s.complete_purchase_outcome(p).inv()
        },
{
    if let Ok(p) = s.buy_zombie_outcome(origin, id, bid, free) {
        lemma_purchase_completes(s, p);
    }
}

/// Levelling up adds three to a `NewType` and one to any other zombie below the maximum
/// level, so a zombie below the cap never gets past it by more than two, and one at or
/// above the cap keeps its level.
pub proof fn law_level_cap(s: PalletState, id: ZombieId)
    requires
        s.zombies.contains_key(id),
    ensures
        s.level_up_outcome(id).0.zombies.contains_key(id),
        s.zombies[id].level < s.config.max_zombie_level ==> s.level_up_outcome(id).0.zombies[id].level <= s.config.max_zombie_level + 2,
        s.zombies[id].level >= s.config.max_zombie_level ==> s.level_up_outcome(id).0.zombies[id].level == s.zombies[id].level,
{
}

/// Fresh genders are never `NewType`: only minting with an explicit gender makes one.
pub proof fn law_fresh_gender_is_never_new_type(seed: RandomSeed)
    ensures
        gender_from_seed(seed) != Gender::NewType,
{
}

/// Bred DNA keeps every bit that both parents share and has no bit that neither has; when
/// the parents' DNA is equal the child's equals it.
pub proof fn law_breeding_inherits(g: Dna, a: Dna, b: Dna)
    ensures
        forall|i: int| 0 <= i < 16 ==> #[trigger] bred_dna(g, a, b)[i] & (a[i] & b[i]) == a[i] & b[i],
        forall|i: int| 0 <= i < 16 ==> #[trigger] bred_dna(g, a, b)[i] & !(a[i] | b[i]) == 0,
        a == b ==> bred_dna(g, a, b) == a,
{
    let d = bred_dna(g, a, b);
    let w = Seq::new(16, |i: int| (g[i] & a[i]) | (!g[i] & b[i]));
    assert(bred_bytes(g, a, b) == w);
    assert forall|i: int| 0 <= i < 16 implies #[trigger] d[i] == (g[i] & a[i]) | (!g[i] & b[i]) by {
        lemma_bred_exists(g, a, b);
        assert(d@[i] == w[i]);
    }
    assert forall|i: int| 0 <= i < 16 implies #[trigger] bred_dna(g, a, b)[i] & (a[i] & b[i]) == a[i] & b[i] by {
        let (x, y, z) = (g[i], a[i], b[i]);
        assert(((x & y) | (!x & z)) & (y & z) == y & z) by (bit_vector);
    }
    assert forall|i: int| 0 <= i < 16 implies #[trigger] bred_dna(g, a, b)[i] & !(a[i] | b[i]) == 0 by {
        let (x, y, z) = (g[i], a[i], b[i]);
        assert(((x & y) | (!x & z)) & !(y | z) == 0) by (bit_vector);
    }
    if a == b {
        assert forall|i: int| 0 <= i < 16 implies d[i] == a[i] by {
            let (x, y) = (g[i], a[i]);
            assert((x & y) | (!x & y) == y) by (bit_vector);
        }
        assert(d =~= a);
    }
}

proof fn lemma_bred_exists(g: Dna, a: Dna, b: Dna)
    ensures
        bred_dna(g, a, b)@ == bred_bytes(g, a, b),
{
    let w = bred_bytes(g, a, b);
    assert(w.len() == 16);
    let x: Dna = [w[0], w[1], w[2], w[3], w[4], w[5], w[6], w[7], w[8], w[9], w[10], w[11], w[12], w[13], w[14], w[15]];
    assert(x@ =~= w);
}

/// When the two fighters' strengths differ the stronger one wins whatever the randomness,
/// so swapping the fighters flips the answer; only a tie is decided by the randomness for
/// `b"battle"`.
pub proof fn law_battle_is_fair(s: PalletState, c: ZombieId, o: ZombieId, burst: bool, seed1: RandomSeed, seed2: RandomSeed)
    requires
        s.zombies.contains_key(c),
        s.zombies.contains_key(o),
        strength(s.zombies[c], burst) != strength(s.zombies[o], burst),
    ensures
        s.winner_outcome(c, o, burst, seed1) == s.winner_outcome(c, o, burst, seed2),
        s.winner_outcome(c, o, burst, seed1) == Ok::<bool, crate::types::Error>(strength(s.zombies[c], burst) > strength(s.zombies[o], burst)),
        s.winner_outcome(o, c, burst, seed1) == Ok::<bool, crate::types::Error>(!(s.winner_outcome(c, o, burst, seed1)->Ok_0)),
{
}

/// A successful `mint` returns the hash of the zombie it built; once that zombie is in
/// storage (and the counter has room), minting the same zombie again is refused with
/// `ZombieAlreadyExists` and changes nothing. With `law_calls_evolve_storage` the zombie
/// stays in storage after any later calls.
pub proof fn law_minted_zombie_is_refused_again(
    s: PalletState,
    ctx: BlockContext,
    owner: AccountId,
    dna: Option<Dna>,
    gender: Option<Gender>,
    level: u32,
    t: PalletState,
)
    ensures
        s.mint_outcome(ctx, owner, dna, gender, level).1 matches Ok(id) ==> {
            &&& id == zombie_id_of(minted_zombie(ctx, owner, dna, gender, level))
            &&& s.mint_outcome(ctx, owner, dna, gender, level).0.zombies.contains_key(id)
        },
        t.zombies.contains_key(zombie_id_of(minted_zombie(ctx, owner, dna, gender, level)))
            && t.count_for_zombies < u64::MAX ==> t.mint_outcome(ctx, owner, dna, gender, level) == (
            t,
            Err::<ZombieId, crate::types::Error>(crate::types::Error::ZombieAlreadyExists),
        ),
{
}

/// The zombie `id` is in storage and has no price.
pub open spec fn unpriced(s: PalletState, id: ZombieId) -> bool {
    s.zombies.contains_key(id) && s.zombies[id].price is None
}

/// A zombie without a price keeps having none until a `set_price` on it succeeds: no other
/// call gives it one, and while it has none, every purchase check on it by someone other
/// than its owner fails with `ZombieNotForSale`. A completed purchase leaves the zombie
/// without a price.
pub proof fn law_unpriced_stays_unpriced(
    s: PalletState,
    id: ZombieId,
    origin: Origin,
    ctx: BlockContext,
    a: ZombieId,
    b: ZombieId,
    to: AccountId,
    gender: Gender,
    level: u32,
    price: Option<Balance>,
    dna: Option<Dna>,
    fresh_gender: Option<Gender>,
    purchase: Purchase,
    bid: Balance,
    free: Balance,
)
    requires
        s.inv(),
    ensures
        unpriced(s, id) ==> unpriced(s.create_zombie_outcome(origin, ctx).0, id),
        unpriced(s, id) ==> unpriced(s.crate_cheat_zombie_outcome(origin, gender, level, ctx).0, id),
        unpriced(s, id) && (a != id || s.set_price_outcome(origin, a, price).1 is Err)
            ==> unpriced(s.set_price_outcome(origin, a, price).0, id),
        unpriced(s, id) ==> unpriced(s.transfer_outcome(origin, to, a).0, id),
        unpriced(s, id) ==> unpriced(s.bleed_zombie_outcome(origin, a, b, ctx).0, id),
        unpriced(s, id) ==> unpriced(s.battle_outcome(origin, a, b, ctx).0, id),
        unpriced(s, id) ==> unpriced(s.train_outcome(origin, a, b, ctx).0, id),
        unpriced(s, id) ==> unpriced(s.mint_outcome(ctx, to, dna, fresh_gender, level).0, id),
        unpriced(s, id) ==> unpriced(s.transfer_zombie_to_outcome(a, to).0, id),
        unpriced(s, id) ==> unpriced(s.complete_purchase_outcome(purchase), id),
        (unpriced(s, id) && (origin matches Origin::Signed(buyer) && buyer != s.zombies[id].owner))
            ==> s.buy_zombie_outcome(origin, id, bid, free) == Err::<Purchase, crate::types::DispatchError>(
            crate::types::DispatchError::Module(crate::types::Error::ZombieNotForSale),
        ),
        s.purchase_ready(purchase) ==> unpriced(s.complete_purchase_outcome(purchase), purchase.zombie_id),
{
    if s.purchase_ready(purchase) {
        lemma_purchase_completes(s, purchase);
    }
}

/// A zombie's fighting strength spelled out: with bursts a `NewType` fights at three times
/// its level; any other zombie, and every zombie without bursts, at its level.
pub open spec fn fight_strength(z: Zombie, burst_new_type: bool) -> int {
    if burst_new_type && z.gender == Gender::NewType {
        3 * (z.level as int)
    } else {
        z.level as int
    }
}

/// Who wins a fight: between existing zombies, the challenger wins iff its fighting
/// strength exceeds the opponent's (so a `NewType` at level `L` fighting with bursts beats a
/// non-`NewType` at level `M` iff `3 * L > M`); on equal strength it wins iff the first byte
/// of the randomness for `b"battle"` is even. A missing fighter gives `ZombieNotExists`.
pub proof fn law_fight_winner(s: PalletState, c: ZombieId, o: ZombieId, burst: bool, seed: RandomSeed)
    ensures
        s.zombies.contains_key(c) && s.zombies.contains_key(o) && fight_strength(s.zombies[c], burst)
            != fight_strength(s.zombies[o], burst) ==> s.winner_outcome(c, o, burst, seed) == Ok::<bool, crate::types::Error>(
            fight_strength(s.zombies[c], burst) > fight_strength(s.zombies[o], burst),
        ),
        s.zombies.contains_key(c) && s.zombies.contains_key(o) && fight_strength(s.zombies[c], burst)
            == fight_strength(s.zombies[o], burst) ==> s.winner_outcome(c, o, burst, seed) == Ok::<bool, crate::types::Error>(
            seed[0] % 2 == 0,
        ),
        !(s.zombies.contains_key(c) && s.zombies.contains_key(o)) ==> s.winner_outcome(c, o, burst, seed)
            == Err::<bool, crate::types::Error>(crate::types::Error::ZombieNotExists),
{
}

/// A battle whose checks pass and whose fighters' strengths differ: it succeeds, deposits
/// `Battle(challenger, opponent, won)` where `won` says the challenger's strength with bursts
/// exceeds the opponent's, raises the winner's level by three for a `NewType` and by one
/// otherwise (unless it is at or above the maximum level), and leaves the loser as it was.
pub proof fn law_battle_result(s: PalletState, caller: AccountId, c: ZombieId, o: ZombieId, ctx: BlockContext)
    requires
        s.battle_allowed(caller, c, o),
        fight_strength(s.zombies[c], true) != fight_strength(s.zombies[o], true),
    ensures
        ({
            let won = fight_strength(s.zombies[c], true) > fight_strength(s.zombies[o], true);
            let (t, r) = s.battle_outcome(Origin::Signed(caller), c, o, ctx);
            let w = if won { c } else { o };
            let l = if won { o } else { c };
            let zw = s.zombies[w];
            &&& r == Ok::<(), crate::types::DispatchError>(())
            &&& t.events == s.events.push(Event::Battle(c, o, won))
            &&& t.zombies[l] == s.zombies[l]
            &&& t.zombies[w].owner == zw.owner && t.zombies[w].dna == zw.dna && t.zombies[w].gender == zw.gender
            &&& t.zombies[w].price == zw.price
            &&& zw.level >= s.config.max_zombie_level ==> t.zombies[w].level == zw.level
            &&& zw.level < s.config.max_zombie_level && zw.gender == Gender::NewType ==> t.zombies[w].level == (zw.level + 3) as u32
            &&& zw.level < s.config.max_zombie_level && zw.gender != Gender::NewType ==> t.zombies[w].level == zw.level + 1
        }),
{
}

/// Bred DNA, spelled out bit by bit: every bit of byte `i` is parent `a`'s where the fresh
/// DNA `g` has a one and parent `b`'s where it has a zero. `breed_dna` of two existing
/// zombies gives exactly these bytes for `g` the block's fresh DNA.
pub proof fn law_bred_bits(s: PalletState, a: ZombieId, b: ZombieId, ctx: BlockContext)
    ensures
        s.zombies.contains_key(a) && s.zombies.contains_key(b) ==> (s.breed_outcome(a, b, ctx) matches Ok(d)
            && forall|i: int| 0 <= i < 16 ==> #[trigger] d[i] == (fresh_dna(ctx)[i] & s.zombies[a].dna[i]) | (
            !fresh_dna(ctx)[i] & s.zombies[b].dna[i])),
        !(s.zombies.contains_key(a) && s.zombies.contains_key(b)) ==> s.breed_outcome(a, b, ctx) == Err::<Dna, crate::types::Error>(
            crate::types::Error::ZombieNotExists,
        ),
{
    if s.zombies.contains_key(a) && s.zombies.contains_key(b) {
        let g = fresh_dna(ctx);
        let da = s.zombies[a].dna;
        let db = s.zombies[b].dna;
        lemma_bred_exists(g, da, db);
        let d = bred_dna(g, da, db);
        assert forall|i: int| 0 <= i < 16 implies #[trigger] d[i] == (g[i] & da[i]) | (!g[i] & db[i]) by {
            assert(d@[i] == bred_bytes(g, da, db)[i]);
        }
    }
}

/// A successful `bleed_zombie` adds one new zombie, owned by the caller at level 0 with no
/// price, whose DNA has, in every bit, parent `a`'s bit where the block's fresh DNA has a one
/// and parent `b`'s where it has a zero.
pub proof fn law_bleed_child(s: PalletState, origin: Origin, a: ZombieId, b: ZombieId, ctx: BlockContext)
    requires
        s.bleed_zombie_outcome(origin, a, b, ctx).1 is Ok,
    ensures
        origin matches Origin::Signed(caller) && exists|id: ZombieId| {
            &&& !s.zombies.contains_key(id)
            &&& #[trigger] s.bleed_zombie_outcome(origin, a, b, ctx).0.zombies.contains_key(id)
            &&& s.bleed_zombie_outcome(origin, a, b, ctx).0.zombies[id].owner == caller
            &&& s.bleed_zombie_outcome(origin, a, b, ctx).0.zombies[id].level == 0
            &&& s.bleed_zombie_outcome(origin, a, b, ctx).0.zombies[id].price is None
            &&& forall|i: int| 0 <= i < 16 ==> #[trigger] s.bleed_zombie_outcome(origin, a, b, ctx).0.zombies[id].dna[i] == (
                fresh_dna(ctx)[i] & s.zombies[a].dna[i]) | (!fresh_dna(ctx)[i] & s.zombies[b].dna[i])
        },
{
    law_bred_bits(s, a, b, ctx);
    if let Origin::Signed(caller) = origin {
        let dna = bred_dna(fresh_dna(ctx), s.zombies[a].dna, s.zombies[b].dna);
        let z = minted_zombie(ctx, caller, Some(dna), None, 0);
        let id = zombie_id_of(z);
        let t = s.bleed_zombie_outcome(origin, a, b, ctx).0;
        assert(id != a && id != b);
        let s1 = s.mint_outcome(ctx, caller, Some(dna), None, 0).0;
        let s2 = s1.level_up_outcome(a).0;
        assert(s1.zombies.contains_key(id) && s1.zombies[id] == z);
        assert(s2.zombies.contains_key(id) && s2.zombies[id] == z);
        assert(t == s2.level_up_outcome(b).0);
        assert(t.zombies.contains_key(id));
        assert(t.zombies[id] == z);
        assert(z.dna == dna);
        assert(s.breed_outcome(a, b, ctx) == Ok::<Dna, crate::types::Error>(dna));
        assert forall|i: int| 0 <= i < 16 implies #[trigger] t.zombies[id].dna[i] == (fresh_dna(ctx)[i] & s.zombies[a].dna[i]) | (
            !fresh_dna(ctx)[i] & s.zombies[b].dna[i]) by {
            lemma_bred_exists(fresh_dna(ctx), s.zombies[a].dna, s.zombies[b].dna);
            assert(dna@[i] == bred_bytes(fresh_dna(ctx), s.zombies[a].dna, s.zombies[b].dna)[i]);
        }
        assert(t.zombies.contains_key(id) && !s.zombies.contains_key(id));
    }
}

/// When the purchase check owes success: the zombie exists, the signed buyer is not its
/// owner, it is priced at an ask no higher than the bid, the bid is covered by the buyer's
/// free balance and the buyer owns fewer than `max_zombie_owned` zombies. Then the buyer
/// owes the bid to the owner; `ExceedMaxZombieOwned` comes only when the buyer already owns
/// `max_zombie_owned` zombies.
pub proof fn law_purchase_check_succeeds(s: PalletState, buyer: AccountId, id: ZombieId, bid: Balance, free: Balance)
    ensures
        ({
            &&& s.zombies.contains_key(id)
            &&& buyer != s.zombies[id].owner
            &&& s.zombies[id].price matches Some(ask) && ask <= bid
            &&& bid <= free
            &&& s.zombies_owned[buyer].len() < s.config.max_zombie_owned
        }) ==> s.buy_zombie_outcome(Origin::Signed(buyer), id, bid, free) == Ok::<Purchase, crate::types::DispatchError>(
            Purchase { buyer, seller: s.zombies[id].owner, zombie_id: id, price: bid },
        ),
        s.buy_zombie_outcome(Origin::Signed(buyer), id, bid, free) == Err::<Purchase, crate::types::DispatchError>(
            crate::types::DispatchError::Module(crate::types::Error::ExceedMaxZombieOwned),
        ) ==> s.zombies_owned[buyer].len() >= s.config.max_zombie_owned,
{
}

/// When a transfer owes success: the signed sender owns the existing zombie, the receiver is
/// another account and owns fewer than `max_zombie_owned` zombies. Then the zombie belongs
/// to the receiver, has no price, is listed last under the receiver and no longer under the
/// sender, and `Transfered` is deposited; `ExceedMaxZombieOwned` comes only when the receiver
/// already owns `max_zombie_owned` zombies.
pub proof fn law_transfer_succeeds(s: PalletState, from: AccountId, to: AccountId, id: ZombieId)
    requires
        s.inv(),
    ensures
        ({
            &&& s.zombies.contains_key(id)
            &&& s.zombies[id].owner == from
            &&& from != to
            &&& s.zombies_owned[to].len() < s.config.max_zombie_owned
        }) ==> ({
            let (t, r) = s.transfer_outcome(Origin::Signed(from), to, id);
            &&& r == Ok::<(), crate::types::DispatchError>(())
            &&& t.zombies[id].owner == to
            &&& t.zombies[id].price is None
            &&& t.zombies[id].dna == s.zombies[id].dna && t.zombies[id].level == s.zombies[id].level
            &&& t.zombies_owned[to] == s.zombies_owned[to].push(id)
            &&& !t.zombies_owned[from].contains(id)
            &&& t.events == s.events.push(Event::Transfered(from, to, id))
        }),
        s.transfer_outcome(Origin::Signed(from), to, id).1 == Err::<(), crate::types::DispatchError>(
            crate::types::DispatchError::Module(crate::types::Error::ExceedMaxZombieOwned),
        ) ==> s.zombies_owned[to].len() >= s.config.max_zombie_owned,
{
    if s.zombies.contains_key(id) && s.zombies[id].owner == from && from != to
        && s.zombies_owned[to].len() < s.config.max_zombie_owned {
        assert(s.zombies_owned[s.zombies[id].owner].contains(id));
        law_owner_only_and_transfer_moves(s, Origin::Signed(from), id, to, None);
    }
}

/// Setting a price: it succeeds exactly when the signed caller owns the existing zombie, and
/// then the zombie's price is exactly the new one, whatever it was before, with everything
/// else about the zombie unchanged and `PriceSet` deposited.
pub proof fn law_set_price_sets(s: PalletState, caller: AccountId, id: ZombieId, p: Option<Balance>)
    ensures
        (s.set_price_outcome(Origin::Signed(caller), id, p).1 is Ok) == (s.zombies.contains_key(id) && s.zombies[id].owner
            == caller),
        s.set_price_outcome(Origin::Signed(caller), id, p).1 is Ok ==> ({
            let t = s.set_price_outcome(Origin::Signed(caller), id, p).0;
            &&& t.zombies.contains_key(id)
            &&& t.zombies[id].price == p
            &&& t.zombies[id].owner == s.zombies[id].owner && t.zombies[id].dna == s.zombies[id].dna
            &&& t.zombies[id].level == s.zombies[id].level && t.zombies[id].gender == s.zombies[id].gender
            &&& t.events == s.events.push(Event::PriceSet(caller, id, p))
        }),
{
}

/// Levelling up an existing zombie: a `NewType` below the maximum level gains three levels,
/// any other zombie below it gains one, a zombie at or above it keeps its level; nothing
/// else about any zombie changes.
pub proof fn law_level_up_result(s: PalletState, id: ZombieId)
    requires
        s.zombies.contains_key(id),
    ensures
        ({
            let (t, r) = s.level_up_outcome(id);
            let z = s.zombies[id];
            &&& r == Ok::<(), crate::types::Error>(())
            &&& t.zombies.dom() == s.zombies.dom()
            &&& forall|x: ZombieId| #[trigger] t.zombies.contains_key(x) && x != id ==> t.zombies[x] == s.zombies[x]
            &&& t.zombies[id].owner == z.owner && t.zombies[id].dna == z.dna && t.zombies[id].gender == z.gender
            &&& t.zombies[id].price == z.price
            &&& z.level >= s.config.max_zombie_level ==> t.zombies[id].level == z.level
            &&& z.level < s.config.max_zombie_level && z.gender == Gender::NewType ==> t.zombies[id].level == (z.level + 3) as u32
            &&& z.level < s.config.max_zombie_level && z.gender != Gender::NewType ==> t.zombies[id].level == z.level + 1
            &&& t.zombies_owned == s.zombies_owned && t.events == s.events && t.count_for_zombies == s.count_for_zombies
        }),
{
    assert(s.level_up_outcome(id).0.zombies.dom() =~= s.zombies.dom());
}

/// Minting: it succeeds exactly when the counter has room, no zombie is stored under the new
/// zombie's id and the owner owns fewer than `max_zombie_owned` zombies (in that order of
/// checks). The new zombie has the given DNA (fresh DNA when none is given), no price, the
/// given gender (when none is given, `Male` for an even first byte of the randomness for
/// `b"gender"` and `Female` for an odd one), the owner and the level; it is stored under its
/// id, listed last under its owner, and counted.
pub proof fn law_mint_result(
    s: PalletState,
    ctx: BlockContext,
    owner: AccountId,
    dna: Option<Dna>,
    gender: Option<Gender>,
    level: u32,
)
    ensures
        ({
            let z = Zombie {
                dna: match dna {
                    Some(d) => d,
                    None => fresh_dna(ctx),
                },
                price: None,
                gender: match gender {
                    Some(g) => g,
                    None => if ctx.random_gender[0] % 2 == 0 {
                        Gender::Male
                    } else {
                        Gender::Female
                    },
                },
                owner,
                level,
            };
            let id = zombie_id_of(z);
            let (t, r) = s.mint_outcome(ctx, owner, dna, gender, level);
            &&& s.count_for_zombies == u64::MAX ==> r == Err::<ZombieId, crate::types::Error>(
                crate::types::Error::CountForZombiesOverflow,
            )
            &&& s.count_for_zombies < u64::MAX && s.zombies.contains_key(id) ==> r == Err::<ZombieId, crate::types::Error>(
                crate::types::Error::ZombieAlreadyExists,
            )
            &&& s.count_for_zombies < u64::MAX && !s.zombies.contains_key(id) && s.zombies_owned[owner].len()
                >= s.config.max_zombie_owned ==> r == Err::<ZombieId, crate::types::Error>(
                crate::types::Error::ExceedMaxZombieOwned,
            )
            &&& r is Err ==> t == s
            &&& (s.count_for_zombies < u64::MAX && !s.zombies.contains_key(id) && s.zombies_owned[owner].len()
                < s.config.max_zombie_owned) ==> {
                &&& r == Ok::<ZombieId, crate::types::Error>(id)
                &&& t.count_for_zombies == s.count_for_zombies + 1
                &&& t.zombies.contains_key(id) && t.zombies[id] == z
                &&& forall|x: ZombieId| x != id ==> (#[trigger] t.zombies.contains_key(x) == s.zombies.contains_key(x))
                &&& forall|x: ZombieId| x != id && s.zombies.contains_key(x) ==> #[trigger] t.zombies[x] == s.zombies[x]
                &&& t.zombies_owned[owner] == s.zombies_owned[owner].push(id)
                &&& forall|w: AccountId| w != owner ==> #[trigger] t.zombies_owned[w] == s.zombies_owned[w]
                &&& t.events == s.events
            }
        }),
{
}

/// Training between two zombies of the caller whose levels differ: the trainee levels up
/// exactly when its level is lower than the trainer's (bursts do not count), nothing else
/// changes, and no event is deposited.
pub proof fn law_train_result(s: PalletState, caller: AccountId, trainee: ZombieId, trainer: ZombieId, ctx: BlockContext)
    requires
        s.zombies.contains_key(trainee),
        s.zombies.contains_key(trainer),
        s.zombies[trainee].owner == caller,
        s.zombies[trainer].owner == caller,
        s.zombies[trainee].level != s.zombies[trainer].level,
    ensures
        ({
            let (t, r) = s.train_outcome(Origin::Signed(caller), trainee, trainer, ctx);
            &&& r == Ok::<(), crate::types::DispatchError>(())
            &&& t.events == s.events
            &&& s.zombies[trainee].level > s.zombies[trainer].level ==> t == s
            &&& s.zombies[trainee].level < s.zombies[trainer].level ==> t == s.level_up_outcome(trainee).0
        }),
{
}

/// Completing a purchase that passed the checks: the zombie belongs to the buyer, has no
/// price, is listed last under the buyer and no longer under the seller, has levelled up once
/// (three levels for a `NewType` below the maximum, one for another zombie below it, none at
/// or above it), and `Bought(buyer, seller, zombie, price)` is deposited.
pub proof fn law_complete_purchase_result(s: PalletState, p: Purchase)
    requires
        s.inv(),
        s.purchase_ready(p),
    ensures
        ({
            let t = s.complete_purchase_outcome(p);
            let z = s.zombies[p.zombie_id];
            &&& t.zombies.contains_key(p.zombie_id)
            &&& t.zombies[p.zombie_id].owner == p.buyer
            &&& t.zombies[p.zombie_id].price is None
            &&& t.zombies[p.zombie_id].dna == z.dna && t.zombies[p.zombie_id].gender == z.gender
            &&& z.level >= s.config.max_zombie_level ==> t.zombies[p.zombie_id].level == z.level
            &&& z.level < s.config.max_zombie_level && z.gender == Gender::NewType ==> t.zombies[p.zombie_id].level == (z.level + 3) as u32
            &&& z.level < s.config.max_zombie_level && z.gender != Gender::NewType ==> t.zombies[p.zombie_id].level == z.level + 1
            &&& t.zombies_owned[p.buyer] == s.zombies_owned[p.buyer].push(p.zombie_id)
            &&& !t.zombies_owned[p.seller].contains(p.zombie_id)
            &&& t.events == s.events.push(Event::Bought(p.buyer, p.seller, p.zombie_id, p.price))
        }),
{
    lemma_purchase_completes(s, p);
    let id = p.zombie_id;
    let t1 = s.transfer_zombie_to_outcome(id, p.buyer).0;
    lemma_transfer_zombie_to_keeps_inv(s, id, p.buyer);
    let t = s.complete_purchase_outcome(p);
    assert(t.zombies_owned == t1.zombies_owned);
    if t1.zombies_owned[p.seller].contains(id) {
        let i = choose|i: int| 0 <= i < t1.zombies_owned[p.seller].len() && t1.zombies_owned[p.seller][i] == id;
        assert(t1.zombies.contains_key(t1.zombies_owned[p.seller][i]));
    }
}

} // verus!
