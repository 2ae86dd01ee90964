//! The registry's laws: properties that relate several operations, stated
//! and proved over the transition relations of [`crate::model`].
//!
//! Each operation of [`crate::registry::Pallet`] promises in its contract
//! that a success moves the model along the matching `*_ok` relation and
//! that a failure leaves the model untouched — together, one
//! [`PalletModel::step`]. The lemmas here say what follows for whole
//! histories ([`crate::model::run`]): identifiers never repeat,
//! well-formedness holds in every reachable state, and a creator's escrow is
//! reserved and released exactly once as the asset first changes hands.

use crate::kitty::Kitty;
use crate::ledger::{
    lemma_with_deposit_wf, lemma_with_reserve_wf, lemma_with_transfer_wf, lemma_with_unreserve_wf,
};
use crate::model::{run, Op, PalletModel};
use vstd::prelude::*;

verus! {

/// A freshly constructed registry is well-formed.
pub proof fn lemma_initial_wf(reserve_amount: u64)
    ensures
        PalletModel::initial(reserve_amount).wf(),
{
    let m = PalletModel::initial(reserve_amount);
    assert(m.owners.dom() =~= m.kitties.dom());
}

/// Identifier freshness: a well-formed registry never hands out an index it
/// already stores, and every new index exceeds every existing one.
pub proof fn lemma_new_identifier_fresh(
    pre: PalletModel,
    post: PalletModel,
    sender: u64,
    id: u64,
    child: Kitty,
)
    requires
        pre.wf(),
        pre.spawn_ok(post, sender, id, child),
    ensures
        !pre.kitties.contains_key(id),
        forall|j: u64| #[trigger] pre.kitties.contains_key(j) ==> j < id,
{
}

/// A request that issues an identifier pins it down: the new index is one
/// past the counter, which moves up to it.
pub proof fn lemma_issue_bounds(pre: PalletModel, op: Op, post: PalletModel, id: u64)
    requires
        pre.step(op, post, Some(id)),
    ensures
        id == pre.counter + 1,
        post.counter == id,
{
}

/// No request ever lowers the allocator counter.
pub proof fn lemma_step_counter_monotone(
    pre: PalletModel,
    op: Op,
    post: PalletModel,
    issued: Option<u64>,
)
    requires
        pre.step(op, post, issued),
    ensures
        post.counter >= pre.counter,
{
}

/// Every request preserves well-formedness, succeed or fail.
pub proof fn lemma_step_preserves_wf(
    pre: PalletModel,
    op: Op,
    post: PalletModel,
    issued: Option<u64>,
)
    requires
        pre.wf(),
        pre.step(op, post, issued),
    ensures
        post.wf(),
{
    match op {
        Op::Create { sender, dna } => match issued {
            Some(id) => lemma_spawn_preserves_wf(
                pre,
                post,
                sender,
                id,
                Kitty { index: id, dna, price: 0, is_for_sale: false, creator: sender },
            ),
            None => {},
        },
        Op::Breed { sender, id1, id2, selector } => match issued {
            Some(id) => lemma_spawn_preserves_wf(pre, post, sender, id, post.kitties[id]),
            None => {},
        },
        Op::Transfer { sender, to, id } => {
            if pre.transfer_ok(post, sender, to, id) {
                lemma_transfer_preserves_wf(pre, post, sender, to, id);
            }
        },
        Op::Sell { sender, id, price } => {
            if pre.sell_ok(post, sender, id, price) {
                lemma_sell_preserves_wf(pre, post, sender, id, price);
            }
        },
        Op::Buy { buyer, id } => {
            if pre.buy_ok(post, buyer, id) {
                lemma_buy_preserves_wf(pre, post, buyer, id);
            }
        },
        Op::Deposit { who, amount } => {
            lemma_with_deposit_wf(pre.balances, who, amount);
        },
    }
}

/// Along any run, the allocator counter never decreases.
pub proof fn lemma_run_counter_monotone(
    states: Seq<PalletModel>,
    ops: Seq<Op>,
    issues: Seq<Option<u64>>,
    i: int,
    j: int,
)
    requires
        run(states, ops, issues),
        0 <= i <= j < states.len(),
    ensures
        states[i].counter <= states[j].counter,
    decreases j - i,
{
    if i < j {
        let last = j - 1;
        lemma_run_counter_monotone(states, ops, issues, i, last);
        assert(states[last].step(ops[last], states[last + 1], issues[last]));
        lemma_step_counter_monotone(states[last], ops[last], states[last + 1], issues[last]);
    }
}

/// Well-formedness — the one-owner-per-asset pairing, the allocator's
/// dominance over issued indices, the positive price of every listing and
/// the balance bound — holds in every state of a run from a well-formed
/// start.
pub proof fn lemma_run_preserves_wf(
    states: Seq<PalletModel>,
    ops: Seq<Op>,
    issues: Seq<Option<u64>>,
    k: int,
)
    requires
        run(states, ops, issues),
        states[0].wf(),
        0 <= k < states.len(),
    ensures
        states[k].wf(),
    decreases k,
{
    if k > 0 {
        let last = k - 1;
        lemma_run_preserves_wf(states, ops, issues, last);
        assert(states[last].step(ops[last], states[last + 1], issues[last]));
        lemma_step_preserves_wf(states[last], ops[last], states[last + 1], issues[last]);
    }
}

/// Uniqueness: in any run of the registry, the identifiers issued by
/// successful `create` and `breed` requests strictly increase in order of
/// issue — so no identifier is ever issued twice.
pub proof fn lemma_issued_identifiers_strictly_increase(
    states: Seq<PalletModel>,
    ops: Seq<Op>,
    issues: Seq<Option<u64>>,
    i: int,
    j: int,
    id1: u64,
    id2: u64,
)
    requires
        run(states, ops, issues),
        0 <= i < j < ops.len(),
        issues[i] == Some(id1),
        issues[j] == Some(id2),
    ensures
        id1 < id2,
{
    lemma_issue_bounds(states[i], ops[i], states[i + 1], id1);
    lemma_run_counter_monotone(states, ops, issues, i + 1, j);
    lemma_issue_bounds(states[j], ops[j], states[j + 1], id2);
}

/// Registration preserves well-formedness: covers `create` and `breed`,
/// whose success relations both include [`PalletModel::spawn_ok`].
pub proof fn lemma_spawn_preserves_wf(
    pre: PalletModel,
    post: PalletModel,
    sender: u64,
    id: u64,
    child: Kitty,
)
    requires
        pre.wf(),
        pre.spawn_ok(post, sender, id, child),
    ensures
        post.wf(),
{
    lemma_with_reserve_wf(pre.balances, sender, pre.reserve_amount);
    assert(post.owners.dom() =~= post.kitties.dom());
    assert forall|j: u64| #[trigger] post.kitties.contains_key(j) implies 1 <= j <= post.counter
        && post.kitties[j].index == j && (post.kitties[j].is_for_sale ==> post.kitties[j].price
        > 0) by {
        if j != id {
            assert(pre.kitties.contains_key(j));
        }
    }
}

/// A transfer preserves well-formedness: ownership moves along an existing
/// index and the asset store is untouched.
pub proof fn lemma_transfer_preserves_wf(
    pre: PalletModel,
    post: PalletModel,
    sender: u64,
    to: u64,
    id: u64,
)
    requires
        pre.wf(),
        pre.transfer_ok(post, sender, to, id),
    ensures
        post.wf(),
{
    lemma_with_unreserve_wf(pre.balances, sender, pre.reserve_amount);
    assert(pre.owners.contains_key(id));
    assert(post.owners.dom() =~= post.kitties.dom());
}

/// A listing preserves well-formedness: in particular, a listed kitty
/// always carries a positive price, because `sell` refuses price zero.
pub proof fn lemma_sell_preserves_wf(
    pre: PalletModel,
    post: PalletModel,
    sender: u64,
    id: u64,
    price: u64,
)
    requires
        pre.wf(),
        pre.sell_ok(post, sender, id, price),
    ensures
        post.wf(),
{
    assert(post.owners.dom() =~= post.kitties.dom());
    assert forall|j: u64| #[trigger] post.kitties.contains_key(j) implies 1 <= j <= post.counter
        && post.kitties[j].index == j && (post.kitties[j].is_for_sale ==> post.kitties[j].price
        > 0) by {
        assert(pre.kitties.contains_key(j));
    }
}

/// A purchase preserves well-formedness: payment, ownership move, escrow
/// release and delisting all stay within the invariants.
pub proof fn lemma_buy_preserves_wf(pre: PalletModel, post: PalletModel, buyer: u64, id: u64)
    requires
        pre.wf(),
        pre.buy_ok(post, buyer, id),
    ensures
        post.wf(),
{
    let seller = pre.owners[id];
    let paid = pre.balances.with_transfer(buyer, seller, pre.kitties[id].price);
    lemma_with_transfer_wf(pre.balances, buyer, seller, pre.kitties[id].price);
    lemma_with_unreserve_wf(paid, seller, pre.reserve_amount);
    assert(post.owners.dom() =~= post.kitties.dom());
    assert forall|j: u64| #[trigger] post.kitties.contains_key(j) implies 1 <= j <= post.counter
        && post.kitties[j].index == j && (post.kitties[j].is_for_sale ==> post.kitties[j].price
        > 0) by {
        assert(pre.kitties.contains_key(j));
    }
}

/// The sale invariant — a listed kitty carries a positive price — depends
/// only on the asset store, so any step that leaves the store untouched
/// (deposits and the test harness hooks among them) preserves it.
pub proof fn lemma_sale_inv_depends_only_on_kitties(m1: PalletModel, m2: PalletModel)
    requires
        m1.sale_inv(),
        m2.kitties == m1.kitties,
    ensures
        m2.sale_inv(),
{
}

/// Genetic codes are immutable under registration: a new kitty never
/// disturbs the record — code included — of any existing kitty.
pub proof fn lemma_spawn_keeps_existing_records(
    pre: PalletModel,
    post: PalletModel,
    sender: u64,
    id: u64,
    child: Kitty,
)
    requires
        pre.spawn_ok(post, sender, id, child),
    ensures
        forall|j: u64|
            #![trigger pre.kitties.contains_key(j)]
            j != id && pre.kitties.contains_key(j) ==> post.kitties.contains_key(j)
                && post.kitties[j] == pre.kitties[j],
{
}

/// Genetic codes are immutable under trading: a transfer leaves the asset
/// store alone, and a listing or a purchase rewrites only the price and the
/// sale flag of the one kitty concerned.
pub proof fn lemma_trade_keeps_codes(
    pre: PalletModel,
    post: PalletModel,
    sender: u64,
    to: u64,
    buyer: u64,
    id: u64,
    price: u64,
)
    requires
        pre.transfer_ok(post, sender, to, id) || pre.sell_ok(post, sender, id, price)
            || pre.buy_ok(post, buyer, id),
    ensures
        forall|j: u64|
            #![trigger pre.kitties.contains_key(j)]
            pre.kitties.contains_key(j) ==> post.kitties.contains_key(j) && post.kitties[j].dna
                == pre.kitties[j].dna && post.kitties[j].creator == pre.kitties[j].creator
                && post.kitties[j].index == pre.kitties[j].index,
{
}

/// Escrow exactly-once: along a chain where an asset is created and then
/// leaves its creator's hands, the creation reserves the configured amount
/// from the creator's free balance, the first hop away from the creator
/// releases exactly that amount back, and a later hop between other owners
/// touches no balance at all. (The hops are stated with `transfer`; a `buy`
/// releases escrow under the same condition, see
/// [`lemma_resale_by_non_creator_keeps_reservations`].)
pub proof fn lemma_escrow_released_exactly_once(
    s0: PalletModel,
    s1: PalletModel,
    s2: PalletModel,
    s3: PalletModel,
    creator: u64,
    second: u64,
    third: u64,
    dna: [u8; 16],
    id: u64,
)
    requires
        s0.balances.wf(),
        s0.create_ok(s1, creator, dna, id),
        s1.transfer_ok(s2, creator, second, id),
        second != creator,
        s2.transfer_ok(s3, second, third, id),
    ensures
        s1.balances.reserved_of(creator) == s0.balances.reserved_of(creator)
            + s0.reserve_amount,
        s1.balances.free_of(creator) == s0.balances.free_of(creator) - s0.reserve_amount,
        s2.balances.reserved_of(creator) == s0.balances.reserved_of(creator),
        s2.balances.free_of(creator) == s0.balances.free_of(creator),
        s3.balances == s2.balances,
{
    assert(s1.kitties[id].creator == creator);
    assert(s1.creator_release(id, creator));
    assert(s0.balances.free_of(creator) + s0.balances.reserved_of(creator) <= u64::MAX);
    assert(!s2.creator_release(id, second));
}

/// A sale by the creator releases the escrow along with the payment: the
/// seller's reserved balance drops by the configured amount, and their free
/// balance gains the price plus the released amount in one step.
pub proof fn lemma_sale_by_creator_releases_escrow(
    pre: PalletModel,
    post: PalletModel,
    buyer: u64,
    id: u64,
)
    requires
        pre.balances.wf(),
        pre.buy_ok(post, buyer, id),
        pre.owners[id] == pre.kitties[id].creator,
        buyer != pre.owners[id],
        pre.balances.reserved_of(pre.owners[id]) >= pre.reserve_amount,
    ensures
        post.balances.reserved_of(pre.owners[id]) == pre.balances.reserved_of(pre.owners[id])
            - pre.reserve_amount,
        post.balances.free_of(pre.owners[id]) == pre.balances.free_of(pre.owners[id])
            + pre.kitties[id].price + pre.reserve_amount,
        post.balances.free_of(buyer) == pre.balances.free_of(buyer) - pre.kitties[id].price,
{
    let seller = pre.owners[id];
    let price = pre.kitties[id].price;
    lemma_with_transfer_wf(pre.balances, buyer, seller, price);
    let paid = pre.balances.with_transfer(buyer, seller, price);
    assert(paid.free_of(seller) + paid.reserved_of(seller) <= u64::MAX);
}

/// A resale by anyone but the creator moves only free balances: every
/// account's reserved balance survives the purchase unchanged.
pub proof fn lemma_resale_by_non_creator_keeps_reservations(
    pre: PalletModel,
    post: PalletModel,
    buyer: u64,
    id: u64,
)
    requires
        pre.buy_ok(post, buyer, id),
        pre.kitties[id].creator != pre.owners[id],
    ensures
        forall|who: u64| #![trigger post.balances.reserved_of(who)]
            post.balances.reserved_of(who) == pre.balances.reserved_of(who),
{
}

} // verus!
