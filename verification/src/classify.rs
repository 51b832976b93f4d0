//! Selection of the orders whose buy asset is a recognized vault share.

use vstd::prelude::*;
use crate::address::Address;
use crate::model::Order;

verus! {

/// Whether the order buys a recognized vault-share token. Deposits only:
/// the vault token is looked for on the buy side alone.
pub open spec fn is_vault_trade(order: Order, vaults: Seq<Address>) -> bool {
    exists|i: int| 0 <= i < vaults.len() && vaults[i]@ == order.buy_token@
}

/// The classification predicate over a fixed allow-list.
pub open spec fn vault_order_pred(vaults: Seq<Address>) -> spec_fn(Order) -> bool {
    |o: Order| is_vault_trade(o, vaults)
}

/// Whether the order buys a token of the given vault-share allow-list.
pub fn is_badger_vault_trade(order: &Order, vaults: &Vec<Address>) -> (r: bool)
    ensures
        r == is_vault_trade(*order, vaults@),
{
    let mut i: usize = 0;
    while i < vaults.len()
        invariant
            i <= vaults@.len(),
            forall|j: int| 0 <= j < i ==> (#[trigger] vaults@[j])@ != order.buy_token@,
        decreases vaults@.len() - i,
    {
        if vaults[i].same_as(&order.buy_token) {
            return true;
        }
        i = i + 1;
    }
    false
}

/// The subset of the batch's orders that buy a recognized vault share, in
/// the batch's own order.
pub fn classify_orders(orders: &Vec<Order>, vaults: &Vec<Address>) -> (r: Vec<Order>)
    ensures
        r@ == orders@.filter(vault_order_pred(vaults@)),
{
    let mut r: Vec<Order> = Vec::new();
    let mut i: usize = 0;
    while i < orders.len()
        invariant
            i <= orders@.len(),
            r@ == orders@.take(i as int).filter(vault_order_pred(vaults@)),
        decreases orders@.len() - i,
    {
        let o = orders[i];
        proof {
            reveal(Seq::filter);
            assert(orders@.take(i + 1).drop_last() =~= orders@.take(i as int));
            assert(orders@.take(i + 1).last() == orders@[i as int]);
        }
        if is_badger_vault_trade(&o, vaults) {
            r.push(o);
        }
        i = i + 1;
    }
    proof {
        assert(orders@.take(orders@.len() as int) =~= orders@);
    }
    r
}

/// No order outside the classification ever reaches the settlement: every
/// classified order buys a recognized vault share, and a batch with no
/// qualifying order classifies to nothing.
pub proof fn lemma_classifier_excludes(orders: Seq<Order>, vaults: Seq<Address>)
    ensures
        forall|k: int| 0 <= k < orders.filter(vault_order_pred(vaults)).len()
            ==> is_vault_trade(#[trigger] orders.filter(vault_order_pred(vaults))[k], vaults),
        (forall|k: int| 0 <= k < orders.len() ==> !is_vault_trade(#[trigger] orders[k], vaults))
            ==> orders.filter(vault_order_pred(vaults)) == Seq::<Order>::empty(),
    decreases orders.len(),
{
    broadcast use vstd::seq_lib::group_filter_ensures;

    reveal(Seq::filter);
    if orders.len() > 0 {
        lemma_classifier_excludes(orders.drop_last(), vaults);
        if forall|k: int| 0 <= k < orders.len() ==> !is_vault_trade(#[trigger] orders[k], vaults) {
            assert(forall|k: int| 0 <= k < orders.drop_last().len()
                ==> !is_vault_trade(#[trigger] orders.drop_last()[k], vaults));
            assert(!vault_order_pred(vaults)(orders.last()));
            assert(orders.filter(vault_order_pred(vaults)) =~= Seq::<Order>::empty());
        }
    }
}

} // verus!
