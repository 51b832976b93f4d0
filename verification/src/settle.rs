//! Folding the accepted orders of a batch into one settlement.

use vstd::prelude::*;
use crate::address::Address;
use crate::amount::Amount;
use crate::amount::u256_gt;
use crate::encode::approve_interaction;
use crate::encode::deposit_interaction;
use crate::encode::is_approve_interaction;
use crate::encode::is_deposit_interaction;
use crate::model::ExecutedOrder;
use crate::model::ExecutionPlan;
use crate::model::Interaction;
use crate::model::Order;
use crate::model::SettleItem;
use crate::model::Settlement;
use crate::rate::conv_amount;
use crate::rate::conv_ok;
use crate::rate::convertible_amount;

verus! {

/// Whether a batch entry is accepted: its chain-state read succeeded, every
/// conversion step fits in 256 bits, and the computed convertible amount
/// covers what the trader asked for.
pub open spec fn item_accepted(it: SettleItem) -> bool {
    match it.state {
        Some(st) => {
            &&& conv_ok(it.order.sell_amount@, st.sell_decimals as nat, st.vault_decimals as nat,
                st.share_price@)
            &&& it.order.buy_amount@ <= conv_amount(it.order.sell_amount@, st.sell_decimals as nat,
                st.vault_decimals as nat, st.share_price@)
        },
        None => false,
    }
}

/// The convertible amount of an accepted entry.
pub open spec fn accepted_buy_value(it: SettleItem) -> nat {
    match it.state {
        Some(st) => conv_amount(it.order.sell_amount@, st.sell_decimals as nat,
            st.vault_decimals as nat, st.share_price@),
        None => 0,
    }
}

/// The acceptance predicate as a value, for filtering.
pub open spec fn accepted_pred() -> spec_fn(SettleItem) -> bool {
    |it: SettleItem| item_accepted(it)
}

/// The accepted entries of a batch, in processing order.
pub open spec fn accepted_items(items: Seq<SettleItem>) -> Seq<SettleItem> {
    items.filter(accepted_pred())
}

/// Whether a price list already carries the token.
pub open spec fn has_price(ps: Seq<(Seq<u8>, nat)>, token: Seq<u8>) -> bool {
    exists|i: int| 0 <= i < ps.len() && (#[trigger] ps[i]).0 == token
}

/// Adds the unit reference price for one token; the first write wins.
pub open spec fn add_price(ps: Seq<(Seq<u8>, nat)>, token: Seq<u8>) -> Seq<(Seq<u8>, nat)> {
    if has_price(ps, token) {
        ps
    } else {
        ps.push((token, 1))
    }
}

/// Adds an order's two reference prices, sell asset first.
pub open spec fn order_prices(ps: Seq<(Seq<u8>, nat)>, o: Order) -> Seq<(Seq<u8>, nat)> {
    add_price(add_price(ps, o.sell_token@), o.buy_token@)
}

/// The reference prices accumulated additively over the accepted entries.
pub open spec fn price_entries(acc: Seq<SettleItem>) -> Seq<(Seq<u8>, nat)>
    decreases acc.len(),
{
    if acc.len() == 0 {
        Seq::empty()
    } else {
        order_prices(price_entries(acc.drop_last()), acc.last().order)
    }
}

/// A price list as plain entries: each token's bytes with its price's value.
pub open spec fn prices_view(ps: Seq<(Address, Amount)>) -> Seq<(Seq<u8>, nat)> {
    ps.map_values(|p: (Address, Amount)| (p.0@, p.1@))
}

/// Whether the settlement already prices the token.
fn has_price_entry(prices: &Vec<(Address, Amount)>, token: &Address) -> (r: bool)
    ensures
        r == has_price(prices_view(prices@), token@),
{
    let mut i: usize = 0;
    while i < prices.len()
        invariant
            i <= prices@.len(),
            forall|j: int| 0 <= j < i ==> (#[trigger] prices@[j]).0@ != token@,
        decreases prices@.len() - i,
    {
        if prices[i].0.same_as(token) {
            proof {
                assert(prices_view(prices@)[i as int].0 == token@);
            }
            return true;
        }
        i = i + 1;
    }
    proof {
        assert forall|j: int| 0 <= j < prices_view(prices@).len() implies (#[trigger] prices_view(
            prices@,
        )[j]).0 != token@ by {
            assert(prices_view(prices@)[j].0 == prices@[j].0@);
        }
    }
    false
}

/// Adds the unit reference price for a token unless one is already there:
/// prices accumulate across orders, never replacing earlier entries.
fn insert_price(prices: &mut Vec<(Address, Amount)>, token: &Address)
    ensures
        prices_view(final(prices)@) == add_price(prices_view(old(prices)@), token@),
{
    if !has_price_entry(prices, token) {
        let one = Amount::from_byte(1);
        prices.push((*token, one));
        proof {
            assert(prices_view(prices@) =~= prices_view(old(prices)@).push((token@, 1)));
        }
    }
}

/// The executed amounts of one accepted entry: the full sell amount, and
/// the computed convertible amount.
pub open spec fn executes_item(e: ExecutedOrder, it: SettleItem) -> bool {
    &&& e.exec_sell_amount == it.order.sell_amount
    &&& e.exec_buy_amount@ == accepted_buy_value(it)
}

/// What a settlement of a batch holds: one executed order per accepted
/// entry under a dense, zero-based, strictly increasing identifier; per
/// accepted entry an approval immediately followed by a deposit in the
/// interaction list, and nothing else in it; and the accumulated reference
/// prices.
pub open spec fn settles(items: Seq<SettleItem>, s: Settlement) -> bool {
    let acc = accepted_items(items);
    &&& s.orders@.len() == acc.len()
    &&& forall|k: int| 0 <= k < acc.len() ==> (#[trigger] s.orders@[k]).0 == k
    &&& forall|k: int| 0 <= k < acc.len() ==> executes_item(s.orders@[k].1, #[trigger] acc[k])
    &&& s.interactions@.len() == 2 * acc.len()
    &&& forall|k: int| 0 <= k < acc.len() ==> is_approve_interaction(s.interactions@[2 * k],
        (#[trigger] acc[k]).order)
    &&& forall|k: int| 0 <= k < acc.len() ==> is_deposit_interaction(s.interactions@[2 * k + 1],
        (#[trigger] acc[k]).order)
    &&& prices_view(s.prices@) == price_entries(acc)
}

/// Settles a batch of classified orders, each with the outcome of its
/// chain-state read. Entries whose read failed, whose conversion overflows,
/// or whose trader asks for more than the convertible amount are skipped;
/// each remaining entry contributes its executed amounts, its two
/// interactions, and its two unit reference prices. An empty batch yields
/// the empty settlement.
pub fn solve(items: &Vec<SettleItem>) -> (s: Settlement)
    ensures
        settles(items@, s),
{
    let mut s = Settlement { orders: Vec::new(), prices: Vec::new(), interactions: Vec::new() };
    proof {
        reveal(Seq::filter);
        assert(items@.take(0int) =~= Seq::<SettleItem>::empty());
        assert(prices_view(s.prices@) =~= price_entries(accepted_items(items@.take(0int))));
    }
    let mut i: usize = 0;
    while i < items.len()
        invariant
            i <= items@.len(),
            settles(items@.take(i as int), s),
        decreases items@.len() - i,
    {
        let it = items[i];
        let ghost acc0 = accepted_items(items@.take(i as int));
        proof {
            reveal(Seq::filter);
            assert(items@.take(i + 1).drop_last() =~= items@.take(i as int));
            assert(items@.take(i + 1).last() == it);
        }
        let mut accepted = false;
        match it.state {
            None => {},
            Some(st) => {
                match convertible_amount(&it.order.sell_amount, st.sell_decimals,
                    st.vault_decimals, &st.share_price) {
                    None => {},
                    Some(can_buy) => {
                        if u256_gt(&it.order.buy_amount, &can_buy) {
                            // The trader asks for more than the sell amount converts to.
                        } else {
                            accepted = true;
                            proof {
                                assert(item_accepted(it));
                                assert(accepted_items(items@.take(i + 1)) =~= acc0.push(it));
                            }
                            let approve = approve_interaction(&it.order);
                            s.interactions.push(approve);
                            let deposit = deposit_interaction(&it.order);
                            s.interactions.push(deposit);
                            insert_price(&mut s.prices, &it.order.sell_token);
                            insert_price(&mut s.prices, &it.order.buy_token);
                            let id = s.orders.len();
                            s.orders.push((id, ExecutedOrder {
                                exec_sell_amount: it.order.sell_amount,
                                exec_buy_amount: can_buy,
                            }));
                            proof {
                                let acc1 = accepted_items(items@.take(i + 1));
                                assert(acc1.drop_last() =~= acc0);
                                assert(price_entries(acc1) == order_prices(price_entries(acc0),
                                    it.order));
                                assert(forall|k: int| 0 <= k < acc0.len()
                                    ==> #[trigger] acc1[k] == acc0[k]);
                            }
                        }
                    },
                }
            },
        }
        if !accepted {
            proof {
                assert(!item_accepted(it));
                assert(accepted_items(items@.take(i + 1)) =~= acc0);
            }
        }
        i = i + 1;
    }
    proof {
        assert(items@.take(items@.len() as int) =~= items@);
    }
    s
}

/// A batch entry that is not accepted leaves no trace: the accepted
/// entries are exactly those of the batch without it.
pub proof fn lemma_skipped_item_immaterial(items: Seq<SettleItem>, i: int)
    requires
        0 <= i < items.len(),
        !item_accepted(items[i]),
    ensures
        accepted_items(items) == accepted_items(items.remove(i)),
    decreases items.len(),
{
    reveal(Seq::filter);
    if i == items.len() - 1 {
        assert(items.remove(i) =~= items.drop_last());
    } else {
        lemma_skipped_item_immaterial(items.drop_last(), i);
        assert(items.remove(i).drop_last() =~= items.drop_last().remove(i));
        assert(items.remove(i).last() == items.last());
    }
}

/// In settlement terms: a settlement of a batch with a rejected entry is a
/// settlement of the batch without that entry — the rejected entry
/// contributes no executed order, no interaction, and no price.
pub proof fn lemma_skipped_item_immaterial_settlement(
    items: Seq<SettleItem>,
    i: int,
    s: Settlement,
)
    requires
        0 <= i < items.len(),
        !item_accepted(items[i]),
        settles(items, s),
    ensures
        settles(items.remove(i), s),
{
    lemma_skipped_item_immaterial(items, i);
}

/// An empty batch settles to the empty settlement: no executed orders, no
/// reference prices, no interactions.
pub proof fn lemma_empty_batch_empty_settlement(s: Settlement)
    requires
        settles(Seq::empty(), s),
    ensures
        s.orders@.len() == 0,
        s.prices@.len() == 0,
        s.interactions@.len() == 0,
{
    reveal(Seq::filter);
    assert(accepted_items(Seq::empty()).len() == 0);
    assert(prices_view(s.prices@).len() == s.prices@.len());
}

/// One interaction as plain values: target bytes, native value, call data,
/// execution plan, and the two token-flow lengths.
pub open spec fn interaction_view(i: Interaction) -> (
    Seq<u8>,
    nat,
    Seq<u8>,
    Option<ExecutionPlan>,
    nat,
    nat,
) {
    (i.target@, i.value@, i.call_data@, i.exec_plan, i.inputs@.len(), i.outputs@.len())
}

/// Settling is deterministic: two settlements of one batch agree on every
/// observable part — identifiers, executed amounts, reference prices, and
/// each interaction's target, native value and call data.
pub proof fn lemma_settle_deterministic(items: Seq<SettleItem>, s1: Settlement, s2: Settlement)
    requires
        settles(items, s1),
        settles(items, s2),
    ensures
        s1.orders@.len() == s2.orders@.len(),
        forall|k: int| 0 <= k < s1.orders@.len() ==> (#[trigger] s1.orders@[k]).0
            == s2.orders@[k].0,
        forall|k: int| 0 <= k < s1.orders@.len() ==> (#[trigger] s1.orders@[k]).1.exec_sell_amount
            == s2.orders@[k].1.exec_sell_amount,
        forall|k: int| 0 <= k < s1.orders@.len() ==> (#[trigger] s1.orders@[k]).1.exec_buy_amount@
            == s2.orders@[k].1.exec_buy_amount@,
        prices_view(s1.prices@) == prices_view(s2.prices@),
        s1.interactions@.len() == s2.interactions@.len(),
        forall|k: int| 0 <= k < s1.interactions@.len() ==> interaction_view(
            #[trigger] s1.interactions@[k],
        ) == interaction_view(s2.interactions@[k]),
{
    let acc = accepted_items(items);
    assert forall|k: int| 0 <= k < s1.orders@.len() implies (#[trigger] s1.orders@[k]).1
        .exec_sell_amount == s2.orders@[k].1.exec_sell_amount && s1.orders@[k].1.exec_buy_amount@
        == s2.orders@[k].1.exec_buy_amount@ by {
        assert(executes_item(s1.orders@[k].1, acc[k]));
        assert(executes_item(s2.orders@[k].1, acc[k]));
    }
    assert forall|k: int| 0 <= k < s1.interactions@.len() implies interaction_view(
        #[trigger] s1.interactions@[k],
    ) == interaction_view(s2.interactions@[k]) by {
        let j = k / 2;
        if k % 2 == 0 {
            assert(k == 2 * j);
            assert(is_approve_interaction(s1.interactions@[2 * j], acc[j].order));
            assert(is_approve_interaction(s2.interactions@[2 * j], acc[j].order));
        } else {
            assert(k == 2 * j + 1);
            assert(is_deposit_interaction(s1.interactions@[2 * j + 1], acc[j].order));
            assert(is_deposit_interaction(s2.interactions@[2 * j + 1], acc[j].order));
        }
    }
}

} // verus!
