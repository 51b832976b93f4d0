use vault_solver::address::Address;
use vault_solver::address::default_vault_list;
use vault_solver::address::eth_marker;
use vault_solver::address::overwrite_eth_with_weth_token;
use vault_solver::address::weth;
use vault_solver::amount::Amount;
use vault_solver::classify::classify_orders;
use vault_solver::classify::is_badger_vault_trade;
use vault_solver::model::Order;
use vault_solver::model::PairState;
use vault_solver::model::SettleItem;
use vault_solver::rate::convertible_amount;
use vault_solver::rate::exp10;
use vault_solver::settle::solve;

const UNIT: u128 = 1_000_000_000_000_000_000;

fn amt(v: u128) -> Amount {
    let mut b = [0u8; 32];
    b[16..32].copy_from_slice(&v.to_be_bytes());
    Amount::new(b)
}

fn addr(last: u8) -> Address {
    let mut b = [0u8; 20];
    b[19] = last;
    Address::new(b)
}

fn order(id: usize, sell_token: Address, buy_token: Address, sell: u128, buy: u128) -> Order {
    Order { id, sell_token, buy_token, sell_amount: amt(sell), buy_amount: amt(buy) }
}

fn state(sell_decimals: u8, vault_decimals: u8, price: u128) -> PairState {
    PairState { sell_decimals, vault_decimals, share_price: amt(price) }
}

#[test]
fn non_vault_orders_are_excluded() {
    let vaults = vec![addr(0xAA)];
    let o1 = order(3, addr(1), addr(2), 5 * UNIT, UNIT);
    let o2 = order(7, addr(1), addr(0xAA), 5 * UNIT, UNIT);
    assert!(!is_badger_vault_trade(&o1, &vaults));
    assert!(is_badger_vault_trade(&o2, &vaults));
    let filtered = classify_orders(&vec![o1, o2], &vaults);
    assert_eq!(filtered.len(), 1);
    assert_eq!(filtered[0], o2);
}

#[test]
fn no_eligible_orders_settle_to_empty() {
    let vaults = vec![addr(0xAA)];
    let orders = vec![order(0, addr(1), addr(2), 5 * UNIT, UNIT)];
    let filtered = classify_orders(&orders, &vaults);
    assert!(filtered.is_empty());
    let items: Vec<SettleItem> = filtered
        .into_iter()
        .map(|o| SettleItem { order: o, state: Some(state(18, 18, UNIT)) })
        .collect();
    let s = solve(&items);
    assert!(s.orders.is_empty());
    assert!(s.prices.is_empty());
    assert!(s.interactions.is_empty());
}

#[test]
fn unit_share_price_converts_one_to_one() {
    let r = convertible_amount(&amt(1000 * UNIT), 18, 18, &amt(UNIT));
    assert_eq!(r, Some(amt(1000 * UNIT)));
}

#[test]
fn double_share_price_halves_the_amount() {
    let r = convertible_amount(&amt(1000 * UNIT), 18, 18, &amt(2 * UNIT));
    assert_eq!(r, Some(amt(500 * UNIT)));
}

#[test]
fn odd_share_price_rounds_down() {
    let r = convertible_amount(&amt(123456789 * UNIT), 18, 18, &amt(3 * UNIT));
    assert_eq!(r, Some(amt(41152263 * UNIT)));
}

#[test]
fn differing_decimals_rescale() {
    // 2 whole tokens of a 6-decimal asset into an 18-decimal vault at 1:1.
    let r = convertible_amount(&amt(2_000_000), 6, 18, &amt(UNIT));
    assert_eq!(r, Some(amt(2 * UNIT)));
}

#[test]
fn zero_share_price_gives_no_amount() {
    let r = convertible_amount(&amt(1000 * UNIT), 18, 18, &amt(0));
    assert_eq!(r, None);
}

#[test]
fn oversized_decimals_give_no_amount() {
    let r = convertible_amount(&amt(1000 * UNIT), 78, 18, &amt(UNIT));
    assert_eq!(r, None);
}

#[test]
fn exp10_matches_decimal_powers() {
    assert_eq!(exp10(0), Some(amt(1)));
    assert_eq!(exp10(3), Some(amt(1000)));
    assert_eq!(exp10(18), Some(amt(UNIT)));
    assert_eq!(exp10(78), None);
}

#[test]
fn amounts_agree_with_u256_encoding() {
    let x = primitive_types::U256::exp10(18);
    assert_eq!(Amount::new(x.to_big_endian()), amt(UNIT));
}

#[test]
fn overdemanding_order_leaves_no_trace() {
    let vault = addr(0xAA);
    let o = order(0, addr(1), vault, 1000 * UNIT, 1001 * UNIT);
    let items = vec![SettleItem { order: o, state: Some(state(18, 18, UNIT)) }];
    let s = solve(&items);
    assert!(s.orders.is_empty());
    assert!(s.prices.is_empty());
    assert!(s.interactions.is_empty());
}

#[test]
fn accepted_order_emits_approve_then_deposit() {
    let sell_token = addr(0x11);
    let vault = addr(0xAA);
    let o = order(0, sell_token, vault, 1000 * UNIT, 500 * UNIT);
    let items = vec![SettleItem { order: o, state: Some(state(18, 18, 2 * UNIT)) }];
    let s = solve(&items);

    assert_eq!(s.orders.len(), 1);
    assert_eq!(s.orders[0].0, 0);
    assert_eq!(s.orders[0].1.exec_sell_amount, amt(1000 * UNIT));
    assert_eq!(s.orders[0].1.exec_buy_amount, amt(500 * UNIT));

    assert_eq!(s.interactions.len(), 2);
    let approve = &s.interactions[0];
    assert_eq!(approve.target, sell_token);
    assert_eq!(approve.value, amt(0));
    let mut expected = vec![0x09u8, 0x5e, 0xa7, 0xb3];
    expected.extend_from_slice(&[0u8; 12]);
    expected.extend_from_slice(&vault.bytes);
    expected.extend_from_slice(&amt(1000 * UNIT).be_bytes);
    assert_eq!(approve.call_data, expected);
    assert!(approve.exec_plan.is_none());
    assert!(approve.inputs.is_empty());
    assert!(approve.outputs.is_empty());

    let deposit = &s.interactions[1];
    assert_eq!(deposit.target, vault);
    assert_eq!(deposit.value, amt(0));
    let mut expected = vec![0xb6u8, 0xb5, 0x5f, 0x25];
    expected.extend_from_slice(&amt(1000 * UNIT).be_bytes);
    assert_eq!(deposit.call_data, expected);

    assert_eq!(s.prices.len(), 2);
    assert_eq!(s.prices[0].0, sell_token);
    assert_eq!(s.prices[0].1, amt(1));
    assert_eq!(s.prices[1].0, vault);
    assert_eq!(s.prices[1].1, amt(1));
}

#[test]
fn identifiers_are_dense_and_increasing() {
    let vault = addr(0xAA);
    let good1 = order(12, addr(1), vault, 10 * UNIT, 10 * UNIT);
    let bad = order(57, addr(2), vault, 10 * UNIT, 11 * UNIT);
    let good2 = order(99, addr(3), vault, 6 * UNIT, 3 * UNIT);
    let st = Some(state(18, 18, UNIT));
    let st2 = Some(state(18, 18, 2 * UNIT));
    let items = vec![
        SettleItem { order: good1, state: st },
        SettleItem { order: bad, state: st },
        SettleItem { order: good2, state: st2 },
    ];
    let s = solve(&items);
    assert_eq!(s.orders.len(), 2);
    assert_eq!(s.orders[0].0, 0);
    assert_eq!(s.orders[0].1.exec_sell_amount, amt(10 * UNIT));
    assert_eq!(s.orders[0].1.exec_buy_amount, amt(10 * UNIT));
    assert_eq!(s.orders[1].0, 1);
    assert_eq!(s.orders[1].1.exec_sell_amount, amt(6 * UNIT));
    assert_eq!(s.orders[1].1.exec_buy_amount, amt(3 * UNIT));
    assert_eq!(s.interactions.len(), 4);
    assert_eq!(s.interactions[0].target, addr(1));
    assert_eq!(s.interactions[1].target, vault);
    assert_eq!(s.interactions[2].target, addr(3));
    assert_eq!(s.interactions[3].target, vault);
}

#[test]
fn failed_chain_read_skips_only_that_order() {
    let vault = addr(0xAA);
    let unread = order(0, addr(1), vault, 10 * UNIT, 10 * UNIT);
    let good = order(1, addr(2), vault, 10 * UNIT, 10 * UNIT);
    let items = vec![
        SettleItem { order: unread, state: None },
        SettleItem { order: good, state: Some(state(18, 18, UNIT)) },
    ];
    let s = solve(&items);
    assert_eq!(s.orders.len(), 1);
    assert_eq!(s.orders[0].0, 0);
    assert_eq!(s.interactions.len(), 2);
    assert_eq!(s.interactions[0].target, addr(2));
}

#[test]
fn prices_accumulate_without_duplicates() {
    let vault = addr(0xAA);
    let shared_sell = addr(1);
    let o1 = order(0, shared_sell, vault, 10 * UNIT, 10 * UNIT);
    let o2 = order(1, shared_sell, vault, 20 * UNIT, 20 * UNIT);
    let o3 = order(2, addr(2), vault, 30 * UNIT, 30 * UNIT);
    let st = Some(state(18, 18, UNIT));
    let items = vec![
        SettleItem { order: o1, state: st },
        SettleItem { order: o2, state: st },
        SettleItem { order: o3, state: st },
    ];
    let s = solve(&items);
    assert_eq!(s.orders.len(), 3);
    assert_eq!(s.prices.len(), 3);
    assert_eq!(s.prices[0].0, shared_sell);
    assert_eq!(s.prices[1].0, vault);
    assert_eq!(s.prices[2].0, addr(2));
    for p in &s.prices {
        assert_eq!(p.1, amt(1));
    }
}

#[test]
fn repeated_solving_is_identical() {
    let vault = addr(0xAA);
    let o1 = order(4, addr(1), vault, 10 * UNIT, 10 * UNIT);
    let o2 = order(9, addr(2), vault, 10 * UNIT, 11 * UNIT);
    let items = vec![
        SettleItem { order: o1, state: Some(state(18, 18, UNIT)) },
        SettleItem { order: o2, state: Some(state(18, 18, UNIT)) },
    ];
    let first = solve(&items);
    let second = solve(&items);
    assert_eq!(first, second);
}

#[test]
fn default_vault_list_holds_the_known_vault() {
    let vaults = default_vault_list();
    assert_eq!(vaults.len(), 1);
    let expected: [u8; 20] = [
        0xe4, 0xcb, 0x7c, 0xfd, 0x02, 0x7c, 0x02, 0x4a, 0xca, 0x33, 0x90, 0x26, 0xb1, 0xe7,
        0x0f, 0xf6, 0x8f, 0x82, 0x30, 0x5b,
    ];
    assert_eq!(vaults[0].bytes, expected);
}

#[test]
fn eth_marker_becomes_weth() {
    assert_eq!(overwrite_eth_with_weth_token(eth_marker()), weth());
    let other = addr(0x42);
    assert_eq!(overwrite_eth_with_weth_token(other), other);
    let expected_weth: [u8; 20] = [
        0xc0, 0x2a, 0xaa, 0x39, 0xb2, 0x23, 0xfe, 0x8d, 0x0a, 0x0e, 0x5c, 0x4f, 0x27, 0xea,
        0xd9, 0x08, 0x3c, 0x75, 0x6c, 0xc2,
    ];
    assert_eq!(weth().bytes, expected_weth);
}
