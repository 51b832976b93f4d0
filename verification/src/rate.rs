//! The conversion from a sell amount to the obtainable vault-share amount.
//!
//! The rate truncates twice, first when normalizing by the sell asset's
//! decimal scale and last when dividing by the share price. Both roundings
//! deliberately go down, and the order's trader bears the loss; the
//! division by the share price comes after every multiplication, so a share
//! price above the unit scale does not truncate the rate to zero.

use vstd::prelude::*;
use crate::amount::Amount;
use crate::amount::amount_limit;
use crate::amount::lemma_pow256_pos;
use crate::amount::pow256;
use crate::amount::u256_checked_mul;
use crate::amount::u256_div;
use crate::amount::u256_gt;

verus! {

/// 10 raised to the given power.
pub open spec fn pow10(n: nat) -> nat
    decreases n,
{
    if n == 0 {
        1
    } else {
        10 * pow10((n - 1) as nat)
    }
}

pub proof fn lemma_pow10_pos(n: nat)
    ensures
        pow10(n) >= 1,
    decreases n,
{
    if n > 0 {
        lemma_pow10_pos((n - 1) as nat);
    }
}

/// Powers of ten never decrease with the exponent.
pub proof fn lemma_pow10_increases(m: nat, n: nat)
    requires
        m <= n,
    ensures
        pow10(m) <= pow10(n),
    decreases n,
{
    if m < n {
        lemma_pow10_increases(m, (n - 1) as nat);
        lemma_pow10_pos((n - 1) as nat);
    }
}

/// From one on, a power of ten stays under the same power of 256.
proof fn lemma_pow10_below_pow256(n: nat)
    requires
        n >= 1,
    ensures
        pow10(n) < pow256(n),
    decreases n,
{
    if n == 1 {
        assert(pow10(0) == 1);
        assert(pow256(0) == 1);
        assert(pow10(1) == 10);
        assert(pow256(1) == 256);
    } else {
        lemma_pow10_below_pow256((n - 1) as nat);
        assert(pow10(n) == 10 * pow10((n - 1) as nat));
        assert(pow256(n) == 256 * pow256((n - 1) as nat));
        assert(10 * pow10((n - 1) as nat) < 256 * pow256((n - 1) as nat)) by (nonlinear_arith)
            requires
                pow10((n - 1) as nat) < pow256((n - 1) as nat),
                pow10((n - 1) as nat) >= 0,
        ;
    }
}

proof fn lemma_pow256_increases(m: nat, n: nat)
    requires
        m <= n,
    ensures
        pow256(m) <= pow256(n),
    decreases n,
{
    if m < n {
        lemma_pow256_increases(m, (n - 1) as nat);
        lemma_pow256_pos((n - 1) as nat);
    }
}

/// Whether every step of the conversion fits in 256 bits: the two decimal
/// scales themselves, the rescaled normalized amount, and that amount
/// brought to the unit scale.
pub open spec fn conv_ok(sell: nat, sell_dec: nat, vault_dec: nat, price: nat) -> bool {
    &&& price != 0
    &&& pow10(sell_dec) < amount_limit()
    &&& pow10(vault_dec) < amount_limit()
    &&& (sell / pow10(sell_dec)) * pow10(vault_dec) < amount_limit()
    &&& (sell / pow10(sell_dec)) * pow10(vault_dec) * pow10(18) < amount_limit()
}

/// The maximum vault-share amount a sell amount converts to: the amount,
/// normalized by the sell asset's decimal scale, rescaled to the vault's
/// decimal base and to the unit scale, divided by the share price. Both
/// divisions truncate.
pub open spec fn conv_amount(sell: nat, sell_dec: nat, vault_dec: nat, price: nat) -> nat {
    (sell / pow10(sell_dec)) * pow10(vault_dec) * pow10(18) / price
}

/// Ten to the given power as an amount, or `None` where it needs more than
/// 256 bits.
pub fn exp10(n: u8) -> (r: Option<Amount>)
    ensures
        r is Some <==> pow10(n as nat) < amount_limit(),
        r matches Some(v) ==> v@ == pow10(n as nat),
{
    let ten = Amount::from_byte(10);
    let mut acc = Amount::from_byte(1);
    let mut i: u8 = 0;
    proof {
        lemma_pow256_pos(31);
    }
    while i < n
        invariant
            i <= n,
            ten@ == 10,
            acc@ == pow10(i as nat),
            pow10(i as nat) < amount_limit(),
        decreases n - i,
    {
        match u256_checked_mul(&acc, &ten) {
            Some(next) => {
                acc = next;
                i = i + 1;
            },
            None => {
                proof {
                    lemma_pow10_increases((i + 1) as nat, n as nat);
                }
                return None;
            },
        }
    }
    Some(acc)
}

/// The maximum vault-share amount obtainable for the sell amount, given the
/// decimal precisions and the vault's share price (scaled by `10^18`), or
/// `None` where the share price is zero or a step overflows 256 bits; a
/// `None` skips the order.
pub fn convertible_amount(
    sell_amount: &Amount,
    sell_decimals: u8,
    vault_decimals: u8,
    share_price: &Amount,
) -> (r: Option<Amount>)
    ensures
        r is Some <==> conv_ok(sell_amount@, sell_decimals as nat, vault_decimals as nat,
            share_price@),
        r matches Some(v) ==> v@ == conv_amount(sell_amount@, sell_decimals as nat,
            vault_decimals as nat, share_price@),
{
    let zero = Amount::zero();
    if !u256_gt(share_price, &zero) {
        return None;
    }
    let sell_scale = match exp10(sell_decimals) {
        Some(v) => v,
        None => { return None },
    };
    let vault_scale = match exp10(vault_decimals) {
        Some(v) => v,
        None => { return None },
    };
    proof {
        lemma_pow10_pos(sell_decimals as nat);
    }
    let normalized = u256_div(sell_amount, &sell_scale);
    let rescaled = match u256_checked_mul(&normalized, &vault_scale) {
        Some(v) => v,
        None => { return None },
    };
    proof {
        lemma_pow10_below_pow256(18);
        lemma_pow256_increases(18, 32);
    }
    let unit = exp10(18).unwrap();
    let scaled = match u256_checked_mul(&rescaled, &unit) {
        Some(v) => v,
        None => { return None },
    };
    Some(u256_div(&scaled, share_price))
}

} // verus!
