//! Byte-exact ABI call data for the two calls an accepted order needs.

use vstd::prelude::*;
use crate::address::Address;
use crate::amount::Amount;
use crate::model::Interaction;
use crate::model::Order;

verus! {

/// The 4-byte selector of the ERC-20 `approve(address,uint256)` call.
pub open spec fn approve_selector() -> Seq<u8> {
    seq![0x09u8, 0x5eu8, 0xa7u8, 0xb3u8]
}

/// The 4-byte selector of the vault's `deposit(uint256)` call.
pub open spec fn deposit_selector() -> Seq<u8> {
    seq![0xb6u8, 0xb5u8, 0x5fu8, 0x25u8]
}

/// Call data of `approve(spender, amount)`: the selector, the spender
/// address left-padded to 32 bytes, and the amount as 32 big-endian bytes.
pub open spec fn approve_call_data(spender: Seq<u8>, amount: Seq<u8>) -> Seq<u8> {
    approve_selector() + Seq::new(12, |i: int| 0u8) + spender + amount
}

/// Call data of `deposit(amount)`: the selector, then the amount as 32
/// big-endian bytes.
pub open spec fn deposit_call_data(amount: Seq<u8>) -> Seq<u8> {
    deposit_selector() + amount
}

/// Appends an address's 20 bytes.
fn push_address_bytes(data: &mut Vec<u8>, a: &Address)
    ensures
        final(data)@ == old(data)@ + a@,
{
    let mut i: usize = 0;
    while i < 20
        invariant
            i <= 20,
            data@ == old(data)@ + a@.take(i as int),
        decreases 20 - i,
    {
        proof {
            assert(a@.take(i + 1) =~= a@.take(i as int).push(a@[i as int]));
        }
        data.push(a.bytes[i]);
        i = i + 1;
    }
    proof {
        assert(a@.take(20) =~= a@);
    }
}

/// Appends an amount's 32 big-endian bytes.
fn push_amount_bytes(data: &mut Vec<u8>, a: &Amount)
    ensures
        final(data)@ == old(data)@ + a.be_bytes@,
{
    let mut i: usize = 0;
    while i < 32
        invariant
            i <= 32,
            data@ == old(data)@ + a.be_bytes@.take(i as int),
        decreases 32 - i,
    {
        proof {
            assert(a.be_bytes@.take(i + 1) =~= a.be_bytes@.take(i as int).push(
                a.be_bytes@[i as int]));
        }
        data.push(a.be_bytes[i]);
        i = i + 1;
    }
    proof {
        assert(a.be_bytes@.take(32) =~= a.be_bytes@);
    }
}

/// The call data approving the spender for the amount on an ERC-20 asset.
pub fn encode_approve(spender: &Address, amount: &Amount) -> (r: Vec<u8>)
    ensures
        r@ == approve_call_data(spender@, amount.be_bytes@),
{
    let mut data: Vec<u8> = Vec::new();
    data.push(0x09);
    data.push(0x5e);
    data.push(0xa7);
    data.push(0xb3);
    let mut i: usize = 0;
    while i < 12
        invariant
            i <= 12,
            data@ == approve_selector() + Seq::new(i as nat, |j: int| 0u8),
        decreases 12 - i,
    {
        proof {
            assert(Seq::new((i + 1) as nat, |j: int| 0u8) =~= Seq::new(i as nat, |j: int| 0u8)
                .push(0u8));
        }
        data.push(0);
        i = i + 1;
    }
    push_address_bytes(&mut data, spender);
    push_amount_bytes(&mut data, amount);
    proof {
        assert(data@ =~= approve_call_data(spender@, amount.be_bytes@));
    }
    data
}

/// The call data depositing the amount into a vault.
pub fn encode_deposit(amount: &Amount) -> (r: Vec<u8>)
    ensures
        r@ == deposit_call_data(amount.be_bytes@),
{
    let mut data: Vec<u8> = Vec::new();
    data.push(0xb6);
    data.push(0xb5);
    data.push(0x5f);
    data.push(0x25);
    proof {
        assert(data@ =~= deposit_selector());
    }
    push_amount_bytes(&mut data, amount);
    proof {
        assert(data@ =~= deposit_call_data(amount.be_bytes@));
    }
    data
}

/// What the first interaction of an accepted order must hold: an approval
/// on the sell asset, authorizing the vault for the full sell amount, with
/// zero native value and no execution plan or token flows.
pub open spec fn is_approve_interaction(i: Interaction, o: Order) -> bool {
    &&& i.target@ == o.sell_token@
    &&& i.value@ == 0
    &&& i.call_data@ == approve_call_data(o.buy_token@, o.sell_amount.be_bytes@)
    &&& i.exec_plan is None
    &&& i.inputs@.len() == 0
    &&& i.outputs@.len() == 0
}

/// What the second interaction of an accepted order must hold: a deposit of
/// the full sell amount into the vault, with zero native value and no
/// execution plan or token flows.
pub open spec fn is_deposit_interaction(i: Interaction, o: Order) -> bool {
    &&& i.target@ == o.buy_token@
    &&& i.value@ == 0
    &&& i.call_data@ == deposit_call_data(o.sell_amount.be_bytes@)
    &&& i.exec_plan is None
    &&& i.inputs@.len() == 0
    &&& i.outputs@.len() == 0
}

/// The approval interaction of one accepted order.
pub fn approve_interaction(order: &Order) -> (r: Interaction)
    ensures
        is_approve_interaction(r, *order),
{
    Interaction {
        target: order.sell_token,
        value: Amount::zero(),
        call_data: encode_approve(&order.buy_token, &order.sell_amount),
        exec_plan: None,
        inputs: Vec::new(),
        outputs: Vec::new(),
    }
}

/// The deposit interaction of one accepted order.
pub fn deposit_interaction(order: &Order) -> (r: Interaction)
    ensures
        is_deposit_interaction(r, *order),
{
    Interaction {
        target: order.buy_token,
        value: Amount::zero(),
        call_data: encode_deposit(&order.sell_amount),
        exec_plan: None,
        inputs: Vec::new(),
        outputs: Vec::new(),
    }
}

} // verus!
