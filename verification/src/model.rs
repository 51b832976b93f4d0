//! The data carried through a settlement attempt.

use vstd::prelude::*;
use crate::address::Address;
use crate::amount::Amount;

verus! {

/// One trade order of a batch: the trader sells `sell_amount` of
/// `sell_token` and asks for `buy_amount` of `buy_token`.
#[derive(Clone, Copy, Debug, PartialEq, Eq)]
pub struct Order {
    /// The order's identifier within the incoming batch.
    pub id: usize,
    pub sell_token: Address,
    pub buy_token: Address,
    pub sell_amount: Amount,
    pub buy_amount: Amount,
}

/// The on-chain state read for one order's (sell asset, vault) pair:
/// both decimal precisions and the vault's current share price, the
/// latter a fixed-point value scaled by `10^18`.
#[derive(Clone, Copy, Debug, PartialEq, Eq)]
pub struct PairState {
    pub sell_decimals: u8,
    pub vault_decimals: u8,
    pub share_price: Amount,
}

/// A filtered order together with the outcome of its chain-state read;
/// `None` records a read that failed, which skips the order.
#[derive(Clone, Copy, Debug, PartialEq, Eq)]
pub struct SettleItem {
    pub order: Order,
    pub state: Option<PairState>,
}

/// The executed amounts of one accepted order.
#[derive(Clone, Copy, Debug, PartialEq, Eq)]
pub struct ExecutedOrder {
    pub exec_sell_amount: Amount,
    pub exec_buy_amount: Amount,
}

/// A position in a multi-step execution plan; reserved, never set here.
#[derive(Clone, Copy, Debug, PartialEq, Eq)]
pub struct ExecutionPlan {
    pub sequence: usize,
    pub position: usize,
}

/// A token flow in or out of an interaction; reserved, never set here.
#[derive(Clone, Copy, Debug, PartialEq, Eq)]
pub struct TokenAmount {
    pub token: Address,
    pub amount: Amount,
}

/// One atomic on-chain call of a settlement.
#[derive(Clone, Debug, PartialEq)]
pub struct Interaction {
    pub target: Address,
    pub value: Amount,
    pub call_data: Vec<u8>,
    pub exec_plan: Option<ExecutionPlan>,
    pub inputs: Vec<TokenAmount>,
    pub outputs: Vec<TokenAmount>,
}

/// The outcome of a settlement attempt. Settlement order identifiers are
/// assigned densely from zero in processing order, so entry `k` of
/// `orders` carries identifier `k`.
#[derive(Clone, Debug, PartialEq)]
pub struct Settlement {
    pub orders: Vec<(usize, ExecutedOrder)>,
    pub prices: Vec<(Address, Amount)>,
    pub interactions: Vec<Interaction>,
}

/// One leg of a routed trade, as a price-quoting collaborator reports it.
#[derive(Clone, Debug, PartialEq)]
pub struct SubTrade {
    pub src_token: Address,
    pub dest_token: Address,
    pub src_amount: Amount,
    pub dest_amount: Amount,
}

} // verus!
