//! 160-bit contract and asset addresses.

use vstd::prelude::*;

verus! {

/// A 20-byte on-chain address.
#[derive(Clone, Copy, Debug, PartialEq, Eq)]
pub struct Address {
    pub bytes: [u8; 20],
}

impl View for Address {
    type V = Seq<u8>;

    open spec fn view(&self) -> Seq<u8> {
        self.bytes@
    }
}

impl Address {
    /// The address with the given bytes.
    pub fn new(bytes: [u8; 20]) -> (r: Address)
        ensures
            r@ == bytes@,
    {
        Address { bytes }
    }

    /// Whether two addresses hold the same bytes.
    pub fn same_as(&self, other: &Address) -> (r: bool)
        ensures
            r == (self@ == other@),
    {
        let mut i: usize = 0;
        while i < 20
            invariant
                i <= 20,
                forall|j: int| 0 <= j < i ==> self@[j] == other@[j],
            decreases 20 - i,
        {
            if self.bytes[i] != other.bytes[i] {
                return false;
            }
            i = i + 1;
        }
        proof {
            assert(self@ =~= other@);
        }
        true
    }
}

/// The marker address that stands for the chain's native asset.
pub open spec fn eth_marker_bytes() -> Seq<u8> {
    Seq::new(20, |i: int| 0xeeu8)
}

/// The address of the wrapped native asset's token contract.
pub open spec fn weth_bytes() -> Seq<u8> {
    seq![0xc0u8, 0x2au8, 0xaau8, 0x39u8, 0xb2u8, 0x23u8, 0xfeu8, 0x8du8, 0x0au8, 0x0eu8,
        0x5cu8, 0x4fu8, 0x27u8, 0xeau8, 0xd9u8, 0x08u8, 0x3cu8, 0x75u8, 0x6cu8, 0xc2u8]
}

/// The address of the one vault-share token recognized by default.
pub open spec fn default_vault_bytes() -> Seq<u8> {
    seq![0xe4u8, 0xcbu8, 0x7cu8, 0xfdu8, 0x02u8, 0x7cu8, 0x02u8, 0x4au8, 0xcau8, 0x33u8,
        0x90u8, 0x26u8, 0xb1u8, 0xe7u8, 0x0fu8, 0xf6u8, 0x8fu8, 0x82u8, 0x30u8, 0x5bu8]
}

/// The marker address that stands for the chain's native asset.
pub fn eth_marker() -> (r: Address)
    ensures
        r@ == eth_marker_bytes(),
{
    let mut bytes = [0u8; 20];
    let mut i: usize = 0;
    while i < 20
        invariant
            i <= 20,
            forall|j: int| 0 <= j < i ==> bytes@[j] == 0xee,
        decreases 20 - i,
    {
        bytes[i] = 0xee;
        i = i + 1;
    }
    proof {
        assert(bytes@ =~= eth_marker_bytes());
    }
    Address { bytes }
}

/// The address of the wrapped native asset's token contract.
pub fn weth() -> (r: Address)
    ensures
        r@ == weth_bytes(),
{
    let bytes = [0xc0u8, 0x2au8, 0xaau8, 0x39u8, 0xb2u8, 0x23u8, 0xfeu8, 0x8du8, 0x0au8,
        0x0eu8, 0x5cu8, 0x4fu8, 0x27u8, 0xeau8, 0xd9u8, 0x08u8, 0x3cu8, 0x75u8, 0x6cu8, 0xc2u8];
    proof {
        assert(bytes@ =~= weth_bytes());
    }
    Address { bytes }
}

/// The single-entry allow-list of recognized vault-share addresses.
pub fn default_vault_list() -> (r: Vec<Address>)
    ensures
        r@.len() == 1,
        r@[0]@ == default_vault_bytes(),
{
    let bytes = [0xe4u8, 0xcbu8, 0x7cu8, 0xfdu8, 0x02u8, 0x7cu8, 0x02u8, 0x4au8, 0xcau8,
        0x33u8, 0x90u8, 0x26u8, 0xb1u8, 0xe7u8, 0x0fu8, 0xf6u8, 0x8fu8, 0x82u8, 0x30u8, 0x5bu8];
    proof {
        assert(bytes@ =~= default_vault_bytes());
    }
    let mut r: Vec<Address> = Vec::new();
    r.push(Address { bytes });
    r
}

/// Replaces the native-asset marker by the wrapped token's address, and
/// leaves every other address unchanged.
pub fn overwrite_eth_with_weth_token(token: Address) -> (r: Address)
    ensures
        token@ == eth_marker_bytes() ==> r@ == weth_bytes(),
        token@ != eth_marker_bytes() ==> r@ == token@,
{
    let marker = eth_marker();
    if token.same_as(&marker) {
        weth()
    } else {
        token
    }
}

} // verus!
