//! Unsigned 256-bit token amounts, held as 32 big-endian bytes.

use vstd::prelude::*;

verus! {

/// An unsigned 256-bit amount, held as its 32-byte big-endian representation.
#[derive(Clone, Copy, Debug, PartialEq, Eq)]
pub struct Amount {
    pub be_bytes: [u8; 32],
}

/// The number that a big-endian byte string represents.
pub open spec fn be_val(s: Seq<u8>) -> nat
    decreases s.len(),
{
    if s.len() == 0 {
        0
    } else {
        be_val(s.drop_last()) * 256 + s.last() as nat
    }
}

/// 256 raised to the given power.
pub open spec fn pow256(n: nat) -> nat
    decreases n,
{
    if n == 0 {
        1
    } else {
        256 * pow256((n - 1) as nat)
    }
}

/// The least number too large for a 256-bit amount.
pub open spec fn amount_limit() -> nat {
    pow256(32)
}

impl View for Amount {
    type V = nat;

    open spec fn view(&self) -> nat {
        be_val(self.be_bytes@)
    }
}

pub proof fn lemma_pow256_pos(n: nat)
    ensures
        pow256(n) >= 1,
    decreases n,
{
    if n > 0 {
        lemma_pow256_pos((n - 1) as nat);
    }
}

/// A byte string of zeros represents zero.
pub proof fn lemma_be_val_zero(s: Seq<u8>)
    requires
        forall|i: int| 0 <= i < s.len() ==> s[i] == 0,
    ensures
        be_val(s) == 0,
    decreases s.len(),
{
    if s.len() > 0 {
        lemma_be_val_zero(s.drop_last());
    }
}

impl Amount {
    /// The amount with the given big-endian representation.
    pub fn new(be_bytes: [u8; 32]) -> (r: Amount)
        ensures
            r.be_bytes@ == be_bytes@,
            r@ == be_val(be_bytes@),
    {
        Amount { be_bytes }
    }

    /// The zero amount.
    pub fn zero() -> (r: Amount)
        ensures
            r@ == 0,
    {
        Amount::from_byte(0)
    }

    /// The amount whose value is the given single byte.
    pub fn from_byte(v: u8) -> (r: Amount)
        ensures
            r@ == v as nat,
    {
        let mut be_bytes = [0u8; 32];
        let mut i: usize = 0;
        while i < 31
            invariant
                i <= 31,
                forall|j: int| 0 <= j < i ==> be_bytes@[j] == 0,
            decreases 31 - i,
        {
            be_bytes[i] = 0;
            i = i + 1;
        }
        be_bytes[31] = v;
        proof {
            let s = be_bytes@;
            assert(s.last() == v);
            assert(forall|j: int| 0 <= j < 31 ==> s.drop_last()[j] == 0);
            lemma_be_val_zero(s.drop_last());
        }
        Amount { be_bytes }
    }
}

/// Relies on `primitive_types::U256`: `from_big_endian` and `to_big_endian`
/// convert between a 256-bit integer and its 32 big-endian bytes, and
/// `checked_mul` multiplies, returning `None` exactly on overflow.
#[verifier::external_body]
pub(crate) fn u256_checked_mul(a: &Amount, b: &Amount) -> (r: Option<Amount>)
    ensures
        r is Some <==> a@ * b@ < amount_limit(),
        r matches Some(v) ==> v@ == a@ * b@,
{
    let x = primitive_types::U256::from_big_endian(&a.be_bytes);
    let y = primitive_types::U256::from_big_endian(&b.be_bytes);
    match x.checked_mul(y) {
        Some(z) => Some(Amount { be_bytes: z.to_big_endian() }),
        None => None,
    }
}

/// Relies on `primitive_types::U256`: `from_big_endian`, `to_big_endian`, and
/// `Div::div`, which is truncating division and panics only on a zero divisor.
#[verifier::external_body]
pub(crate) fn u256_div(a: &Amount, b: &Amount) -> (r: Amount)
    requires
        b@ != 0,
    ensures
        r@ == a@ / b@,
{
    let x = primitive_types::U256::from_big_endian(&a.be_bytes);
    let y = primitive_types::U256::from_big_endian(&b.be_bytes);
    Amount { be_bytes: (x / y).to_big_endian() }
}

/// Relies on `primitive_types::U256`: `from_big_endian` and `Ord`, which
/// orders values numerically.
#[verifier::external_body]
pub(crate) fn u256_gt(a: &Amount, b: &Amount) -> (r: bool)
    ensures
        r == (a@ > b@),
{
    let x = primitive_types::U256::from_big_endian(&a.be_bytes);
    let y = primitive_types::U256::from_big_endian(&b.be_bytes);
    x > y
}

} // verus!
