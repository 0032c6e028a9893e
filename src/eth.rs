//! Ethereum value types (`H160`, `H256`, `U256` of ethers) as Verus sees them,
//! with the arithmetic and comparisons that the pipeline needs.
use vstd::prelude::*;
use ethers::types::{H160, H256, U256};

verus! {

#[verifier::external_type_specification]
pub struct ExH160(H160);

#[verifier::external_type_specification]
pub struct ExH256(H256);

#[verifier::external_type_specification]
pub struct ExU256(U256);

/// Relies on the `Clone` that the `uint` crate derives for `U256`: a copy.
pub assume_specification[ <U256 as core::clone::Clone>::clone ](a: &U256) -> (r: U256)
    ensures
        r == *a,
;

/// Relies on the `Clone` of `H160` in `fixed-hash`: a copy of the bytes.
pub assume_specification[ <H160 as core::clone::Clone>::clone ](a: &H160) -> (r: H160)
    ensures
        r == *a,
;

/// Relies on the `Clone` of `H256` in `fixed-hash`: a copy of the bytes.
pub assume_specification[ <H256 as core::clone::Clone>::clone ](a: &H256) -> (r: H256)
    ensures
        r == *a,
;

/// 2^64, the radix of one limb of a `U256`.
pub open spec fn limb_base() -> nat {
    0x1_0000_0000_0000_0000
}

/// 2^256: every `U256` lies below it.
pub open spec fn u256_bound() -> nat {
    limb_base() * limb_base() * limb_base() * limb_base()
}

/// The number that a `U256` holds: its four limbs, least significant first.
pub open spec fn u256_value(x: U256) -> nat {
    x.0[0] as nat + limb_base() * (x.0[1] as nat + limb_base() * (x.0[2] as nat + limb_base()
        * x.0[3] as nat))
}

/// Relies on `U256::checked_sub` of the `uint` crate: `None` exactly when the
/// subtraction would go below zero, else the difference.
pub assume_specification[ U256::checked_sub ](a: U256, other: U256) -> (r: Option<U256>)
    ensures
        r is Some <==> u256_value(a) >= u256_value(other),
        r matches Some(d) ==> u256_value(d) == u256_value(a) - u256_value(other),
;

/// Relies on `U256::checked_mul` of the `uint` crate: `None` exactly when the
/// product does not fit in 256 bits, else the product.
pub assume_specification[ U256::checked_mul ](a: U256, other: U256) -> (r: Option<U256>)
    ensures
        r is Some <==> u256_value(a) * u256_value(other) < u256_bound(),
        r matches Some(p) ==> u256_value(p) == u256_value(a) * u256_value(other),
;

/// A `U256` that holds `x`.
pub fn u256_from_u64(x: u64) -> (r: U256)
    ensures
        r == U256([x, 0, 0, 0]),
        u256_value(r) == x,
{
    U256([x, 0, 0, 0])
}

/// `a < b`.
pub fn u256_lt(a: U256, b: U256) -> (r: bool)
    ensures
        r == (u256_value(a) < u256_value(b)),
{
    a.checked_sub(b).is_none()
}

/// `a - b`, or zero where `b` exceeds `a`.
pub fn u256_saturating_sub(a: U256, b: U256) -> (r: U256)
    ensures
        u256_value(r) == if u256_value(a) >= u256_value(b) {
            u256_value(a) - u256_value(b)
        } else {
            0
        },
{
    match a.checked_sub(b) {
        Some(d) => d,
        None => u256_from_u64(0),
    }
}

/// `a * k`, or `None` where the product does not fit in 256 bits.
pub fn u256_checked_mul_u64(a: U256, k: u64) -> (r: Option<U256>)
    ensures
        r is Some <==> u256_value(a) * k < u256_bound(),
        r matches Some(p) ==> u256_value(p) == u256_value(a) * k,
{
    a.checked_mul(u256_from_u64(k))
}

/// Whether two addresses are the same twenty bytes.
pub fn same_address(a: &H160, b: &H160) -> (r: bool)
    ensures
        r == (*a == *b),
{
    let mut i: usize = 0;
    while i < 20
        invariant
            i <= 20,
            forall|j: int| 0 <= j < i ==> a.0[j] == b.0[j],
        decreases 20 - i,
    {
        if a.0[i] != b.0[i] {
            return false;
        }
        i = i + 1;
    }
    assert(a.0 =~= b.0);
    true
}

/// Whether two hashes are the same thirty-two bytes.
pub fn same_hash(a: &H256, b: &H256) -> (r: bool)
    ensures
        r == (*a == *b),
{
    let mut i: usize = 0;
    while i < 32
        invariant
            i <= 32,
            forall|j: int| 0 <= j < i ==> a.0[j] == b.0[j],
        decreases 32 - i,
    {
        if a.0[i] != b.0[i] {
            return false;
        }
        i = i + 1;
    }
    assert(a.0 =~= b.0);
    true
}

} // verus!
