//! 256-bit unsigned integers and 18-digit fixed-point decimals.
//!
//! Both types keep their number as four little-endian 64-bit limbs, the
//! layout of `cosmwasm_bignumber`'s types, whose arithmetic does the work.
use vstd::prelude::*;

verus! {

/// 2^64: the weight of one limb.
#[verifier::inline]
pub open spec fn word() -> nat {
    18446744073709551616
}

/// 2^256: the first number that a `Uint256` cannot hold.
#[verifier::inline]
pub open spec fn uint256_limit() -> nat {
    word() * word() * word() * word()
}

/// 10^18: the number of atomics in a decimal 1.0.
#[verifier::inline]
pub open spec fn decimal_fractional() -> nat {
    1_000_000_000_000_000_000
}

/// The number that four little-endian limbs stand for.
pub open spec fn limbs_value(l0: u64, l1: u64, l2: u64, l3: u64) -> nat {
    l0 as nat + l1 as nat * word() + l2 as nat * (word() * word()) + l3 as nat * (word() * word()
        * word())
}

/// An unsigned integer below 2^256, as four little-endian 64-bit limbs.
#[derive(Clone, Copy, Debug, PartialEq, Eq, Structural)]
pub struct Uint256 {
    pub limb0: u64,
    pub limb1: u64,
    pub limb2: u64,
    pub limb3: u64,
}

impl View for Uint256 {
    type V = nat;

    open spec fn view(&self) -> nat {
        limbs_value(self.limb0, self.limb1, self.limb2, self.limb3)
    }
}

/// A fixed-point decimal: its value is `atomics / 10^18`.
#[derive(Clone, Copy, Debug, PartialEq, Eq, Structural)]
pub struct Decimal256 {
    pub atomics: Uint256,
}

impl View for Decimal256 {
    /// The number of atomics (units of 10^-18).
    type V = nat;

    open spec fn view(&self) -> nat {
        self.atomics@
    }
}

/// Every value of a `Uint256` lies below 2^256.
pub proof fn lemma_uint256_bounded(a: Uint256)
    ensures
        a@ < uint256_limit(),
{
    let (l0, l1, l2, l3) = (a.limb0 as int, a.limb1 as int, a.limb2 as int, a.limb3 as int);
    assert(l0 + l1 * word() + l2 * (word() * word()) + l3 * (word() * word() * word()) < word()
        * word() * word() * word()) by (nonlinear_arith)
        requires
            0 <= l0 < word(),
            0 <= l1 < word(),
            0 <= l2 < word(),
            0 <= l3 < word(),
    ;
}

/// A number and a remainder below the base determine each other: if
/// `a + base * x == b + base * y` with both remainders below the base, the
/// remainders and the quotients agree.
proof fn lemma_digit_unique(a: int, x: int, b: int, y: int)
    requires
        0 <= a < word(),
        0 <= b < word(),
        0 <= x,
        0 <= y,
        a + word() * x == b + word() * y,
    ensures
        a == b,
        x == y,
{
    if x > y {
        assert(word() * x >= word() * y + word()) by (nonlinear_arith)
            requires
                x > y,
        ;
    } else if x < y {
        assert(word() * y >= word() * x + word()) by (nonlinear_arith)
            requires
                x < y,
        ;
    }
}

/// Two integers with the same value have the same limbs.
pub proof fn lemma_value_determines_limbs(a: Uint256, b: Uint256)
    requires
        a@ == b@,
    ensures
        a == b,
{
    let (a0, a1, a2, a3) = (a.limb0 as int, a.limb1 as int, a.limb2 as int, a.limb3 as int);
    let (b0, b1, b2, b3) = (b.limb0 as int, b.limb1 as int, b.limb2 as int, b.limb3 as int);
    assert(a@ == a0 + word() * (a1 + word() * (a2 + word() * a3))) by (nonlinear_arith)
        requires
            a@ == a0 + a1 * word() + a2 * (word() * word()) + a3 * (word() * word() * word()),
    ;
    assert(b@ == b0 + word() * (b1 + word() * (b2 + word() * b3))) by (nonlinear_arith)
        requires
            b@ == b0 + b1 * word() + b2 * (word() * word()) + b3 * (word() * word() * word()),
    ;
    assert(0 <= a2 + word() * a3 && 0 <= b2 + word() * b3) by (nonlinear_arith)
        requires
            0 <= a2,
            0 <= a3,
            0 <= b2,
            0 <= b3,
    ;
    assert(0 <= a1 + word() * (a2 + word() * a3) && 0 <= b1 + word() * (b2 + word() * b3))
        by (nonlinear_arith)
        requires
            0 <= a1,
            0 <= b1,
            0 <= a2 + word() * a3,
            0 <= b2 + word() * b3,
    ;
    lemma_digit_unique(
        a0,
        a1 + word() * (a2 + word() * a3),
        b0,
        b1 + word() * (b2 + word() * b3),
    );
    lemma_digit_unique(a1, a2 + word() * a3, b1, b2 + word() * b3);
    lemma_digit_unique(a2, a3, b2, b3);
}

/// `cosmwasm_bignumber::Uint256::from(u128)`: splits the number into its
/// low and high 64-bit halves, so the result has the same value.
#[verifier::external_body]
fn ext_uint256_from_u128(x: u128) -> (r: Uint256)
    ensures
        r@ == x as nat,
{
    let l = (cosmwasm_bignumber::Uint256::from(x).0).0;
    Uint256 { limb0: l[0], limb1: l[1], limb2: l[2], limb3: l[3] }
}

/// `Sub` of `cosmwasm_bignumber::Uint256`: it asserts that the left operand
/// is not below the right one (else it panics) and returns the difference.
#[verifier::external_body]
fn ext_uint256_sub(a: Uint256, b: Uint256) -> (r: Uint256)
    requires
        b@ <= a@,
    ensures
        r@ == a@ - b@,
{
    let r = cosmwasm_bignumber::Uint256(bigint::U256([a.limb0, a.limb1, a.limb2, a.limb3])) - cosmwasm_bignumber::Uint256(
        bigint::U256([b.limb0, b.limb1, b.limb2, b.limb3]),
    );
    Uint256 { limb0: (r.0).0[0], limb1: (r.0).0[1], limb2: (r.0).0[2], limb3: (r.0).0[3] }
}

/// `cosmwasm_bignumber::Decimal256::from_uint256`: multiplies the integer by
/// 10^18 with `bigint`'s checked `Mul`, which panics when the product does not
/// fit in 256 bits.
#[verifier::external_body]
fn ext_decimal_from_uint256(a: Uint256) -> (r: Decimal256)
    requires
        a@ * decimal_fractional() < uint256_limit(),
    ensures
        r@ == a@ * decimal_fractional(),
{
    let r = cosmwasm_bignumber::Decimal256::from_uint256(
        cosmwasm_bignumber::Uint256(bigint::U256([a.limb0, a.limb1, a.limb2, a.limb3])),
    );
    Decimal256 { atomics: Uint256 { limb0: (r.0).0[0], limb1: (r.0).0[1], limb2: (r.0).0[2], limb3: (r.0).0[3] } }
}

/// `Add` of `cosmwasm_bignumber::Decimal256`: adds the atomics; `bigint`
/// panics when the sum does not fit in 256 bits.
#[verifier::external_body]
fn ext_decimal_add(a: Decimal256, b: Decimal256) -> (r: Decimal256)
    requires
        a@ + b@ < uint256_limit(),
    ensures
        r@ == a@ + b@,
{
    let r = cosmwasm_bignumber::Decimal256(bigint::U256([a.atomics.limb0, a.atomics.limb1, a.atomics.limb2, a.atomics.limb3]))
        + cosmwasm_bignumber::Decimal256(bigint::U256([b.atomics.limb0, b.atomics.limb1, b.atomics.limb2, b.atomics.limb3]));
    Decimal256 { atomics: Uint256 { limb0: (r.0).0[0], limb1: (r.0).0[1], limb2: (r.0).0[2], limb3: (r.0).0[3] } }
}

/// `Sub` of `cosmwasm_bignumber::Decimal256`: asserts that the left operand is
/// not below the right one (else it panics) and subtracts the atomics.
#[verifier::external_body]
fn ext_decimal_sub(a: Decimal256, b: Decimal256) -> (r: Decimal256)
    requires
        b@ <= a@,
    ensures
        r@ == a@ - b@,
{
    let r = cosmwasm_bignumber::Decimal256(bigint::U256([a.atomics.limb0, a.atomics.limb1, a.atomics.limb2, a.atomics.limb3]))
        - cosmwasm_bignumber::Decimal256(bigint::U256([b.atomics.limb0, b.atomics.limb1, b.atomics.limb2, b.atomics.limb3]));
    Decimal256 { atomics: Uint256 { limb0: (r.0).0[0], limb1: (r.0).0[1], limb2: (r.0).0[2], limb3: (r.0).0[3] } }
}

/// `Mul` of `cosmwasm_bignumber::Decimal256`: multiplies the atomics with
/// `bigint`'s checked `Mul` (which panics when the full product does not fit in
/// 256 bits) and divides the product by 10^18, rounding down.
#[verifier::external_body]
fn ext_decimal_mul(a: Decimal256, b: Decimal256) -> (r: Decimal256)
    requires
        a@ * b@ < uint256_limit(),
    ensures
        r@ == a@ * b@ / decimal_fractional(),
{
    let r = cosmwasm_bignumber::Decimal256(bigint::U256([a.atomics.limb0, a.atomics.limb1, a.atomics.limb2, a.atomics.limb3]))
        * cosmwasm_bignumber::Decimal256(bigint::U256([b.atomics.limb0, b.atomics.limb1, b.atomics.limb2, b.atomics.limb3]));
    Decimal256 { atomics: Uint256 { limb0: (r.0).0[0], limb1: (r.0).0[1], limb2: (r.0).0[2], limb3: (r.0).0[3] } }
}

/// `>` of `cosmwasm_bignumber::Decimal256`: the derived order compares the
/// inner `U256`, whose `Ord` compares limbs from the most significant one
/// down, that is, it compares the numbers.
#[verifier::external_body]
fn ext_decimal_gt(a: Decimal256, b: Decimal256) -> (r: bool)
    ensures
        r == (a@ > b@),
{
    cosmwasm_bignumber::Decimal256(bigint::U256([a.atomics.limb0, a.atomics.limb1, a.atomics.limb2, a.atomics.limb3])) > cosmwasm_bignumber::Decimal256(
        bigint::U256([b.atomics.limb0, b.atomics.limb1, b.atomics.limb2, b.atomics.limb3]),
    )
}

/// `<=` of `cosmwasm_bignumber::Uint256`: the derived order compares the
/// inner `U256`, whose `Ord` compares limbs from the most significant one
/// down, that is, it compares the numbers.
#[verifier::external_body]
fn ext_uint256_le(a: Uint256, b: Uint256) -> (r: bool)
    ensures
        r == (a@ <= b@),
{
    cosmwasm_bignumber::Uint256(bigint::U256([a.limb0, a.limb1, a.limb2, a.limb3]))
        <= cosmwasm_bignumber::Uint256(bigint::U256([b.limb0, b.limb1, b.limb2, b.limb3]))
}

/// `bigint::U256::overflowing_add`: adds limb by limb with carries and
/// reports whether a carry left the top limb, that is, whether the sum
/// reaches 2^256; below that the result is the sum.
#[verifier::external_body]
fn ext_uint256_overflowing_add(a: Uint256, b: Uint256) -> (r: (Uint256, bool))
    ensures
        r.1 == (a@ + b@ >= uint256_limit()),
        !r.1 ==> r.0@ == a@ + b@,
{
    let (v, o) = bigint::U256([a.limb0, a.limb1, a.limb2, a.limb3]).overflowing_add(
        bigint::U256([b.limb0, b.limb1, b.limb2, b.limb3]),
    );
    (Uint256 { limb0: v.0[0], limb1: v.0[1], limb2: v.0[2], limb3: v.0[3] }, o)
}

/// `bigint::U256::overflowing_mul`: computes the full 512-bit product and
/// reports whether its upper half is non-zero, that is, whether the product
/// reaches 2^256; below that the result is the product.
#[verifier::external_body]
fn ext_uint256_overflowing_mul(a: Uint256, b: Uint256) -> (r: (Uint256, bool))
    ensures
        r.1 == (a@ * b@ >= uint256_limit()),
        !r.1 ==> r.0@ == a@ * b@,
{
    let (v, o) = bigint::U256([a.limb0, a.limb1, a.limb2, a.limb3]).overflowing_mul(
        bigint::U256([b.limb0, b.limb1, b.limb2, b.limb3]),
    );
    (Uint256 { limb0: v.0[0], limb1: v.0[1], limb2: v.0[2], limb3: v.0[3] }, o)
}

impl Uint256 {
    /// The integer 0.
    pub fn zero() -> (r: Uint256)
        ensures
            r@ == 0,
    {
        Uint256 { limb0: 0, limb1: 0, limb2: 0, limb3: 0 }
    }

    /// The integer with the given little-endian limbs.
    pub fn from_limbs(limbs: [u64; 4]) -> (r: Uint256)
        ensures
            r@ == limbs_value(limbs[0], limbs[1], limbs[2], limbs[3]),
    {
        Uint256 { limb0: limbs[0], limb1: limbs[1], limb2: limbs[2], limb3: limbs[3] }
    }

    /// The little-endian limbs of this integer.
    pub fn to_limbs(self) -> (r: [u64; 4])
        ensures
            self@ == limbs_value(r[0], r[1], r[2], r[3]),
    {
        [self.limb0, self.limb1, self.limb2, self.limb3]
    }

    /// The integer equal to `x`.
    pub fn from_u128(x: u128) -> (r: Uint256)
        ensures
            r@ == x as nat,
    {
        ext_uint256_from_u128(x)
    }

    /// Whether `self <= rhs`.
    pub fn le(self, rhs: Uint256) -> (r: bool)
        ensures
            r == (self@ <= rhs@),
    {
        ext_uint256_le(self, rhs)
    }

    /// `self + rhs`, or `None` where the sum does not fit in 256 bits.
    pub fn checked_add(self, rhs: Uint256) -> (r: Option<Uint256>)
        ensures
            r is None <==> self@ + rhs@ >= uint256_limit(),
            r matches Some(v) ==> v@ == self@ + rhs@,
    {
        let (v, overflow) = ext_uint256_overflowing_add(self, rhs);
        if overflow {
            None
        } else {
            Some(v)
        }
    }

    /// `self * rhs`, or `None` where the product does not fit in 256 bits.
    pub fn checked_mul(self, rhs: Uint256) -> (r: Option<Uint256>)
        ensures
            r is None <==> self@ * rhs@ >= uint256_limit(),
            r matches Some(v) ==> v@ == self@ * rhs@,
    {
        let (v, overflow) = ext_uint256_overflowing_mul(self, rhs);
        if overflow {
            None
        } else {
            Some(v)
        }
    }

    /// `self - rhs`; the subtraction is only defined when `rhs <= self`.
    pub fn sub(self, rhs: Uint256) -> (r: Uint256)
        requires
            rhs@ <= self@,
        ensures
            r@ == self@ - rhs@,
    {
        ext_uint256_sub(self, rhs)
    }
}

impl Decimal256 {
    /// The decimal 0.0.
    pub fn zero() -> (r: Decimal256)
        ensures
            r@ == 0,
    {
        Decimal256 { atomics: Uint256::zero() }
    }

    /// The decimal made of the given number of atomics (units of 10^-18).
    pub fn from_atomics(atomics: Uint256) -> (r: Decimal256)
        ensures
            r.atomics == atomics,
            r@ == atomics@,
    {
        Decimal256 { atomics }
    }

    /// The decimal equal to the integer `val`: `val * 10^18` atomics.
    pub fn from_uint256(val: Uint256) -> (r: Decimal256)
        requires
            val@ * decimal_fractional() < uint256_limit(),
        ensures
            r@ == val@ * decimal_fractional(),
    {
        ext_decimal_from_uint256(val)
    }

    /// `self + rhs`, defined when the sum fits in 256 bits of atomics.
    pub fn add(self, rhs: Decimal256) -> (r: Decimal256)
        requires
            self@ + rhs@ < uint256_limit(),
        ensures
            r@ == self@ + rhs@,
    {
        ext_decimal_add(self, rhs)
    }

    /// `self - rhs`, defined when `rhs <= self`.
    pub fn sub(self, rhs: Decimal256) -> (r: Decimal256)
        requires
            rhs@ <= self@,
        ensures
            r@ == self@ - rhs@,
    {
        ext_decimal_sub(self, rhs)
    }

    /// `self * rhs`, rounded down to whole atomics; defined when the product
    /// of the atomics fits in 256 bits.
    pub fn mul(self, rhs: Decimal256) -> (r: Decimal256)
        requires
            self@ * rhs@ < uint256_limit(),
        ensures
            r@ == self@ * rhs@ / decimal_fractional(),
    {
        ext_decimal_mul(self, rhs)
    }

    /// Whether `self > rhs`.
    pub fn gt(self, rhs: Decimal256) -> (r: bool)
        ensures
            r == (self@ > rhs@),
    {
        ext_decimal_gt(self, rhs)
    }
}

impl Default for Uint256 {
    fn default() -> (r: Uint256)
        ensures
            r@ == 0,
    {
        Uint256::zero()
    }
}

impl Default for Decimal256 {
    fn default() -> (r: Decimal256)
        ensures
            r@ == 0,
    {
        Decimal256::zero()
    }
}

} // verus!
