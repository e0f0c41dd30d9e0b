//! Fixed-width unsigned integers as storage for a register.
//!
//! [`UnsignedNum`] describes a width by two spec functions, the natural number
//! that a bit pattern stands for and the number of patterns of the width, and
//! offers the total operations a register needs. It is implemented for the
//! five unsigned widths of the language. Zero, one, checked and wrapping
//! addition come from `num_traits`; the rest is the language's own operators.

use vstd::prelude::*;

verus! {

/// An unsigned integer of a fixed width.
pub trait UnsignedNum: Copy + Sized {
    /// The natural number that the bit pattern stands for.
    spec fn number(self) -> nat;

    /// The number of bit patterns of the width: two to the power of its bits.
    spec fn modulus() -> nat;

    /// Bitwise or.
    spec fn bit_or(self, rhs: Self) -> Self;

    /// Bitwise and.
    spec fn bit_and(self, rhs: Self) -> Self;

    /// Bitwise exclusive or.
    spec fn bit_xor(self, rhs: Self) -> Self;

    /// The pattern moved right by `count` bits, zeros coming in at the top;
    /// zero once `count` reaches the width.
    spec fn shift_right(self, count: Self) -> Self;

    /// Every pattern stands for a number below the modulus, and no two
    /// patterns stand for the same number.
    proof fn value_is_faithful(a: Self, b: Self)
        ensures
            a.number() < Self::modulus(),
            a.number() == b.number() ==> a == b,
    ;

    /// The lowest bit of a pattern is its number's remainder modulo two, as a
    /// pattern.
    proof fn low_bit_is_parity(a: Self, one: Self)
        requires
            one.number() == 1,
        ensures
            a.bit_and(one).number() == a.number() % 2,
    ;

    /// Shifting right by one halves the number.
    proof fn shift_by_one_halves(a: Self, one: Self)
        requires
            one.number() == 1,
        ensures
            a.shift_right(one).number() == a.number() / 2,
    ;

    fn zero() -> (r: Self)
        ensures
            r.number() == 0,
    ;

    fn one() -> (r: Self)
        ensures
            r.number() == 1,
    ;

    /// The sum, where it fits the width.
    fn sum_checked(self, rhs: Self) -> (r: Option<Self>)
        ensures
            r.is_some() <==> self.number() + rhs.number() < Self::modulus(),
            r.is_some() ==> r.unwrap().number() == self.number() + rhs.number(),
    ;

    /// The sum modulo the modulus.
    fn sum_wrapping(self, rhs: Self) -> (r: Self)
        ensures
            r.number() == (self.number() + rhs.number()) % Self::modulus(),
    ;

    /// The difference modulo the modulus.
    fn difference_wrapping(self, rhs: Self) -> (r: Self)
        ensures
            r.number() == (self.number() - rhs.number()) % (Self::modulus() as int),
    ;

    fn or_bits(self, rhs: Self) -> (r: Self)
        ensures
            r == self.bit_or(rhs),
    ;

    fn and_bits(self, rhs: Self) -> (r: Self)
        ensures
            r == self.bit_and(rhs),
    ;

    fn xor_bits(self, rhs: Self) -> (r: Self)
        ensures
            r == self.bit_xor(rhs),
    ;

    fn shifted_right(self, count: Self) -> (r: Self)
        ensures
            r == self.shift_right(count),
    ;

    fn exceeds(self, rhs: Self) -> (r: bool)
        ensures
            r == (self.number() > rhs.number()),
    ;

    fn same(self, rhs: Self) -> (r: bool)
        ensures
            r == (self == rhs),
    ;
}

/// `num_traits::zero` at `u8`: the number zero.
#[verifier::external_body]
fn zero_u8() -> (r: u8)
    ensures
        r == 0,
{
    num_traits::zero::<u8>()
}

/// `num_traits::one` at `u8`: the number one.
#[verifier::external_body]
fn one_u8() -> (r: u8)
    ensures
        r == 1,
{
    num_traits::one::<u8>()
}

/// `num_traits::CheckedAdd::checked_add` at `u8`: the sum where it is at most
/// `u8::MAX`, and nothing where it is larger.
#[verifier::external_body]
fn checked_add_u8(a: u8, b: u8) -> (r: Option<u8>)
    ensures
        r == (if a + b > u8::MAX { None } else { Some((a + b) as u8) }),
{
    num_traits::CheckedAdd::checked_add(&a, &b)
}

/// `num_traits::WrappingAdd::wrapping_add` at `u8`: the sum, less
/// `u8::MAX + 1` where it is larger than `u8::MAX`.
#[verifier::external_body]
fn wrapping_add_u8(a: u8, b: u8) -> (r: u8)
    ensures
        r == (if a + b > u8::MAX { a + b - u8::MAX - 1 } else { a + b }),
{
    num_traits::WrappingAdd::wrapping_add(&a, &b)
}

impl UnsignedNum for u8 {
    open spec fn number(self) -> nat {
        self as nat
    }

    open spec fn modulus() -> nat {
        0x100nat
    }

    open spec fn bit_or(self, rhs: u8) -> u8 {
        self | rhs
    }

    open spec fn bit_and(self, rhs: u8) -> u8 {
        self & rhs
    }

    open spec fn bit_xor(self, rhs: u8) -> u8 {
        self ^ rhs
    }

    open spec fn shift_right(self, count: u8) -> u8 {
        if count < 8 {
            self >> count
        } else {
            0
        }
    }

    proof fn value_is_faithful(a: u8, b: u8) {
    }

    proof fn low_bit_is_parity(a: u8, one: u8) {
        assert(a & 1 == a % 2) by (bit_vector);
    }

    proof fn shift_by_one_halves(a: u8, one: u8) {
        assert(a >> 1 == a / 2) by (bit_vector);
    }

    fn zero() -> (r: u8) {
        zero_u8()
    }

    fn one() -> (r: u8) {
        one_u8()
    }

    fn sum_checked(self, rhs: u8) -> (r: Option<u8>) {
        checked_add_u8(self, rhs)
    }

    fn sum_wrapping(self, rhs: u8) -> (r: u8) {
        wrapping_add_u8(self, rhs)
    }

    fn difference_wrapping(self, rhs: u8) -> (r: u8) {
        self.wrapping_sub(rhs)
    }

    fn or_bits(self, rhs: u8) -> (r: u8) {
        self | rhs
    }

    fn and_bits(self, rhs: u8) -> (r: u8) {
        self & rhs
    }

    fn xor_bits(self, rhs: u8) -> (r: u8) {
        self ^ rhs
    }

    fn shifted_right(self, count: u8) -> (r: u8) {
        if count < 8 {
            self >> count
        } else {
            0
        }
    }

    fn exceeds(self, rhs: u8) -> (r: bool) {
        self > rhs
    }

    fn same(self, rhs: u8) -> (r: bool) {
        self == rhs
    }
}

/// `num_traits::zero` at `u16`: the number zero.
#[verifier::external_body]
fn zero_u16() -> (r: u16)
    ensures
        r == 0,
{
    num_traits::zero::<u16>()
}

/// `num_traits::one` at `u16`: the number one.
#[verifier::external_body]
fn one_u16() -> (r: u16)
    ensures
        r == 1,
{
    num_traits::one::<u16>()
}

/// `num_traits::CheckedAdd::checked_add` at `u16`: the sum where it is at most
/// `u16::MAX`, and nothing where it is larger.
#[verifier::external_body]
fn checked_add_u16(a: u16, b: u16) -> (r: Option<u16>)
    ensures
        r == (if a + b > u16::MAX { None } else { Some((a + b) as u16) }),
{
    num_traits::CheckedAdd::checked_add(&a, &b)
}

/// `num_traits::WrappingAdd::wrapping_add` at `u16`: the sum, less
/// `u16::MAX + 1` where it is larger than `u16::MAX`.
#[verifier::external_body]
fn wrapping_add_u16(a: u16, b: u16) -> (r: u16)
    ensures
        r == (if a + b > u16::MAX { a + b - u16::MAX - 1 } else { a + b }),
{
    num_traits::WrappingAdd::wrapping_add(&a, &b)
}

impl UnsignedNum for u16 {
    open spec fn number(self) -> nat {
        self as nat
    }

    open spec fn modulus() -> nat {
        0x1_0000nat
    }

    open spec fn bit_or(self, rhs: u16) -> u16 {
        self | rhs
    }

    open spec fn bit_and(self, rhs: u16) -> u16 {
        self & rhs
    }

    open spec fn bit_xor(self, rhs: u16) -> u16 {
        self ^ rhs
    }

    open spec fn shift_right(self, count: u16) -> u16 {
        if count < 16 {
            self >> count
        } else {
            0
        }
    }

    proof fn value_is_faithful(a: u16, b: u16) {
    }

    proof fn low_bit_is_parity(a: u16, one: u16) {
        assert(a & 1 == a % 2) by (bit_vector);
    }

    proof fn shift_by_one_halves(a: u16, one: u16) {
        assert(a >> 1 == a / 2) by (bit_vector);
    }

    fn zero() -> (r: u16) {
        zero_u16()
    }

    fn one() -> (r: u16) {
        one_u16()
    }

    fn sum_checked(self, rhs: u16) -> (r: Option<u16>) {
        checked_add_u16(self, rhs)
    }

    fn sum_wrapping(self, rhs: u16) -> (r: u16) {
        wrapping_add_u16(self, rhs)
    }

    fn difference_wrapping(self, rhs: u16) -> (r: u16) {
        self.wrapping_sub(rhs)
    }

    fn or_bits(self, rhs: u16) -> (r: u16) {
        self | rhs
    }

    fn and_bits(self, rhs: u16) -> (r: u16) {
        self & rhs
    }

    fn xor_bits(self, rhs: u16) -> (r: u16) {
        self ^ rhs
    }

    fn shifted_right(self, count: u16) -> (r: u16) {
        if count < 16 {
            self >> count
        } else {
            0
        }
    }

    fn exceeds(self, rhs: u16) -> (r: bool) {
        self > rhs
    }

    fn same(self, rhs: u16) -> (r: bool) {
        self == rhs
    }
}

/// `num_traits::zero` at `u32`: the number zero.
#[verifier::external_body]
fn zero_u32() -> (r: u32)
    ensures
        r == 0,
{
    num_traits::zero::<u32>()
}

/// `num_traits::one` at `u32`: the number one.
#[verifier::external_body]
fn one_u32() -> (r: u32)
    ensures
        r == 1,
{
    num_traits::one::<u32>()
}

/// `num_traits::CheckedAdd::checked_add` at `u32`: the sum where it is at most
/// `u32::MAX`, and nothing where it is larger.
#[verifier::external_body]
fn checked_add_u32(a: u32, b: u32) -> (r: Option<u32>)
    ensures
        r == (if a + b > u32::MAX { None } else { Some((a + b) as u32) }),
{
    num_traits::CheckedAdd::checked_add(&a, &b)
}

/// `num_traits::WrappingAdd::wrapping_add` at `u32`: the sum, less
/// `u32::MAX + 1` where it is larger than `u32::MAX`.
#[verifier::external_body]
fn wrapping_add_u32(a: u32, b: u32) -> (r: u32)
    ensures
        r == (if a + b > u32::MAX { a + b - u32::MAX - 1 } else { a + b }),
{
    num_traits::WrappingAdd::wrapping_add(&a, &b)
}

impl UnsignedNum for u32 {
    open spec fn number(self) -> nat {
        self as nat
    }

    open spec fn modulus() -> nat {
        0x1_0000_0000nat
    }

    open spec fn bit_or(self, rhs: u32) -> u32 {
        self | rhs
    }

    open spec fn bit_and(self, rhs: u32) -> u32 {
        self & rhs
    }

    open spec fn bit_xor(self, rhs: u32) -> u32 {
        self ^ rhs
    }

    open spec fn shift_right(self, count: u32) -> u32 {
        if count < 32 {
            self >> count
        } else {
            0
        }
    }

    proof fn value_is_faithful(a: u32, b: u32) {
    }

    proof fn low_bit_is_parity(a: u32, one: u32) {
        assert(a & 1 == a % 2) by (bit_vector);
    }

    proof fn shift_by_one_halves(a: u32, one: u32) {
        assert(a >> 1 == a / 2) by (bit_vector);
    }

    fn zero() -> (r: u32) {
        zero_u32()
    }

    fn one() -> (r: u32) {
        one_u32()
    }

    fn sum_checked(self, rhs: u32) -> (r: Option<u32>) {
        checked_add_u32(self, rhs)
    }

    fn sum_wrapping(self, rhs: u32) -> (r: u32) {
        wrapping_add_u32(self, rhs)
    }

    fn difference_wrapping(self, rhs: u32) -> (r: u32) {
        self.wrapping_sub(rhs)
    }

    fn or_bits(self, rhs: u32) -> (r: u32) {
        self | rhs
    }

    fn and_bits(self, rhs: u32) -> (r: u32) {
        self & rhs
    }

    fn xor_bits(self, rhs: u32) -> (r: u32) {
        self ^ rhs
    }

    fn shifted_right(self, count: u32) -> (r: u32) {
        if count < 32 {
            self >> count
        } else {
            0
        }
    }

    fn exceeds(self, rhs: u32) -> (r: bool) {
        self > rhs
    }

    fn same(self, rhs: u32) -> (r: bool) {
        self == rhs
    }
}

/// `num_traits::zero` at `u64`: the number zero.
#[verifier::external_body]
fn zero_u64() -> (r: u64)
    ensures
        r == 0,
{
    num_traits::zero::<u64>()
}

/// `num_traits::one` at `u64`: the number one.
#[verifier::external_body]
fn one_u64() -> (r: u64)
    ensures
        r == 1,
{
    num_traits::one::<u64>()
}

/// `num_traits::CheckedAdd::checked_add` at `u64`: the sum where it is at most
/// `u64::MAX`, and nothing where it is larger.
#[verifier::external_body]
fn checked_add_u64(a: u64, b: u64) -> (r: Option<u64>)
    ensures
        r == (if a + b > u64::MAX { None } else { Some((a + b) as u64) }),
{
    num_traits::CheckedAdd::checked_add(&a, &b)
}

/// `num_traits::WrappingAdd::wrapping_add` at `u64`: the sum, less
/// `u64::MAX + 1` where it is larger than `u64::MAX`.
#[verifier::external_body]
fn wrapping_add_u64(a: u64, b: u64) -> (r: u64)
    ensures
        r == (if a + b > u64::MAX { a + b - u64::MAX - 1 } else { a + b }),
{
    num_traits::WrappingAdd::wrapping_add(&a, &b)
}

impl UnsignedNum for u64 {
    open spec fn number(self) -> nat {
        self as nat
    }

    open spec fn modulus() -> nat {
        0x1_0000_0000_0000_0000nat
    }

    open spec fn bit_or(self, rhs: u64) -> u64 {
        self | rhs
    }

    open spec fn bit_and(self, rhs: u64) -> u64 {
        self & rhs
    }

    open spec fn bit_xor(self, rhs: u64) -> u64 {
        self ^ rhs
    }

    open spec fn shift_right(self, count: u64) -> u64 {
        if count < 64 {
            self >> count
        } else {
            0
        }
    }

    proof fn value_is_faithful(a: u64, b: u64) {
    }

    proof fn low_bit_is_parity(a: u64, one: u64) {
        assert(a & 1 == a % 2) by (bit_vector);
    }

    proof fn shift_by_one_halves(a: u64, one: u64) {
        assert(a >> 1 == a / 2) by (bit_vector);
    }

    fn zero() -> (r: u64) {
        zero_u64()
    }

    fn one() -> (r: u64) {
        one_u64()
    }

    fn sum_checked(self, rhs: u64) -> (r: Option<u64>) {
        checked_add_u64(self, rhs)
    }

    fn sum_wrapping(self, rhs: u64) -> (r: u64) {
        wrapping_add_u64(self, rhs)
    }

    fn difference_wrapping(self, rhs: u64) -> (r: u64) {
        self.wrapping_sub(rhs)
    }

    fn or_bits(self, rhs: u64) -> (r: u64) {
        self | rhs
    }

    fn and_bits(self, rhs: u64) -> (r: u64) {
        self & rhs
    }

    fn xor_bits(self, rhs: u64) -> (r: u64) {
        self ^ rhs
    }

    fn shifted_right(self, count: u64) -> (r: u64) {
        if count < 64 {
            self >> count
        } else {
            0
        }
    }

    fn exceeds(self, rhs: u64) -> (r: bool) {
        self > rhs
    }

    fn same(self, rhs: u64) -> (r: bool) {
        self == rhs
    }
}

/// `num_traits::zero` at `u128`: the number zero.
#[verifier::external_body]
fn zero_u128() -> (r: u128)
    ensures
        r == 0,
{
    num_traits::zero::<u128>()
}

/// `num_traits::one` at `u128`: the number one.
#[verifier::external_body]
fn one_u128() -> (r: u128)
    ensures
        r == 1,
{
    num_traits::one::<u128>()
}

/// `num_traits::CheckedAdd::checked_add` at `u128`: the sum where it is at most
/// `u128::MAX`, and nothing where it is larger.
#[verifier::external_body]
fn checked_add_u128(a: u128, b: u128) -> (r: Option<u128>)
    ensures
        r == (if a + b > u128::MAX { None } else { Some((a + b) as u128) }),
{
    num_traits::CheckedAdd::checked_add(&a, &b)
}

/// `num_traits::WrappingAdd::wrapping_add` at `u128`: the sum, less
/// `u128::MAX + 1` where it is larger than `u128::MAX`.
#[verifier::external_body]
fn wrapping_add_u128(a: u128, b: u128) -> (r: u128)
    ensures
        r == (if a + b > u128::MAX { a + b - u128::MAX - 1 } else { a + b }),
{
    num_traits::WrappingAdd::wrapping_add(&a, &b)
}

impl UnsignedNum for u128 {
    open spec fn number(self) -> nat {
        self as nat
    }

    open spec fn modulus() -> nat {
        0x1_0000_0000_0000_0000_0000_0000_0000_0000nat
    }

    open spec fn bit_or(self, rhs: u128) -> u128 {
        self | rhs
    }

    open spec fn bit_and(self, rhs: u128) -> u128 {
        self & rhs
    }

    open spec fn bit_xor(self, rhs: u128) -> u128 {
        self ^ rhs
    }

    open spec fn shift_right(self, count: u128) -> u128 {
        if count < 128 {
            self >> count
        } else {
            0
        }
    }

    proof fn value_is_faithful(a: u128, b: u128) {
    }

    proof fn low_bit_is_parity(a: u128, one: u128) {
        assert(a & 1 == a % 2) by (bit_vector);
    }

    proof fn shift_by_one_halves(a: u128, one: u128) {
        assert(a >> 1 == a / 2) by (bit_vector);
    }

    fn zero() -> (r: u128) {
        zero_u128()
    }

    fn one() -> (r: u128) {
        one_u128()
    }

    fn sum_checked(self, rhs: u128) -> (r: Option<u128>) {
        checked_add_u128(self, rhs)
    }

    fn sum_wrapping(self, rhs: u128) -> (r: u128) {
        wrapping_add_u128(self, rhs)
    }

    fn difference_wrapping(self, rhs: u128) -> (r: u128) {
        self.wrapping_sub(rhs)
    }

    fn or_bits(self, rhs: u128) -> (r: u128) {
        self | rhs
    }

    fn and_bits(self, rhs: u128) -> (r: u128) {
        self & rhs
    }

    fn xor_bits(self, rhs: u128) -> (r: u128) {
        self ^ rhs
    }

    fn shifted_right(self, count: u128) -> (r: u128) {
        if count < 128 {
            self >> count
        } else {
            0
        }
    }

    fn exceeds(self, rhs: u128) -> (r: bool) {
        self > rhs
    }

    fn same(self, rhs: u128) -> (r: bool) {
        self == rhs
    }
}

} // verus!
