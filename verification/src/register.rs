//! A register: one storage cell of a fixed unsigned width, with the wrapping
//! arithmetic and the carry, borrow and shift flags of the hardware.

use vstd::prelude::*;
pub use crate::unsigned::UnsignedNum;

verus! {

/// A storage cell holding one bit pattern of width `T`.
pub struct Register<T: UnsignedNum> {
    pub value: T,
}

impl<T: UnsignedNum> Register<T> {
    /// The register that holds `new_value`, whatever this one holds.
    pub open spec fn after_set(self, new_value: T) -> Self {
        Register { value: new_value }
    }

    /// A register holding zero.
    pub fn new() -> (r: Self)
        ensures
            r.value.number() == 0,
    {
        Register { value: T::zero() }
    }

    /// Overwrites the register.
    pub fn set(&mut self, new_value: T)
        ensures
            *final(self) == old(self).after_set(new_value),
    {
        self.value = new_value;
    }

    /// Reads the register, which stays as it is.
    pub fn get(&mut self) -> (v: T)
        ensures
            v == old(self).value,
            *final(self) == *old(self),
    {
        self.value
    }

    /// Copies the value of `reg` into this register.
    pub fn set_from_reg(&mut self, reg: &Register<T>)
        ensures
            *final(self) == *reg,
    {
        self.value = reg.value;
    }

    /// Adds `new_value` modulo the width; no flag is reported.
    pub fn add(&mut self, new_value: T)
        ensures
            final(self).value.number() == (old(self).value.number() + new_value.number())
                % T::modulus(),
    {
        self.value = self.value.sum_wrapping(new_value);
    }

    /// Subtracts the value of `reg` modulo the width.
    pub fn subtract(&mut self, reg: &Register<T>)
        ensures
            final(self).value.number() == (old(self).value.number() - reg.value.number()) % (
            T::modulus() as int),
    {
        self.value = self.value.difference_wrapping(reg.value);
    }

    /// Bitwise or with `value`.
    pub fn or(&mut self, value: T)
        ensures
            final(self).value == old(self).value.bit_or(value),
    {
        self.value = self.value.or_bits(value);
    }

    /// Bitwise and with `value`.
    pub fn and(&mut self, value: T)
        ensures
            final(self).value == old(self).value.bit_and(value),
    {
        self.value = self.value.and_bits(value);
    }

    /// Bitwise exclusive or with `value`.
    pub fn xor(&mut self, value: T)
        ensures
            final(self).value == old(self).value.bit_xor(value),
    {
        self.value = self.value.xor_bits(value);
    }

    /// Stores `value` shifted right by `shift_count` and returns the lowest
    /// bit of `value` as a flag.
    pub fn shr(&mut self, value: T, shift_count: T) -> (flag: T)
        ensures
            flag.number() == value.number() % 2,
            forall|one: T| one.number() == 1 ==> flag == #[trigger] value.bit_and(one),
            final(self).value == value.shift_right(shift_count),
            shift_count.number() == 1 ==> final(self).value.number() == value.number() / 2,
    {
        let one = T::one();
        let mut vf_flag = T::zero();
        if value.and_bits(one).same(one) {
            vf_flag = one;
        }
        self.value = value.shifted_right(shift_count);
        proof {
            T::low_bit_is_parity(value, one);
            T::value_is_faithful(value.bit_and(one), one);
            T::value_is_faithful(value.bit_and(one), vf_flag);
            if shift_count.number() == 1 {
                T::shift_by_one_halves(value, shift_count);
            }
            assert forall|other: T| other.number() == 1 implies vf_flag
                == #[trigger] value.bit_and(other) by {
                T::value_is_faithful(other, one);
            }
        }
        vf_flag
    }

    /// Adds `value` modulo the width. The flag is one where the sum fits the
    /// width, and zero where a carry left it.
    pub fn add_with_carry(&mut self, value: T) -> (flag: T)
        ensures
            flag.number() == (if old(self).value.number() + value.number() < T::modulus() {
                1nat
            } else {
                0nat
            }),
            final(self).value.number() == (old(self).value.number() + value.number())
                % T::modulus(),
    {
        let carry = self.value.sum_checked(value).is_none();
        self.value = self.value.sum_wrapping(value);
        if carry {
            T::zero()
        } else {
            T::one()
        }
    }

    /// Subtracts `value` modulo the width. The flag is one where `value` is
    /// larger than what the register held, so that a borrow was needed.
    pub fn sub_with_borrow(&mut self, value: T) -> (flag: T)
        ensures
            flag.number() == (if value.number() > old(self).value.number() {
                1nat
            } else {
                0nat
            }),
            final(self).value.number() == (old(self).value.number() - value.number()) % (
            T::modulus() as int),
    {
        let mut borrow = T::zero();
        if value.exceeds(self.value) {
            borrow = T::one();
        }
        let difference = self.value.difference_wrapping(value);
        self.set(difference);
        borrow
    }
}

/// At eight bits a pattern stands for the byte itself, there are 256
/// patterns, and the bit operations are those of the byte: so an 8-bit
/// register adds and subtracts modulo 256, its carry flag is one exactly
/// where the sum is at most 255, and a shift by one keeps `value >> 1` and
/// reports `value & 1`.
pub proof fn byte_register_model(a: u8, b: u8)
    ensures
        a.number() == a,
        u8::modulus() == 256,
        a.bit_or(b) == a | b,
        a.bit_and(b) == a & b,
        a.bit_xor(b) == a ^ b,
        a.shift_right(1) == a >> 1u8,
        (a & 1) as nat == a.number() % 2,
        (a >> 1u8) as nat == a.number() / 2,
{
    u8::low_bit_is_parity(a, 1);
    u8::shift_by_one_halves(a, 1);
}

/// What is written to a register is what is read from it next.
pub proof fn set_then_get<T: UnsignedNum>(register: Register<T>, v: T)
    ensures
        register.after_set(v).value == v,
{
}

} // verus!
