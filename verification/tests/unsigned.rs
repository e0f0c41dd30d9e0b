use chip8_core::unsigned::UnsignedNum;

#[test]
fn zero_and_one_at_every_width() {
    assert_eq!(<u8 as UnsignedNum>::zero(), 0);
    assert_eq!(<u8 as UnsignedNum>::one(), 1);
    assert_eq!(<u16 as UnsignedNum>::zero(), 0);
    assert_eq!(<u16 as UnsignedNum>::one(), 1);
    assert_eq!(<u32 as UnsignedNum>::zero(), 0);
    assert_eq!(<u32 as UnsignedNum>::one(), 1);
    assert_eq!(<u64 as UnsignedNum>::zero(), 0);
    assert_eq!(<u64 as UnsignedNum>::one(), 1);
    assert_eq!(<u128 as UnsignedNum>::zero(), 0);
    assert_eq!(<u128 as UnsignedNum>::one(), 1);
}

#[test]
fn checked_sum_is_none_exactly_on_overflow() {
    assert_eq!(UnsignedNum::sum_checked(200u8, 55u8), Some(255));
    assert_eq!(UnsignedNum::sum_checked(200u8, 56u8), None);
    assert_eq!(UnsignedNum::sum_checked(u16::MAX - 1, 1u16), Some(u16::MAX));
    assert_eq!(UnsignedNum::sum_checked(u16::MAX, 1u16), None);
    assert_eq!(UnsignedNum::sum_checked(4u32, 5u32), Some(9));
    assert_eq!(UnsignedNum::sum_checked(u32::MAX, 1u32), None);
    assert_eq!(UnsignedNum::sum_checked(4u64, 5u64), Some(9));
    assert_eq!(UnsignedNum::sum_checked(u64::MAX, u64::MAX), None);
    assert_eq!(UnsignedNum::sum_checked(4u128, 5u128), Some(9));
    assert_eq!(UnsignedNum::sum_checked(u128::MAX, 1u128), None);
}

#[test]
fn wrapping_sum_and_difference() {
    assert_eq!(UnsignedNum::sum_wrapping(200u8, 100u8), 44);
    assert_eq!(UnsignedNum::sum_wrapping(3u8, 4u8), 7);
    assert_eq!(UnsignedNum::sum_wrapping(u16::MAX, 3u16), 2);
    assert_eq!(UnsignedNum::sum_wrapping(u32::MAX, 3u32), 2);
    assert_eq!(UnsignedNum::sum_wrapping(u64::MAX, 3u64), 2);
    assert_eq!(UnsignedNum::sum_wrapping(u128::MAX, 3u128), 2);
    assert_eq!(UnsignedNum::difference_wrapping(3u8, 4u8), 255);
    assert_eq!(UnsignedNum::difference_wrapping(9u8, 4u8), 5);
    assert_eq!(UnsignedNum::difference_wrapping(0u16, 1u16), u16::MAX);
    assert_eq!(UnsignedNum::difference_wrapping(0u32, 1u32), u32::MAX);
    assert_eq!(UnsignedNum::difference_wrapping(0u64, 1u64), u64::MAX);
    assert_eq!(UnsignedNum::difference_wrapping(0u128, 1u128), u128::MAX);
}

#[test]
fn bit_operations_and_comparisons() {
    assert_eq!(UnsignedNum::or_bits(0b1100u8, 0b1010u8), 0b1110);
    assert_eq!(UnsignedNum::and_bits(0b1100u8, 0b1010u8), 0b1000);
    assert_eq!(UnsignedNum::xor_bits(0b1100u8, 0b1010u8), 0b0110);
    assert_eq!(UnsignedNum::shifted_right(0b1100u8, 2u8), 0b0011);
    assert_eq!(UnsignedNum::shifted_right(0xFFu8, 8u8), 0);
    assert_eq!(UnsignedNum::shifted_right(0xFFFFu16, 15u16), 1);
    assert_eq!(UnsignedNum::shifted_right(0xFFFFu16, 16u16), 0);
    assert_eq!(UnsignedNum::shifted_right(u32::MAX, 32u32), 0);
    assert_eq!(UnsignedNum::shifted_right(u64::MAX, 63u64), 1);
    assert!(UnsignedNum::exceeds(5u8, 4u8));
    assert!(!UnsignedNum::exceeds(4u8, 4u8));
    assert!(UnsignedNum::same(4u64, 4u64));
    assert!(!UnsignedNum::same(4u64, 5u64));
}
