use jvm::arith::{
    iadd, idiv, imul, irem, ishl, ishr, isub, iushr, i2l, l2i, ladd, ldiv, lmul, lshl, lushr,
};
use jvm::value::JavaException;

#[test]
fn idiv_by_zero_raises_arithmetic_exception() {
    assert_eq!(idiv(5, 0), Err(JavaException::Arithmetic));
    assert_eq!(irem(5, 0), Err(JavaException::Arithmetic));
    assert_eq!(ldiv(5, 0), Err(JavaException::Arithmetic));
}

#[test]
fn idiv_min_by_minus_one_wraps() {
    assert_eq!(idiv(i32::MIN, -1), Ok(i32::MIN));
    assert_eq!(irem(i32::MIN, -1), Ok(0));
    assert_eq!(ldiv(i64::MIN, -1), Ok(i64::MIN));
}

#[test]
fn idiv_truncates_toward_zero() {
    assert_eq!(idiv(7, 2), Ok(3));
    assert_eq!(idiv(-7, 2), Ok(-3));
    assert_eq!(idiv(7, -2), Ok(-3));
    assert_eq!(idiv(-7, -2), Ok(3));
    assert_eq!(irem(-7, 2), Ok(-1));
    assert_eq!(irem(7, -2), Ok(1));
    assert_eq!(ldiv(-9, 4), Ok(-2));
}

#[test]
fn add_sub_mul_wrap() {
    assert_eq!(iadd(41, 1), 42);
    assert_eq!(iadd(i32::MAX, 1), i32::MIN);
    assert_eq!(isub(i32::MIN, 1), i32::MAX);
    assert_eq!(imul(65536, 65536), 0);
    assert_eq!(imul(-3, 7), -21);
    assert_eq!(imul(i32::MAX, 2), -2);
}

#[test]
fn shifts_mask_their_count() {
    assert_eq!(ishl(1, 33), 2);
    assert_eq!(ishl(1, 31), i32::MIN);
    assert_eq!(ishr(-8, 1), -4);
    assert_eq!(iushr(-1, 28), 15);
    assert_eq!(lshl(1, 65), 2);
    assert_eq!(lushr(-1, 60), 15);
    assert_eq!(lushr(-1, 64), -1);
    assert_eq!(lushr(256, 4), 16);
}

#[test]
fn int_long_conversions() {
    assert_eq!(i2l(-5), -5i64);
    assert_eq!(l2i(i2l(-5)), -5);
    assert_eq!(l2i(0x1_0000_0005), 5);
    assert_eq!(l2i(0xffff_ffff), -1);
    assert_eq!(i2l(l2i(123_456)), 123_456);
    assert_eq!(l2i(i64::MIN), 0);
}

#[test]
fn long_add_mul_wrap() {
    assert_eq!(ladd(i64::MAX, 1), i64::MIN);
    assert_eq!(ladd(-5, 3), -2);
    assert_eq!(lmul(1 << 32, 1 << 32), 0);
    assert_eq!(lmul(-4, 25), -100);
    assert_eq!(lmul(i64::MAX, 2), -2);
}
