use vstd::prelude::*;
use crate::value::JavaException;

verus! {

/// Integer division rounding toward zero, on mathematical integers.
pub open spec fn trunc_div(x: int, d: int) -> int {
    if x == 0 {
        0
    } else if x > 0 && d > 0 {
        x / d
    } else if x < 0 && d < 0 {
        (x * -1) / (d * -1)
    } else if x < 0 {
        ((x * -1) / d) * -1
    } else {
        (x / (d * -1)) * -1
    }
}

/// Remainder whose sign follows the dividend, on mathematical integers.
pub open spec fn trunc_rem(x: int, d: int) -> int {
    x - d * trunc_div(x, d)
}

proof fn lemma_div_bounds(x: int, d: int)
    requires
        0 <= x,
        1 <= d,
    ensures
        0 <= x / d <= x,
        d >= 2 ==> 2 * (x / d) <= x,
{
    assert(0 <= x / d <= x) by (nonlinear_arith)
        requires
            0 <= x,
            1 <= d,
    ;
    if d >= 2 {
        assert(2 * (x / d) <= x) by (nonlinear_arith)
            requires
                0 <= x,
                2 <= d,
        ;
    }
}

/// A truncated quotient of two values in `[min, -min - 1]` stays in that
/// range, but for `min / -1`.
proof fn lemma_trunc_div_fits(x: int, d: int, min: int)
    requires
        min < 0,
        min <= x <= -min - 1,
        min <= d <= -min - 1,
        d != 0,
        !(x == min && d == -1),
    ensures
        min <= trunc_div(x, d) <= -min - 1,
{
    if x > 0 && d > 0 {
        lemma_div_bounds(x, d);
    } else if x < 0 && d < 0 {
        lemma_div_bounds(-x, -d);
    } else if x < 0 && d > 0 {
        lemma_div_bounds(-x, d);
    } else if x > 0 {
        lemma_div_bounds(x, -d);
    }
}

/// `idiv`: an `ArithmeticException` on a zero divisor; the one overflowing
/// quotient, `i32::MIN / -1`, wraps to `i32::MIN`.
pub fn idiv(a: i32, b: i32) -> (r: Result<i32, JavaException>)
    ensures
        b == 0 ==> r == Err::<i32, JavaException>(JavaException::Arithmetic),
        b != 0 && a == i32::MIN && b == -1 ==> r == Ok::<i32, JavaException>(i32::MIN),
        b != 0 && !(a == i32::MIN && b == -1) ==> r is Ok && r->Ok_0 as int == trunc_div(
            a as int,
            b as int,
        ),
{
    if b == 0 {
        Err(JavaException::Arithmetic)
    } else if a == i32::MIN && b == -1 {
        Ok(i32::MIN)
    } else {
        proof {
            lemma_trunc_div_fits(a as int, b as int, i32::MIN as int);
        }
        match a.checked_div(b) {
            Some(q) => Ok(q),
            None => Ok(i32::MIN),
        }
    }
}

/// `irem`: an `ArithmeticException` on a zero divisor; `i32::MIN % -1` is 0.
pub fn irem(a: i32, b: i32) -> (r: Result<i32, JavaException>)
    ensures
        b == 0 ==> r == Err::<i32, JavaException>(JavaException::Arithmetic),
        b != 0 ==> r is Ok && r->Ok_0 as int == trunc_rem(a as int, b as int),
{
    if b == 0 {
        Err(JavaException::Arithmetic)
    } else if a == i32::MIN && b == -1 {
        Ok(0)
    } else {
        proof {
            lemma_trunc_div_fits(a as int, b as int, i32::MIN as int);
        }
        match a.checked_div(b) {
            Some(q) => {
                proof {
                    lemma_rem_fits(a as int, b as int, i32::MIN as int);
                }
                Ok(a - b * q)
            },
            None => Ok(0),
        }
    }
}

proof fn lemma_rem_fits(x: int, d: int, min: int)
    requires
        min < 0,
        min <= x <= -min - 1,
        min <= d <= -min - 1,
        d != 0,
        !(x == min && d == -1),
    ensures
        min <= d * trunc_div(x, d) <= -min - 1,
        min <= trunc_rem(x, d) <= -min - 1,
{
    let q = trunc_div(x, d);
    if x > 0 && d > 0 {
        assert(0 <= d * (x / d) <= x && x - d * (x / d) < d) by (nonlinear_arith)
            requires
                x > 0,
                d > 0,
        ;
    } else if x < 0 && d < 0 {
        let (px, pd) = (-x, -d);
        assert(0 <= pd * (px / pd) <= px && px - pd * (px / pd) < pd) by (nonlinear_arith)
            requires
                px > 0,
                pd > 0,
        ;
        assert(d * q == -(pd * (px / pd))) by (nonlinear_arith)
            requires
                q == px / pd,
                pd == -d,
        ;
    } else if x < 0 {
        let px = -x;
        assert(0 <= d * (px / d) <= px && px - d * (px / d) < d) by (nonlinear_arith)
            requires
                px > 0,
                d > 0,
        ;
        assert(d * q == -(d * (px / d))) by (nonlinear_arith)
            requires
                q == -(px / d),
        ;
    } else if x > 0 {
        let pd = -d;
        assert(0 <= pd * (x / pd) <= x && x - pd * (x / pd) < pd) by (nonlinear_arith)
            requires
                x > 0,
                pd > 0,
        ;
        assert(d * q == pd * (x / pd)) by (nonlinear_arith)
            requires
                q == -(x / pd),
                pd == -d,
        ;
    }
}

/// `ldiv`: `idiv` on 64-bit values.
pub fn ldiv(a: i64, b: i64) -> (r: Result<i64, JavaException>)
    ensures
        b == 0 ==> r == Err::<i64, JavaException>(JavaException::Arithmetic),
        b != 0 && a == i64::MIN && b == -1 ==> r == Ok::<i64, JavaException>(i64::MIN),
        b != 0 && !(a == i64::MIN && b == -1) ==> r is Ok && r->Ok_0 as int == trunc_div(
            a as int,
            b as int,
        ),
{
    if b == 0 {
        Err(JavaException::Arithmetic)
    } else if a == i64::MIN && b == -1 {
        Ok(i64::MIN)
    } else {
        proof {
            lemma_trunc_div_fits(a as int, b as int, i64::MIN as int);
        }
        match a.checked_div(b) {
            Some(q) => Ok(q),
            None => Ok(i64::MIN),
        }
    }
}

/// `x` reduced to the 32-bit two's-complement range.
pub open spec fn wrap32(x: int) -> int {
    let m = x % 0x1_0000_0000;
    if m > i32::MAX { m - 0x1_0000_0000 } else { m }
}

/// `x` reduced to the 64-bit two's-complement range.
pub open spec fn wrap64(x: int) -> int {
    let m = x % 0x1_0000_0000_0000_0000;
    if m > i64::MAX { m - 0x1_0000_0000_0000_0000 } else { m }
}

/// `iadd`: two's-complement addition.
pub fn iadd(a: i32, b: i32) -> (r: i32)
    ensures
        r as int == wrap32(a + b),
{
    let s: i64 = a as i64 + b as i64;
    if s > i32::MAX as i64 {
        (s - 0x1_0000_0000) as i32
    } else if s < i32::MIN as i64 {
        (s + 0x1_0000_0000) as i32
    } else {
        s as i32
    }
}

/// `isub`: two's-complement subtraction.
pub fn isub(a: i32, b: i32) -> (r: i32)
    ensures
        r as int == wrap32(a - b),
{
    let s: i64 = a as i64 - b as i64;
    if s > i32::MAX as i64 {
        (s - 0x1_0000_0000) as i32
    } else if s < i32::MIN as i64 {
        (s + 0x1_0000_0000) as i32
    } else {
        s as i32
    }
}

/// `ladd`: two's-complement addition of longs.
pub fn ladd(a: i64, b: i64) -> (r: i64)
    ensures
        r as int == wrap64(a + b),
{
    reduce64(a as i128 + b as i128)
}

/// `lmul`: two's-complement multiplication of longs.
pub fn lmul(a: i64, b: i64) -> (r: i64)
    ensures
        r as int == wrap64(a * b),
{
    assert(-0x4000_0000_0000_0000_0000_0000_0000_0000 <= a * b <= 0x4000_0000_0000_0000_0000_0000_0000_0000)
        by (nonlinear_arith)
        requires
            i64::MIN <= a <= i64::MAX,
            i64::MIN <= b <= i64::MAX,
    ;
    reduce64(a as i128 * b as i128)
}

fn reduce64(x: i128) -> (r: i64)
    ensures
        r as int == wrap64(x as int),
{
    match x.checked_rem_euclid(0x1_0000_0000_0000_0000) {
        Some(m) => {
            if m > i64::MAX as i128 {
                (m - 0x1_0000_0000_0000_0000) as i64
            } else {
                m as i64
            }
        },
        None => 0,
    }
}

/// `ishl`: the shift count is masked to its low five bits.
pub fn ishl(x: i32, n: i32) -> (r: i32)
    ensures
        r == x << ((n & 0x1f) as u32),
{
    let s: i32 = n & 0x1f;
    assert(0 <= s < 32) by (bit_vector)
        requires
            s == n & 0x1f,
    ;
    x << (s as u32)
}

/// `ishr`: arithmetic right shift, count masked to five bits.
pub fn ishr(x: i32, n: i32) -> (r: i32)
    ensures
        r == x >> ((n & 0x1f) as u32),
{
    let s: i32 = n & 0x1f;
    assert(0 <= s < 32) by (bit_vector)
        requires
            s == n & 0x1f,
    ;
    x >> (s as u32)
}

/// `iushr`: logical right shift, count masked to five bits.
pub fn iushr(x: i32, n: i32) -> (r: i32)
    ensures
        r == ((x as u32) >> ((n & 0x1f) as u32)) as i32,
{
    let s: i32 = n & 0x1f;
    assert(0 <= s < 32) by (bit_vector)
        requires
            s == n & 0x1f,
    ;
    let bits: u32 = #[verifier::truncate] (x as u32);
    #[verifier::truncate] ((bits >> (s as u32)) as i32)
}

/// `lshl`: the shift count is masked to its low six bits.
pub fn lshl(x: i64, n: i32) -> (r: i64)
    ensures
        r == x << ((n & 0x3f) as u64),
{
    let s: i32 = n & 0x3f;
    assert(0 <= s < 64) by (bit_vector)
        requires
            s == n & 0x3f,
    ;
    x << (s as u64)
}

/// `lushr`: logical right shift of the 64-bit pattern, count masked to six
/// bits.
pub fn lushr(x: i64, n: i32) -> (r: i64)
    ensures
        r == ((x as u64) >> ((n & 0x3f) as u64)) as i64,
{
    let s: i32 = n & 0x3f;
    assert(0 <= s < 64) by (bit_vector)
        requires
            s == n & 0x3f,
    ;
    let bits: u64 = #[verifier::truncate] (x as u64);
    #[verifier::truncate] ((bits >> (s as u64)) as i64)
}

/// `i2l`: sign extension.
pub fn i2l(x: i32) -> (r: i64)
    ensures
        r as int == x as int,
{
    x as i64
}

/// `l2i`: keeps the low 32 bits.
pub fn l2i(x: i64) -> (r: i32)
    ensures
        r as int == wrap32(x as int),
{
    reduce32(x)
}

/// `imul`: two's-complement multiplication.
pub fn imul(a: i32, b: i32) -> (r: i32)
    ensures
        r as int == wrap32(a * b),
{
    assert(-0x4000_0000_0000_0000 <= a * b <= 0x4000_0000_0000_0000) by (nonlinear_arith)
        requires
            i32::MIN <= a <= i32::MAX,
            i32::MIN <= b <= i32::MAX,
    ;
    reduce32(a as i64 * b as i64)
}

fn reduce32(x: i64) -> (r: i32)
    ensures
        r as int == wrap32(x as int),
{
    match x.checked_rem_euclid(0x1_0000_0000) {
        Some(m) => {
            if m > i32::MAX as i64 {
                (m - 0x1_0000_0000) as i32
            } else {
                m as i32
            }
        },
        None => 0,
    }
}

/// Widening an `int` to a `long` and narrowing it back gives the `int` again;
/// narrowing then widening is the identity on longs in the 32-bit range.
pub proof fn law_int_long_round_trip(x: i32, y: i64)
    ensures
        wrap32(x as int) == x as int,
        i32::MIN <= y <= i32::MAX ==> wrap32(y as int) == y as int,
{
}

/// Narrowing a `long` keeps its low 32 bits: the result is an `int`, and
/// it differs from the long by a multiple of 2^32.
pub proof fn law_narrowing_keeps_low_bits(y: i64)
    ensures
        i32::MIN <= wrap32(y as int) <= i32::MAX,
        (y as int - wrap32(y as int)) % 0x1_0000_0000 == 0,
{
}

/// Shift counts wrap: `ishl` by `n` and by `m = n + 32` agree, as do
/// `lushr` by `n` and by `k = n + 64`.
pub proof fn law_shift_count_wraps(x: i32, y: i64, n: i32, m: i32, k: i32)
    requires
        m == n + 32,
        k == n + 64,
    ensures
        x << ((n & 0x1f) as u32) == x << ((m & 0x1f) as u32),
        ((y as u64) >> ((n & 0x3f) as u64)) as i64 == ((y as u64) >> ((k & 0x3f) as u64)) as i64,
{
    assert(n & 0x1f == m & 0x1f) by (bit_vector)
        requires
            m == n + 32,
    ;
    assert(n & 0x3f == k & 0x3f) by (bit_vector)
        requires
            k == n + 64,
    ;
}

} // verus!
