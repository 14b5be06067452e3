//! Integer arithmetic as the CPU performs it: results and flags.

use vstd::prelude::*;
use crate::bits::lemma_mask_bound_u32;

verus! {

/// The four flags that arithmetic sets.
#[derive(Clone, Copy, Debug, PartialEq, Eq, Structural)]
pub struct Flags {
    pub zero: bool,
    pub sign: bool,
    pub overflow: bool,
    pub carry: bool,
}

/// A result with the flags after the operation.
#[derive(Clone, Copy, Debug, PartialEq, Eq, Structural)]
pub struct AluResult {
    pub value: u32,
    pub flags: Flags,
}

/// The results of a multiplication or a division: `value` goes to the
/// destination register, `extra` to r30.
#[derive(Clone, Copy, Debug, PartialEq, Eq, Structural)]
pub struct WideResult {
    pub value: u32,
    pub extra: u32,
    pub flags: Flags,
}

/// A word read as a two's-complement number.
pub open spec fn signed(value: u32) -> int {
    (value as i32) as int
}

/// Whether a number does not fit a signed word.
pub open spec fn overflows(value: int) -> bool {
    value > i32::MAX || value < i32::MIN
}

/// Whether a word is negative as a two's-complement number.
pub open spec fn is_negative(value: u32) -> bool {
    (value as i32) < 0
}

/// The sum, wrapped to a word. The carry says that the unsigned sum does not
/// fit, the overflow that the signed sum does not.
pub open spec fn sum(a: u32, b: u32) -> AluResult {
    let value = a.wrapping_add(b);
    AluResult {
        value,
        flags: Flags {
            zero: value == 0,
            sign: is_negative(value),
            overflow: overflows(signed(a) + signed(b)),
            carry: a + b > u32::MAX,
        },
    }
}

/// The difference `a - b`, wrapped to a word. The carry is the borrow: `b`
/// exceeds `a` as unsigned numbers; the overflow says that the signed
/// difference does not fit.
pub open spec fn difference(a: u32, b: u32) -> AluResult {
    let value = a.wrapping_sub(b);
    AluResult {
        value,
        flags: Flags {
            zero: value == 0,
            sign: is_negative(value),
            overflow: overflows(signed(a) - signed(b)),
            carry: a < b,
        },
    }
}

/// A result of a logical operation: zero and sign follow the value, the
/// overflow is cleared, the carry stays.
pub open spec fn logical(value: u32, carry: bool) -> AluResult {
    AluResult {
        value,
        flags: Flags { zero: value == 0, sign: is_negative(value), overflow: false, carry },
    }
}

/// A result of a shift: zero and sign follow the value, the overflow is
/// cleared, the carry is the last bit shifted out.
pub open spec fn shifted(value: u32, carry: bool) -> AluResult {
    AluResult {
        value,
        flags: Flags { zero: value == 0, sign: is_negative(value), overflow: false, carry },
    }
}

/// `a` shifted left by the low five bits of `shift`.
pub open spec fn shift_left(a: u32, shift: u32) -> AluResult {
    let n = shift & 0x1f;
    shifted(a << n, n != 0 && (a >> ((32 - n) as u32)) & 1 != 0)
}

/// `a` shifted right by the low five bits of `shift`, zeros coming in.
pub open spec fn shift_right(a: u32, shift: u32) -> AluResult {
    let n = shift & 0x1f;
    shifted(a >> n, n != 0 && (a >> ((n - 1) as u32)) & 1 != 0)
}

/// `a` shifted right by the low five bits of `shift`, the sign coming in.
pub open spec fn shift_right_arithmetic(a: u32, shift: u32) -> AluResult {
    let n = shift & 0x1f;
    shifted(((a as i32) >> n) as u32, n != 0 && (a >> ((n - 1) as u32)) & 1 != 0)
}

/// The signed product of two words: its low word is the value, its high word
/// the extra. Zero and sign follow the low word; the overflow says that the
/// product does not fit a signed word; the carry stays.
pub open spec fn product(a: u32, b: u32, carry: bool) -> WideResult {
    let wide = ((a as i32) as i64 * (b as i32) as i64) as i64;
    let value = wide as u32;
    WideResult {
        value,
        extra: (wide >> 32) as u32,
        flags: Flags {
            zero: value == 0,
            sign: is_negative(value),
            overflow: overflows(wide as int),
            carry,
        },
    }
}

/// The unsigned product of two words: its low word is the value, its high
/// word the extra. Zero and sign follow the low word; the overflow says that
/// the product does not fit a word; the carry stays.
pub open spec fn unsigned_product(a: u32, b: u32, carry: bool) -> WideResult {
    let wide = (a as u64 * b as u64) as u64;
    let value = wide as u32;
    WideResult {
        value,
        extra: (wide >> 32) as u32,
        flags: Flags {
            zero: value == 0,
            sign: is_negative(value),
            overflow: wide > u32::MAX,
            carry,
        },
    }
}

/// The magnitude of a word read as a two's-complement number.
pub open spec fn magnitude(value: u32) -> int {
    if signed(value) < 0 {
        -signed(value)
    } else {
        signed(value)
    }
}

/// The signed quotient, rounded towards zero, as the value and the
/// remainder, which has the sign of the dividend, as the extra. The most
/// negative number divided by -1 does not fit: it gives itself, no
/// remainder, and the overflow. Zero and sign follow the quotient; the carry
/// stays. The divisor is not 0.
pub open spec fn quotient(a: u32, b: u32, carry: bool) -> WideResult {
    if a == 0x8000_0000 && b == 0xffff_ffff {
        WideResult {
            value: 0x8000_0000,
            extra: 0,
            flags: Flags { zero: false, sign: true, overflow: true, carry },
        }
    } else {
        let q = magnitude(a) / magnitude(b);
        let r = magnitude(a) % magnitude(b);
        let value = (if (signed(a) < 0) != (signed(b) < 0) {
            -q
        } else {
            q
        }) as i32 as u32;
        let extra = (if signed(a) < 0 {
            -r
        } else {
            r
        }) as i32 as u32;
        WideResult {
            value,
            extra,
            flags: Flags { zero: value == 0, sign: is_negative(value), overflow: false, carry },
        }
    }
}

/// The unsigned quotient as the value and the remainder as the extra. Zero
/// and sign follow the quotient; the overflow is cleared; the carry stays.
/// The divisor is not 0.
pub open spec fn unsigned_quotient(a: u32, b: u32, carry: bool) -> WideResult {
    let value = a / b;
    WideResult {
        value,
        extra: a % b,
        flags: Flags { zero: value == 0, sign: is_negative(value), overflow: false, carry },
    }
}

/// The value of a five-bit immediate, sign-extended.
pub open spec fn sign_extend_5(imm5: u32) -> u32 {
    if imm5 & 0x10 != 0 {
        imm5 | 0xffff_ffe0
    } else {
        imm5
    }
}

/// The value of a sixteen-bit immediate, sign-extended.
pub open spec fn sign_extend_16(imm16: u16) -> u32 {
    (imm16 as i16) as u32
}

/// The value of a byte, sign-extended.
pub open spec fn sign_extend_8(value: u8) -> u32 {
    (value as i8) as u32
}

pub fn add_words(a: u32, b: u32) -> (r: AluResult)
    ensures
        r == sum(a, b),
{
    let value = a.wrapping_add(b);
    let wide: i64 = (a as i32) as i64 + (b as i32) as i64;
    AluResult {
        value,
        flags: Flags {
            zero: value == 0,
            sign: (value as i32) < 0,
            overflow: wide > i32::MAX as i64 || wide < i32::MIN as i64,
            carry: a as u64 + b as u64 > u32::MAX as u64,
        },
    }
}

pub fn subtract(a: u32, b: u32) -> (r: AluResult)
    ensures
        r == difference(a, b),
{
    let value = a.wrapping_sub(b);
    let wide: i64 = (a as i32) as i64 - (b as i32) as i64;
    AluResult {
        value,
        flags: Flags {
            zero: value == 0,
            sign: (value as i32) < 0,
            overflow: wide > i32::MAX as i64 || wide < i32::MIN as i64,
            carry: a < b,
        },
    }
}

pub fn logic(value: u32, carry: bool) -> (r: AluResult)
    ensures
        r == logical(value, carry),
{
    AluResult {
        value,
        flags: Flags { zero: value == 0, sign: (value as i32) < 0, overflow: false, carry },
    }
}

pub fn shl(a: u32, shift: u32) -> (r: AluResult)
    ensures
        r == shift_left(a, shift),
{
    proof {
        lemma_mask_bound_u32(shift, 0x1f);
    }
    let n: u32 = shift & 0x1f;
    let carry = n != 0 && ((a >> (32 - n)) & 1) != 0;
    let value = a << n;
    AluResult {
        value,
        flags: Flags { zero: value == 0, sign: (value as i32) < 0, overflow: false, carry },
    }
}

pub fn shr(a: u32, shift: u32) -> (r: AluResult)
    ensures
        r == shift_right(a, shift),
{
    proof {
        lemma_mask_bound_u32(shift, 0x1f);
    }
    let n: u32 = shift & 0x1f;
    let carry = n != 0 && ((a >> (n - 1)) & 1) != 0;
    let value = a >> n;
    AluResult {
        value,
        flags: Flags { zero: value == 0, sign: (value as i32) < 0, overflow: false, carry },
    }
}

pub fn sar(a: u32, shift: u32) -> (r: AluResult)
    ensures
        r == shift_right_arithmetic(a, shift),
{
    proof {
        lemma_mask_bound_u32(shift, 0x1f);
    }
    let n: u32 = shift & 0x1f;
    let carry = n != 0 && ((a >> (n - 1)) & 1) != 0;
    let value = ((a as i32) >> n) as u32;
    AluResult {
        value,
        flags: Flags { zero: value == 0, sign: (value as i32) < 0, overflow: false, carry },
    }
}

pub fn multiply(a: u32, b: u32, carry: bool) -> (r: WideResult)
    ensures
        r == product(a, b, carry),
{
    let x: i64 = (a as i32) as i64;
    let y: i64 = (b as i32) as i64;
    assert(-0x4000_0000_0000_0000 <= x * y <= 0x4000_0000_0000_0000) by (nonlinear_arith)
        requires
            -0x8000_0000 <= x <= 0x7fff_ffff,
            -0x8000_0000 <= y <= 0x7fff_ffff,
    ;
    let wide: i64 = x * y;
    let value = wide as u32;
    WideResult {
        value,
        extra: (wide >> 32) as u32,
        flags: Flags {
            zero: value == 0,
            sign: (value as i32) < 0,
            overflow: wide > i32::MAX as i64 || wide < i32::MIN as i64,
            carry,
        },
    }
}

pub fn multiply_unsigned(a: u32, b: u32, carry: bool) -> (r: WideResult)
    ensures
        r == unsigned_product(a, b, carry),
{
    let x: u64 = a as u64;
    let y: u64 = b as u64;
    assert(0 <= x * y <= 0xffff_fffe_0000_0001) by (nonlinear_arith)
        requires
            0 <= x <= 0xffff_ffff,
            0 <= y <= 0xffff_ffff,
    ;
    let wide: u64 = x * y;
    let value = wide as u32;
    WideResult {
        value,
        extra: (wide >> 32) as u32,
        flags: Flags {
            zero: value == 0,
            sign: (value as i32) < 0,
            overflow: wide > u32::MAX as u64,
            carry,
        },
    }
}

pub fn divide(a: u32, b: u32, carry: bool) -> (r: WideResult)
    requires
        b != 0,
    ensures
        r == quotient(a, b, carry),
{
    if a == 0x8000_0000 && b == 0xffff_ffff {
        return WideResult {
            value: 0x8000_0000,
            extra: 0,
            flags: Flags { zero: false, sign: true, overflow: true, carry },
        };
    }
    let x: i64 = (a as i32) as i64;
    let y: i64 = (b as i32) as i64;
    assert(y != 0) by {
        lemma_signed_zero(b);
    }
    let ax: u64 = (if x < 0 {
        -x
    } else {
        x
    }) as u64;
    let ay: u64 = (if y < 0 {
        -y
    } else {
        y
    }) as u64;
    let q: u64 = ax / ay;
    let m: u64 = ax % ay;
    assert(q <= ax && m < ay) by (nonlinear_arith)
        requires
            q == ax / ay,
            m == ax % ay,
            ay > 0,
    ;
    let signed_q: i64 = if (x < 0) != (y < 0) {
        -(q as i64)
    } else {
        q as i64
    };
    let signed_m: i64 = if x < 0 {
        -(m as i64)
    } else {
        m as i64
    };
    assert(signed_q <= i32::MAX) by {
        lemma_signed_zero(a);
        lemma_signed_zero(b);
        if q >= 0x8000_0000 {
            assert(ax == 0x8000_0000 && q == 0x8000_0000);
            assert(ay == 1) by (nonlinear_arith)
                requires
                    ax / ay == ax,
                    ax == 0x8000_0000,
                    ay > 0,
            ;
        }
    }
    let value = (signed_q as i32) as u32;
    let extra = (signed_m as i32) as u32;
    WideResult {
        value,
        extra,
        flags: Flags { zero: value == 0, sign: (value as i32) < 0, overflow: false, carry },
    }
}

pub fn divide_unsigned(a: u32, b: u32, carry: bool) -> (r: WideResult)
    requires
        b != 0,
    ensures
        r == unsigned_quotient(a, b, carry),
{
    let value = a / b;
    WideResult {
        value,
        extra: a % b,
        flags: Flags { zero: value == 0, sign: (value as i32) < 0, overflow: false, carry },
    }
}

/// Which words are 0, -1 and the most negative number as two's-complement
/// numbers.
pub proof fn lemma_signed_zero(value: u32)
    by (bit_vector)
    ensures
        (value as i32) == 0i32 <==> value == 0,
        (value as i32) == -1i32 <==> value == 0xffff_ffff,
        (value as i32) == -0x8000_0000i32 <==> value == 0x8000_0000,
{
}

} // verus!
