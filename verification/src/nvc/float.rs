//! What the core decides about single-precision floating-point operations:
//! which operands an operation refuses, which exception it raises, and what
//! goes to the register and the flags once the host's float unit has done
//! the arithmetic. The core itself computes no floating point: it reads the
//! operands as bit patterns.

use vstd::prelude::*;
use crate::instruction::SubOp;
use crate::nvc::alu::Flags;
use crate::nvc::psw::FloatFlags;

verus! {

/// The exception code of an operand that is no number the unit takes.
pub const FLOAT_RESERVED_OPERAND_CODE: u16 = 0xff60;

/// The exception code of a result too large for a single-precision number.
pub const FLOAT_OVERFLOW_CODE: u16 = 0xff64;

/// The exception code of a division of a number other than zero by zero.
pub const FLOAT_ZERO_DIVISION_CODE: u16 = 0xff68;

/// The exception code of an operation without a result: zero divided by
/// zero, or a conversion to an integer that cannot hold the number.
pub const FLOAT_INVALID_OPERATION_CODE: u16 = 0xff70;

/// The handler that all floating-point exceptions share.
pub const FLOAT_HANDLER_PC: u32 = 0xffff_ff60;

/// A floating-point instruction that waits for the host's float unit.
#[derive(Clone, Copy, Debug, PartialEq, Eq, Structural)]
pub struct FloatRequest {
    /// The operation: a comparison, a conversion or an arithmetic operation.
    pub subop: SubOp,
    /// The register that takes the result.
    pub reg2: usize,
    /// The value of that register, the first operand.
    pub destination: u32,
    /// The value of the other register, the second operand.
    pub source: u32,
}

/// What the host's float unit computed for an instruction: the bits of the
/// result (of the difference, for a comparison), and the conditions that
/// the arithmetic met.
#[derive(Clone, Copy, Debug, PartialEq, Eq, Structural)]
pub struct FloatOutcome {
    pub bits: u32,
    pub flags: FloatFlags,
}

/// What a floating-point instruction leaves behind.
#[derive(Clone, Copy, Debug, PartialEq, Eq, Structural)]
pub struct FloatAnswer {
    /// The result for the register; none for a comparison.
    pub result: Option<u32>,
    /// The arithmetic flags after the operation.
    pub flags: Flags,
    /// The floating-point flags that the operation sets.
    pub float_flags: FloatFlags,
    /// The floating-point exception that the operation raises instead of
    /// giving a result, if it raises one.
    pub exception: Option<u16>,
}

/// Whether an extended operation is one for the float unit.
pub open spec fn is_float_subop(subop: SubOp) -> bool {
    !(subop == SubOp::Xb || subop == SubOp::Xh || subop == SubOp::Mpyhw)
}

/// Whether the operation reads the register that takes its result as a
/// floating-point number.
pub open spec fn reads_float_destination(subop: SubOp) -> bool {
    subop == SubOp::CmpfS || subop == SubOp::AddfS || subop == SubOp::SubfS || subop
        == SubOp::MulfS || subop == SubOp::DivfS
}

/// Whether the operation reads its other register as a floating-point
/// number: all do but the conversion from an integer.
pub open spec fn reads_float_source(subop: SubOp) -> bool {
    is_float_subop(subop) && subop != SubOp::CvtWs
}

/// Whether the operation gives an integer: the two conversions to one.
pub open spec fn gives_integer(subop: SubOp) -> bool {
    subop == SubOp::CvtSw || subop == SubOp::TrncSw
}

/// The eight exponent bits of a single-precision number.
pub open spec fn exponent_of(bits: u32) -> u32 {
    (bits >> 23) & 0xff
}

/// The 23 fraction bits of a single-precision number.
pub open spec fn fraction_of(bits: u32) -> u32 {
    bits & 0x007f_ffff
}

/// Whether the bits are those of zero, of either sign.
pub open spec fn is_float_zero(bits: u32) -> bool {
    bits & 0x7fff_ffff == 0
}

/// Whether the bits are a reserved operand: a denormal number, an infinity
/// or not a number.
pub open spec fn is_reserved_operand(bits: u32) -> bool {
    exponent_of(bits) == 0xff || (exponent_of(bits) == 0 && fraction_of(bits) != 0)
}

/// No floating-point flag.
pub open spec fn no_float_flags() -> FloatFlags {
    FloatFlags {
        precision_degradation: false,
        underflow: false,
        overflow: false,
        zero_division: false,
        invalid_operation: false,
        reserved_operand: false,
    }
}

/// The flags that the operands alone raise, before any arithmetic: a
/// reserved operand; for a division by zero, the invalid operation where
/// zero is divided and the zero division where another number is.
pub open spec fn operand_flags(subop: SubOp, destination: u32, source: u32) -> FloatFlags {
    if (reads_float_destination(subop) && is_reserved_operand(destination)) || (
    reads_float_source(subop) && is_reserved_operand(source)) {
        FloatFlags { reserved_operand: true, ..no_float_flags() }
    } else if subop == SubOp::DivfS && is_float_zero(source) {
        if is_float_zero(destination) {
            FloatFlags { invalid_operation: true, ..no_float_flags() }
        } else {
            FloatFlags { zero_division: true, ..no_float_flags() }
        }
    } else {
        no_float_flags()
    }
}

/// The exception that the flags of an operation raise, if any: underflow
/// and precision degradation raise none.
pub open spec fn float_exception(flags: FloatFlags) -> Option<u16> {
    if flags.reserved_operand {
        Some(FLOAT_RESERVED_OPERAND_CODE)
    } else if flags.invalid_operation {
        Some(FLOAT_INVALID_OPERATION_CODE)
    } else if flags.zero_division {
        Some(FLOAT_ZERO_DIVISION_CODE)
    } else if flags.overflow {
        Some(FLOAT_OVERFLOW_CODE)
    } else {
        None
    }
}

/// The arithmetic flags after an operation with the given result. Of a
/// floating-point result, zero of either sign is zero and not negative, and
/// the carry follows the sign; of an integer, the carry stays.
pub open spec fn result_flags(subop: SubOp, carry: bool, bits: u32) -> Flags {
    if gives_integer(subop) {
        Flags { zero: bits == 0, sign: bits & 0x8000_0000 != 0, overflow: false, carry }
    } else {
        let negative = !is_float_zero(bits) && bits & 0x8000_0000 != 0;
        Flags { zero: is_float_zero(bits), sign: negative, overflow: false, carry: negative }
    }
}

/// What an operation leaves behind, given what the float unit computed and
/// the carry flag before it. A comparison keeps its result to itself.
pub open spec fn float_answer(subop: SubOp, carry: bool, outcome: FloatOutcome) -> FloatAnswer {
    FloatAnswer {
        result: if subop == SubOp::CmpfS {
            None
        } else {
            Some(outcome.bits)
        },
        flags: result_flags(subop, carry, outcome.bits),
        float_flags: outcome.flags,
        exception: float_exception(outcome.flags),
    }
}

/// Whether an extended operation is one for the float unit.
pub fn for_float_unit(subop: SubOp) -> (r: bool)
    ensures
        r == is_float_subop(subop),
{
    match subop {
        SubOp::Xb => false,
        SubOp::Xh => false,
        SubOp::Mpyhw => false,
        _ => true,
    }
}

/// Whether the bits are a reserved operand.
pub fn reserved_operand(bits: u32) -> (r: bool)
    ensures
        r == is_reserved_operand(bits),
{
    let exponent: u32 = (bits >> 23) & 0xff;
    let fraction: u32 = bits & 0x007f_ffff;
    exponent == 0xff || (exponent == 0 && fraction != 0)
}

/// The flags that the operands alone raise.
pub fn check_operands(subop: SubOp, destination: u32, source: u32) -> (flags: FloatFlags)
    ensures
        flags == operand_flags(subop, destination, source),
{
    let none = FloatFlags {
        precision_degradation: false,
        underflow: false,
        overflow: false,
        zero_division: false,
        invalid_operation: false,
        reserved_operand: false,
    };
    let reads_destination = match subop {
        SubOp::CmpfS => true,
        SubOp::AddfS => true,
        SubOp::SubfS => true,
        SubOp::MulfS => true,
        SubOp::DivfS => true,
        _ => false,
    };
    let reads_source = for_float_unit(subop) && !matches!(subop, SubOp::CvtWs);
    let divides = matches!(subop, SubOp::DivfS);
    if (reads_destination && reserved_operand(destination)) || (reads_source && reserved_operand(
        source,
    )) {
        FloatFlags { reserved_operand: true, ..none }
    } else if divides && source & 0x7fff_ffff == 0 {
        if destination & 0x7fff_ffff == 0 {
            FloatFlags { invalid_operation: true, ..none }
        } else {
            FloatFlags { zero_division: true, ..none }
        }
    } else {
        none
    }
}

/// The exception that the flags of an operation raise, if any.
pub fn exception_of(flags: FloatFlags) -> (r: Option<u16>)
    ensures
        r == float_exception(flags),
{
    if flags.reserved_operand {
        Some(FLOAT_RESERVED_OPERAND_CODE)
    } else if flags.invalid_operation {
        Some(FLOAT_INVALID_OPERATION_CODE)
    } else if flags.zero_division {
        Some(FLOAT_ZERO_DIVISION_CODE)
    } else if flags.overflow {
        Some(FLOAT_OVERFLOW_CODE)
    } else {
        None
    }
}

/// What an operation leaves behind, given what the float unit computed and
/// the carry flag before it.
pub fn answer_of(subop: SubOp, carry: bool, outcome: FloatOutcome) -> (answer: FloatAnswer)
    ensures
        answer == float_answer(subop, carry, outcome),
{
    let bits = outcome.bits;
    let integer = matches!(subop, SubOp::CvtSw) || matches!(subop, SubOp::TrncSw);
    let flags = if integer {
        Flags { zero: bits == 0, sign: bits & 0x8000_0000 != 0, overflow: false, carry }
    } else {
        let zero = bits & 0x7fff_ffff == 0;
        let negative = !zero && bits & 0x8000_0000 != 0;
        Flags { zero, sign: negative, overflow: false, carry: negative }
    };
    FloatAnswer {
        result: if matches!(subop, SubOp::CmpfS) {
            None
        } else {
            Some(bits)
        },
        flags,
        float_flags: outcome.flags,
        exception: exception_of(outcome.flags),
    }
}

/// Operands that raise no flag are numbers that the float unit can take: a
/// floating-point operand is zero or a normal number, and no division is
/// by zero.
pub proof fn lemma_accepted_operands(subop: SubOp, destination: u32, source: u32)
    requires
        is_float_subop(subop),
        operand_flags(subop, destination, source) == no_float_flags(),
    ensures
        reads_float_destination(subop) ==> !is_reserved_operand(destination),
        reads_float_source(subop) ==> !is_reserved_operand(source),
        subop == SubOp::DivfS ==> !is_float_zero(source),
{
}

/// The flags that operands raise always raise an exception, and an outcome
/// raises one exactly where it holds one of the four flags that trap.
pub proof fn lemma_operand_flags_trap(subop: SubOp, destination: u32, source: u32)
    ensures
        operand_flags(subop, destination, source) != no_float_flags() <==> float_exception(
            operand_flags(subop, destination, source),
        ) is Some,
{
}

} // verus!
