//! The processor status word.

use vstd::prelude::*;
use crate::bits::lemma_mask_bound_u32;
use crate::instruction::Condition;
use crate::nvc::alu::Flags;

verus! {

pub const PSW_ZERO_BIT: u32 = 0x0000_0001;
pub const PSW_SIGN_BIT: u32 = 0x0000_0002;
pub const PSW_OVERFLOW_BIT: u32 = 0x0000_0004;
pub const PSW_CARRY_BIT: u32 = 0x0000_0008;
pub const PSW_FP_PRECISION_DEGRADATION_BIT: u32 = 0x0000_0010;
pub const PSW_FP_UNDERFLOW_BIT: u32 = 0x0000_0020;
pub const PSW_FP_OVERFLOW_BIT: u32 = 0x0000_0040;
pub const PSW_FP_ZERO_DIVISION_BIT: u32 = 0x0000_0080;
pub const PSW_FP_INVALID_OPERATION_BIT: u32 = 0x0000_0100;
pub const PSW_FP_RESERVED_OPERAND_BIT: u32 = 0x0000_0200;
pub const PSW_INTERRUPT_DISABLE_BIT: u32 = 0x0000_1000;
pub const PSW_ADDRESS_TRAP_ENABLE_BIT: u32 = 0x0000_2000;
pub const PSW_EXCEPTION_PENDING_BIT: u32 = 0x0000_4000;
pub const PSW_NMI_PENDING_BIT: u32 = 0x0000_8000;
pub const PSW_INTERRUPT_LEVEL_SHIFT: u32 = 16;
pub const PSW_INTERRUPT_LEVEL_MASK: u32 = 0x0f;

/// The processor status word, flag by flag.
#[derive(Clone, Copy, Debug, PartialEq, Eq, Structural)]
pub struct Psw {
    pub zero: bool,
    pub sign: bool,
    pub overflow: bool,
    pub carry: bool,
    pub fp_precision_degradation: bool,
    pub fp_underflow: bool,
    pub fp_overflow: bool,
    pub fp_zero_division: bool,
    pub fp_invalid_operation: bool,
    pub fp_reserved_operand: bool,
    pub interrupt_disable: bool,
    pub address_trap_enable: bool,
    pub exception_pending: bool,
    pub nmi_pending: bool,
    /// Interrupts below this level are masked: 0 to 15.
    pub interrupt_mask_level: u8,
}

/// The six flags that floating-point operations leave behind. They are
/// sticky: once set, a flag stays until LDSR clears it.
#[derive(Clone, Copy, Debug, PartialEq, Eq, Structural)]
pub struct FloatFlags {
    pub precision_degradation: bool,
    pub underflow: bool,
    pub overflow: bool,
    pub zero_division: bool,
    pub invalid_operation: bool,
    pub reserved_operand: bool,
}

impl FloatFlags {
    /// Whether every flag that is set here is set in `other` too.
    pub open spec fn within(self, other: FloatFlags) -> bool {
        &&& self.precision_degradation ==> other.precision_degradation
        &&& self.underflow ==> other.underflow
        &&& self.overflow ==> other.overflow
        &&& self.zero_division ==> other.zero_division
        &&& self.invalid_operation ==> other.invalid_operation
        &&& self.reserved_operand ==> other.reserved_operand
    }
}

impl Psw {
    /// The word with the floating-point flags of an operation added to the
    /// ones that are set already.
    pub open spec fn with_float_flags(self, flags: FloatFlags) -> Psw {
        Psw {
            fp_precision_degradation: self.fp_precision_degradation || flags.precision_degradation,
            fp_underflow: self.fp_underflow || flags.underflow,
            fp_overflow: self.fp_overflow || flags.overflow,
            fp_zero_division: self.fp_zero_division || flags.zero_division,
            fp_invalid_operation: self.fp_invalid_operation || flags.invalid_operation,
            fp_reserved_operand: self.fp_reserved_operand || flags.reserved_operand,
            ..self
        }
    }

    /// The floating-point flags that are set in the word.
    pub open spec fn float_flags(self) -> FloatFlags {
        FloatFlags {
            precision_degradation: self.fp_precision_degradation,
            underflow: self.fp_underflow,
            overflow: self.fp_overflow,
            zero_division: self.fp_zero_division,
            invalid_operation: self.fp_invalid_operation,
            reserved_operand: self.fp_reserved_operand,
        }
    }

    pub fn add_float_flags(&mut self, flags: FloatFlags)
        ensures
            *final(self) == old(self).with_float_flags(flags),
    {
        *self = Psw {
            fp_precision_degradation: self.fp_precision_degradation
                || flags.precision_degradation,
            fp_underflow: self.fp_underflow || flags.underflow,
            fp_overflow: self.fp_overflow || flags.overflow,
            fp_zero_division: self.fp_zero_division || flags.zero_division,
            fp_invalid_operation: self.fp_invalid_operation || flags.invalid_operation,
            fp_reserved_operand: self.fp_reserved_operand || flags.reserved_operand,
            ..*self
        };
    }
}

impl Psw {
    /// The word after a reset: only NP is set.
    pub open spec fn initial() -> Psw {
        Psw {
            zero: false,
            sign: false,
            overflow: false,
            carry: false,
            fp_precision_degradation: false,
            fp_underflow: false,
            fp_overflow: false,
            fp_zero_division: false,
            fp_invalid_operation: false,
            fp_reserved_operand: false,
            interrupt_disable: false,
            address_trap_enable: false,
            exception_pending: false,
            nmi_pending: true,
            interrupt_mask_level: 0,
        }
    }

    /// The word as STSR reads it and as an exception saves it.
    pub open spec fn bits(self) -> u32 {
        (if self.zero { PSW_ZERO_BIT } else { 0 }) | (if self.sign { PSW_SIGN_BIT } else { 0 }) | (
        if self.overflow { PSW_OVERFLOW_BIT } else { 0 }) | (if self.carry {
            PSW_CARRY_BIT
        } else {
            0
        }) | (if self.fp_precision_degradation { PSW_FP_PRECISION_DEGRADATION_BIT } else { 0 }) | (
        if self.fp_underflow { PSW_FP_UNDERFLOW_BIT } else { 0 }) | (if self.fp_overflow {
            PSW_FP_OVERFLOW_BIT
        } else {
            0
        }) | (if self.fp_zero_division { PSW_FP_ZERO_DIVISION_BIT } else { 0 }) | (
        if self.fp_invalid_operation { PSW_FP_INVALID_OPERATION_BIT } else { 0 }) | (
        if self.fp_reserved_operand { PSW_FP_RESERVED_OPERAND_BIT } else { 0 }) | (
        if self.interrupt_disable { PSW_INTERRUPT_DISABLE_BIT } else { 0 }) | (
        if self.address_trap_enable { PSW_ADDRESS_TRAP_ENABLE_BIT } else { 0 }) | (
        if self.exception_pending { PSW_EXCEPTION_PENDING_BIT } else { 0 }) | (if self.nmi_pending {
            PSW_NMI_PENDING_BIT
        } else {
            0
        }) | ((self.interrupt_mask_level as u32) << PSW_INTERRUPT_LEVEL_SHIFT)
    }

    /// The word that LDSR writes and that RETI restores.
    pub open spec fn of_bits(value: u32) -> Psw {
        Psw {
            zero: value & PSW_ZERO_BIT != 0,
            sign: value & PSW_SIGN_BIT != 0,
            overflow: value & PSW_OVERFLOW_BIT != 0,
            carry: value & PSW_CARRY_BIT != 0,
            fp_precision_degradation: value & PSW_FP_PRECISION_DEGRADATION_BIT != 0,
            fp_underflow: value & PSW_FP_UNDERFLOW_BIT != 0,
            fp_overflow: value & PSW_FP_OVERFLOW_BIT != 0,
            fp_zero_division: value & PSW_FP_ZERO_DIVISION_BIT != 0,
            fp_invalid_operation: value & PSW_FP_INVALID_OPERATION_BIT != 0,
            fp_reserved_operand: value & PSW_FP_RESERVED_OPERAND_BIT != 0,
            interrupt_disable: value & PSW_INTERRUPT_DISABLE_BIT != 0,
            address_trap_enable: value & PSW_ADDRESS_TRAP_ENABLE_BIT != 0,
            exception_pending: value & PSW_EXCEPTION_PENDING_BIT != 0,
            nmi_pending: value & PSW_NMI_PENDING_BIT != 0,
            interrupt_mask_level: ((value >> PSW_INTERRUPT_LEVEL_SHIFT)
                & PSW_INTERRUPT_LEVEL_MASK) as u8,
        }
    }

    /// The word with the four arithmetic flags replaced.
    pub open spec fn with_flags(self, flags: Flags) -> Psw {
        Psw {
            zero: flags.zero,
            sign: flags.sign,
            overflow: flags.overflow,
            carry: flags.carry,
            ..self
        }
    }

    /// Whether a condition holds of the flags.
    pub open spec fn holds(self, condition: Condition) -> bool {
        match condition {
            Condition::V => self.overflow,
            Condition::C => self.carry,
            Condition::Z => self.zero,
            Condition::Nh => self.carry || self.zero,
            Condition::N => self.sign,
            Condition::T => true,
            Condition::Lt => self.overflow != self.sign,
            Condition::Le => (self.overflow != self.sign) || self.zero,
            Condition::Nv => !self.overflow,
            Condition::Nc => !self.carry,
            Condition::Nz => !self.zero,
            Condition::H => !(self.carry || self.zero),
            Condition::P => !self.sign,
            Condition::F => false,
            Condition::Ge => !(self.overflow != self.sign),
            Condition::Gt => !((self.overflow != self.sign) || self.zero),
        }
    }

    pub fn new() -> (r: Psw)
        ensures
            r == Psw::initial(),
    {
        Psw {
            zero: false,
            sign: false,
            overflow: false,
            carry: false,
            fp_precision_degradation: false,
            fp_underflow: false,
            fp_overflow: false,
            fp_zero_division: false,
            fp_invalid_operation: false,
            fp_reserved_operand: false,
            interrupt_disable: false,
            address_trap_enable: false,
            exception_pending: false,
            nmi_pending: true,
            interrupt_mask_level: 0,
        }
    }

    pub fn to_bits(&self) -> (r: u32)
        ensures
            r == self.bits(),
    {
        (if self.zero { PSW_ZERO_BIT } else { 0 }) | (if self.sign { PSW_SIGN_BIT } else { 0 }) | (
        if self.overflow { PSW_OVERFLOW_BIT } else { 0 }) | (if self.carry {
            PSW_CARRY_BIT
        } else {
            0
        }) | (if self.fp_precision_degradation { PSW_FP_PRECISION_DEGRADATION_BIT } else { 0 }) | (
        if self.fp_underflow { PSW_FP_UNDERFLOW_BIT } else { 0 }) | (if self.fp_overflow {
            PSW_FP_OVERFLOW_BIT
        } else {
            0
        }) | (if self.fp_zero_division { PSW_FP_ZERO_DIVISION_BIT } else { 0 }) | (
        if self.fp_invalid_operation { PSW_FP_INVALID_OPERATION_BIT } else { 0 }) | (
        if self.fp_reserved_operand { PSW_FP_RESERVED_OPERAND_BIT } else { 0 }) | (
        if self.interrupt_disable { PSW_INTERRUPT_DISABLE_BIT } else { 0 }) | (
        if self.address_trap_enable { PSW_ADDRESS_TRAP_ENABLE_BIT } else { 0 }) | (
        if self.exception_pending { PSW_EXCEPTION_PENDING_BIT } else { 0 }) | (if self.nmi_pending {
            PSW_NMI_PENDING_BIT
        } else {
            0
        }) | ((self.interrupt_mask_level as u32) << PSW_INTERRUPT_LEVEL_SHIFT)
    }

    pub fn from_bits(value: u32) -> (r: Psw)
        ensures
            r == Psw::of_bits(value),
            r.interrupt_mask_level <= 15,
    {
        proof {
            lemma_mask_bound_u32(value >> PSW_INTERRUPT_LEVEL_SHIFT, PSW_INTERRUPT_LEVEL_MASK);
        }
        Psw {
            zero: value & PSW_ZERO_BIT != 0,
            sign: value & PSW_SIGN_BIT != 0,
            overflow: value & PSW_OVERFLOW_BIT != 0,
            carry: value & PSW_CARRY_BIT != 0,
            fp_precision_degradation: value & PSW_FP_PRECISION_DEGRADATION_BIT != 0,
            fp_underflow: value & PSW_FP_UNDERFLOW_BIT != 0,
            fp_overflow: value & PSW_FP_OVERFLOW_BIT != 0,
            fp_zero_division: value & PSW_FP_ZERO_DIVISION_BIT != 0,
            fp_invalid_operation: value & PSW_FP_INVALID_OPERATION_BIT != 0,
            fp_reserved_operand: value & PSW_FP_RESERVED_OPERAND_BIT != 0,
            interrupt_disable: value & PSW_INTERRUPT_DISABLE_BIT != 0,
            address_trap_enable: value & PSW_ADDRESS_TRAP_ENABLE_BIT != 0,
            exception_pending: value & PSW_EXCEPTION_PENDING_BIT != 0,
            nmi_pending: value & PSW_NMI_PENDING_BIT != 0,
            interrupt_mask_level: ((value >> PSW_INTERRUPT_LEVEL_SHIFT)
                & PSW_INTERRUPT_LEVEL_MASK) as u8,
        }
    }

    pub fn set_flags(&mut self, flags: Flags)
        ensures
            *final(self) == old(self).with_flags(flags),
    {
        self.zero = flags.zero;
        self.sign = flags.sign;
        self.overflow = flags.overflow;
        self.carry = flags.carry;
    }

    pub fn test(&self, condition: Condition) -> (r: bool)
        ensures
            r == self.holds(condition),
    {
        match condition {
            Condition::V => self.overflow,
            Condition::C => self.carry,
            Condition::Z => self.zero,
            Condition::Nh => self.carry || self.zero,
            Condition::N => self.sign,
            Condition::T => true,
            Condition::Lt => self.overflow != self.sign,
            Condition::Le => (self.overflow != self.sign) || self.zero,
            Condition::Nv => !self.overflow,
            Condition::Nc => !self.carry,
            Condition::Nz => !self.zero,
            Condition::H => !(self.carry || self.zero),
            Condition::P => !self.sign,
            Condition::F => false,
            Condition::Ge => !(self.overflow != self.sign),
            Condition::Gt => !((self.overflow != self.sign) || self.zero),
        }
    }
}

} // verus!
