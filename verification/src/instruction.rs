//! The instruction set's first halfword: opcodes, their formats, cycle costs
//! and mnemonics, and the small enumerations that instructions name.

use vstd::prelude::*;

verus! {

/// Why a halfword, or a field of an instruction, names nothing.
#[derive(Clone, Copy, Debug, PartialEq, Eq, Structural)]
pub enum DecodeError {
    /// The opcode bits, or the sub-opcode bits of an extended instruction,
    /// name no instruction.
    InvalidOpcode,
    /// The index names a reserved system register.
    InvalidSystemRegister,
}

#[derive(Clone, Copy, Debug, PartialEq, Eq, Structural)]
pub enum Opcode {
    MovReg,
    AddReg,
    Sub,
    CmpReg,
    ShlReg,
    ShrReg,
    Jmp,
    SarReg,
    Mul,
    Div,
    MulU,
    DivU,
    Or,
    And,
    Xor,
    Not,
    MovImm,
    AddImm5,
    Setf,
    CmpImm,
    ShlImm,
    ShrImm,
    Cli,
    SarImm,
    Reti,
    Halt,
    Ldsr,
    Stsr,
    Sei,
    Bv,
    Bc,
    Bz,
    Bnh,
    Bn,
    Br,
    Blt,
    Ble,
    Bnv,
    Bnc,
    Bnz,
    Bh,
    Bp,
    Nop,
    Bge,
    Bgt,
    Movea,
    AddImm16,
    Jr,
    Jal,
    OrI,
    AndI,
    XorI,
    Movhi,
    Ldb,
    Ldh,
    Ldw,
    Stb,
    Sth,
    Stw,
    Inb,
    Inh,
    Inw,
    Outb,
    Outh,
    Extended,
    Outw,
}

/// The layout of an instruction's operands.
#[derive(Clone, Copy, Debug, PartialEq, Eq, Structural)]
pub enum InstructionFormat {
    I,
    II,
    III,
    IV,
    V,
    VI,
    VII,
}

/// The conditional branch with the given 4-bit condition.
pub open spec fn branch_opcode(cond_bits: u16) -> Opcode {
    if cond_bits == 0 {
        Opcode::Bv
    } else if cond_bits == 1 {
        Opcode::Bc
    } else if cond_bits == 2 {
        Opcode::Bz
    } else if cond_bits == 3 {
        Opcode::Bnh
    } else if cond_bits == 4 {
        Opcode::Bn
    } else if cond_bits == 5 {
        Opcode::Br
    } else if cond_bits == 6 {
        Opcode::Blt
    } else if cond_bits == 7 {
        Opcode::Ble
    } else if cond_bits == 8 {
        Opcode::Bnv
    } else if cond_bits == 9 {
        Opcode::Bnc
    } else if cond_bits == 10 {
        Opcode::Bnz
    } else if cond_bits == 11 {
        Opcode::Bh
    } else if cond_bits == 12 {
        Opcode::Bp
    } else if cond_bits == 13 {
        Opcode::Nop
    } else if cond_bits == 14 {
        Opcode::Bge
    } else {
        Opcode::Bgt
    }
}

/// The instruction, other than a conditional branch, with the given 6-bit
/// opcode, if there is one.
pub open spec fn opcode_of_bits(opcode_bits: u16) -> Option<Opcode> {
    if opcode_bits == 0b00000000 {
        Some(Opcode::MovReg)
    } else if opcode_bits == 0b00000001 {
        Some(Opcode::AddReg)
    } else if opcode_bits == 0b00000010 {
        Some(Opcode::Sub)
    } else if opcode_bits == 0b00000011 {
        Some(Opcode::CmpReg)
    } else if opcode_bits == 0b00000100 {
        Some(Opcode::ShlReg)
    } else if opcode_bits == 0b00000101 {
        Some(Opcode::ShrReg)
    } else if opcode_bits == 0b00000110 {
        Some(Opcode::Jmp)
    } else if opcode_bits == 0b00000111 {
        Some(Opcode::SarReg)
    } else if opcode_bits == 0b00001000 {
        Some(Opcode::Mul)
    } else if opcode_bits == 0b00001001 {
        Some(Opcode::Div)
    } else if opcode_bits == 0b00001010 {
        Some(Opcode::MulU)
    } else if opcode_bits == 0b00001011 {
        Some(Opcode::DivU)
    } else if opcode_bits == 0b00001100 {
        Some(Opcode::Or)
    } else if opcode_bits == 0b00001101 {
        Some(Opcode::And)
    } else if opcode_bits == 0b00001110 {
        Some(Opcode::Xor)
    } else if opcode_bits == 0b00001111 {
        Some(Opcode::Not)
    } else if opcode_bits == 0b00010000 {
        Some(Opcode::MovImm)
    } else if opcode_bits == 0b00010001 {
        Some(Opcode::AddImm5)
    } else if opcode_bits == 0b00010010 {
        Some(Opcode::Setf)
    } else if opcode_bits == 0b00010011 {
        Some(Opcode::CmpImm)
    } else if opcode_bits == 0b00010100 {
        Some(Opcode::ShlImm)
    } else if opcode_bits == 0b00010101 {
        Some(Opcode::ShrImm)
    } else if opcode_bits == 0b00010110 {
        Some(Opcode::Cli)
    } else if opcode_bits == 0b00010111 {
        Some(Opcode::SarImm)
    } else if opcode_bits == 0b00011001 {
        Some(Opcode::Reti)
    } else if opcode_bits == 0b00011010 {
        Some(Opcode::Halt)
    } else if opcode_bits == 0b00011100 {
        Some(Opcode::Ldsr)
    } else if opcode_bits == 0b00011101 {
        Some(Opcode::Stsr)
    } else if opcode_bits == 0b00011110 {
        Some(Opcode::Sei)
    } else if opcode_bits == 0b00101000 {
        Some(Opcode::Movea)
    } else if opcode_bits == 0b00101001 {
        Some(Opcode::AddImm16)
    } else if opcode_bits == 0b00101010 {
        Some(Opcode::Jr)
    } else if opcode_bits == 0b00101011 {
        Some(Opcode::Jal)
    } else if opcode_bits == 0b00101100 {
        Some(Opcode::OrI)
    } else if opcode_bits == 0b00101101 {
        Some(Opcode::AndI)
    } else if opcode_bits == 0b00101110 {
        Some(Opcode::XorI)
    } else if opcode_bits == 0b00101111 {
        Some(Opcode::Movhi)
    } else if opcode_bits == 0b00110000 {
        Some(Opcode::Ldb)
    } else if opcode_bits == 0b00110001 {
        Some(Opcode::Ldh)
    } else if opcode_bits == 0b00110011 {
        Some(Opcode::Ldw)
    } else if opcode_bits == 0b00110100 {
        Some(Opcode::Stb)
    } else if opcode_bits == 0b00110101 {
        Some(Opcode::Sth)
    } else if opcode_bits == 0b00110111 {
        Some(Opcode::Stw)
    } else if opcode_bits == 0b00111000 {
        Some(Opcode::Inb)
    } else if opcode_bits == 0b00111001 {
        Some(Opcode::Inh)
    } else if opcode_bits == 0b00111011 {
        Some(Opcode::Inw)
    } else if opcode_bits == 0b00111100 {
        Some(Opcode::Outb)
    } else if opcode_bits == 0b00111101 {
        Some(Opcode::Outh)
    } else if opcode_bits == 0b00111110 {
        Some(Opcode::Extended)
    } else if opcode_bits == 0b00111111 {
        Some(Opcode::Outw)
    } else {
        None
    }
}

/// Whether a halfword starts a conditional branch: its top three bits are
/// `100`.
pub open spec fn is_branch(halfword: u16) -> bool {
    halfword >> 13 == 0b100
}

/// The opcode that a first halfword names. A conditional branch has its
/// condition in bits 9 to 12; any other instruction has its opcode in bits 10
/// to 15.
pub open spec fn decoded_opcode(halfword: u16) -> Result<Opcode, DecodeError> {
    if is_branch(halfword) {
        Ok(branch_opcode((halfword >> 9) & 0x0f))
    } else {
        match opcode_of_bits(halfword >> 10) {
            Some(opcode) => Ok(opcode),
            None => Err(DecodeError::InvalidOpcode),
        }
    }
}

impl Opcode {
    /// The format of the opcode's instructions.
    pub open spec fn format(self) -> InstructionFormat {
        match self {
            Opcode::MovReg => InstructionFormat::I,
            Opcode::AddReg => InstructionFormat::I,
            Opcode::Sub => InstructionFormat::I,
            Opcode::CmpReg => InstructionFormat::I,
            Opcode::ShlReg => InstructionFormat::I,
            Opcode::ShrReg => InstructionFormat::I,
            Opcode::Jmp => InstructionFormat::I,
            Opcode::SarReg => InstructionFormat::I,
            Opcode::Mul => InstructionFormat::I,
            Opcode::Div => InstructionFormat::I,
            Opcode::MulU => InstructionFormat::I,
            Opcode::DivU => InstructionFormat::I,
            Opcode::Or => InstructionFormat::I,
            Opcode::And => InstructionFormat::I,
            Opcode::Xor => InstructionFormat::I,
            Opcode::Not => InstructionFormat::I,
            Opcode::MovImm => InstructionFormat::II,
            Opcode::AddImm5 => InstructionFormat::II,
            Opcode::Setf => InstructionFormat::II,
            Opcode::CmpImm => InstructionFormat::II,
            Opcode::ShlImm => InstructionFormat::II,
            Opcode::ShrImm => InstructionFormat::II,
            Opcode::Cli => InstructionFormat::II,
            Opcode::SarImm => InstructionFormat::II,
            Opcode::Reti => InstructionFormat::II,
            Opcode::Halt => InstructionFormat::II,
            Opcode::Ldsr => InstructionFormat::II,
            Opcode::Stsr => InstructionFormat::II,
            Opcode::Sei => InstructionFormat::II,
            Opcode::Bv => InstructionFormat::III,
            Opcode::Bc => InstructionFormat::III,
            Opcode::Bz => InstructionFormat::III,
            Opcode::Bnh => InstructionFormat::III,
            Opcode::Bn => InstructionFormat::III,
            Opcode::Br => InstructionFormat::III,
            Opcode::Blt => InstructionFormat::III,
            Opcode::Ble => InstructionFormat::III,
            Opcode::Bnv => InstructionFormat::III,
            Opcode::Bnc => InstructionFormat::III,
            Opcode::Bnz => InstructionFormat::III,
            Opcode::Bh => InstructionFormat::III,
            Opcode::Bp => InstructionFormat::III,
            Opcode::Nop => InstructionFormat::III,
            Opcode::Bge => InstructionFormat::III,
            Opcode::Bgt => InstructionFormat::III,
            Opcode::Movea => InstructionFormat::V,
            Opcode::AddImm16 => InstructionFormat::V,
            Opcode::Jr => InstructionFormat::IV,
            Opcode::Jal => InstructionFormat::IV,
            Opcode::OrI => InstructionFormat::V,
            Opcode::AndI => InstructionFormat::V,
            Opcode::XorI => InstructionFormat::V,
            Opcode::Movhi => InstructionFormat::V,
            Opcode::Ldb => InstructionFormat::VI,
            Opcode::Ldh => InstructionFormat::VI,
            Opcode::Ldw => InstructionFormat::VI,
            Opcode::Stb => InstructionFormat::VI,
            Opcode::Sth => InstructionFormat::VI,
            Opcode::Stw => InstructionFormat::VI,
            Opcode::Inb => InstructionFormat::VI,
            Opcode::Inh => InstructionFormat::VI,
            Opcode::Inw => InstructionFormat::VI,
            Opcode::Outb => InstructionFormat::VI,
            Opcode::Outh => InstructionFormat::VI,
            Opcode::Extended => InstructionFormat::VII,
            Opcode::Outw => InstructionFormat::VI,
        }
    }

    /// Whether the opcode is a conditional branch.
    pub open spec fn is_conditional_branch(self) -> bool {
        self.format() == InstructionFormat::III
    }

    /// The CPU cycles that an instruction takes: 13 for a multiplication, 38
    /// and 36 for a signed and an unsigned division, 4 for a load or a store,
    /// 3 for a jump and for a branch that is taken, 1 for anything else.
    pub open spec fn cycle_cost(self, branch_taken: bool) -> usize {
        match self {
            Opcode::Mul => 13,
            Opcode::MulU => 13,
            Opcode::Div => 38,
            Opcode::DivU => 36,
            Opcode::Jmp => 3,
            Opcode::Jr => 3,
            Opcode::Jal => 3,
            _ => if self.format() == InstructionFormat::VI {
                4
            } else if self.is_conditional_branch() && branch_taken {
                3
            } else {
                1
            },
        }
    }

    /// The opcode's mnemonic; the extended opcode has none of its own.
    pub open spec fn mnemonic_text(self) -> Seq<char> {
        match self {
            Opcode::MovReg => "mov"@,
            Opcode::AddReg => "add"@,
            Opcode::Sub => "sub"@,
            Opcode::CmpReg => "cmp"@,
            Opcode::ShlReg => "shl"@,
            Opcode::ShrReg => "shr"@,
            Opcode::Jmp => "jmp"@,
            Opcode::SarReg => "sar"@,
            Opcode::Mul => "mul"@,
            Opcode::Div => "div"@,
            Opcode::MulU => "mulu"@,
            Opcode::DivU => "divu"@,
            Opcode::Or => "or"@,
            Opcode::And => "and"@,
            Opcode::Xor => "xor"@,
            Opcode::Not => "not"@,
            Opcode::MovImm => "mov"@,
            Opcode::AddImm5 => "add"@,
            Opcode::Setf => "setf"@,
            Opcode::CmpImm => "cmp"@,
            Opcode::ShlImm => "shl"@,
            Opcode::ShrImm => "shr"@,
            Opcode::Cli => "cli"@,
            Opcode::SarImm => "sar"@,
            Opcode::Reti => "reti"@,
            Opcode::Halt => "halt"@,
            Opcode::Ldsr => "ldsr"@,
            Opcode::Stsr => "stsr"@,
            Opcode::Sei => "sei"@,
            Opcode::Bv => "bv"@,
            Opcode::Bc => "bc"@,
            Opcode::Bz => "bz"@,
            Opcode::Bnh => "bnh"@,
            Opcode::Bn => "bn"@,
            Opcode::Br => "br"@,
            Opcode::Blt => "blt"@,
            Opcode::Ble => "ble"@,
            Opcode::Bnv => "bnv"@,
            Opcode::Bnc => "bnc"@,
            Opcode::Bnz => "bnz"@,
            Opcode::Bh => "bh"@,
            Opcode::Bp => "bp"@,
            Opcode::Nop => "nop"@,
            Opcode::Bge => "bge"@,
            Opcode::Bgt => "bgt"@,
            Opcode::Movea => "movea"@,
            Opcode::AddImm16 => "addi"@,
            Opcode::Jr => "jr"@,
            Opcode::Jal => "jal"@,
            Opcode::OrI => "ori"@,
            Opcode::AndI => "andi"@,
            Opcode::XorI => "xori"@,
            Opcode::Movhi => "movhi"@,
            Opcode::Ldb => "ld.b"@,
            Opcode::Ldh => "ld.h"@,
            Opcode::Ldw => "ld.w"@,
            Opcode::Stb => "st.b"@,
            Opcode::Sth => "st.h"@,
            Opcode::Stw => "st.w"@,
            Opcode::Inb => "in.b"@,
            Opcode::Inh => "in.h"@,
            Opcode::Inw => "in.w"@,
            Opcode::Outb => "out.b"@,
            Opcode::Outh => "out.h"@,
            Opcode::Extended => Seq::empty(),
            Opcode::Outw => "out.w"@,
        }
    }

    /// Decodes the first halfword of an instruction.
    pub fn from_halfword(halfword: u16) -> (r: Result<Opcode, DecodeError>)
        ensures
            r == decoded_opcode(halfword),
    {
        if halfword >> 13 == 0b100 {
            let cond_bits: u16 = (halfword >> 9) & 0x0f;
            Ok(
                match cond_bits {
                    0b0000 => Opcode::Bv,
                    0b0001 => Opcode::Bc,
                    0b0010 => Opcode::Bz,
                    0b0011 => Opcode::Bnh,
                    0b0100 => Opcode::Bn,
                    0b0101 => Opcode::Br,
                    0b0110 => Opcode::Blt,
                    0b0111 => Opcode::Ble,
                    0b1000 => Opcode::Bnv,
                    0b1001 => Opcode::Bnc,
                    0b1010 => Opcode::Bnz,
                    0b1011 => Opcode::Bh,
                    0b1100 => Opcode::Bp,
                    0b1101 => Opcode::Nop,
                    0b1110 => Opcode::Bge,
                    _ => Opcode::Bgt,
                },
            )
        } else {
            let opcode_bits: u16 = halfword >> 10;
            match opcode_bits {
                0b00000000 => Ok(Opcode::MovReg),
                0b00000001 => Ok(Opcode::AddReg),
                0b00000010 => Ok(Opcode::Sub),
                0b00000011 => Ok(Opcode::CmpReg),
                0b00000100 => Ok(Opcode::ShlReg),
                0b00000101 => Ok(Opcode::ShrReg),
                0b00000110 => Ok(Opcode::Jmp),
                0b00000111 => Ok(Opcode::SarReg),
                0b00001000 => Ok(Opcode::Mul),
                0b00001001 => Ok(Opcode::Div),
                0b00001010 => Ok(Opcode::MulU),
                0b00001011 => Ok(Opcode::DivU),
                0b00001100 => Ok(Opcode::Or),
                0b00001101 => Ok(Opcode::And),
                0b00001110 => Ok(Opcode::Xor),
                0b00001111 => Ok(Opcode::Not),
                0b00010000 => Ok(Opcode::MovImm),
                0b00010001 => Ok(Opcode::AddImm5),
                0b00010010 => Ok(Opcode::Setf),
                0b00010011 => Ok(Opcode::CmpImm),
                0b00010100 => Ok(Opcode::ShlImm),
                0b00010101 => Ok(Opcode::ShrImm),
                0b00010110 => Ok(Opcode::Cli),
                0b00010111 => Ok(Opcode::SarImm),
                0b00011001 => Ok(Opcode::Reti),
                0b00011010 => Ok(Opcode::Halt),
                0b00011100 => Ok(Opcode::Ldsr),
                0b00011101 => Ok(Opcode::Stsr),
                0b00011110 => Ok(Opcode::Sei),
                0b00101000 => Ok(Opcode::Movea),
                0b00101001 => Ok(Opcode::AddImm16),
                0b00101010 => Ok(Opcode::Jr),
                0b00101011 => Ok(Opcode::Jal),
                0b00101100 => Ok(Opcode::OrI),
                0b00101101 => Ok(Opcode::AndI),
                0b00101110 => Ok(Opcode::XorI),
                0b00101111 => Ok(Opcode::Movhi),
                0b00110000 => Ok(Opcode::Ldb),
                0b00110001 => Ok(Opcode::Ldh),
                0b00110011 => Ok(Opcode::Ldw),
                0b00110100 => Ok(Opcode::Stb),
                0b00110101 => Ok(Opcode::Sth),
                0b00110111 => Ok(Opcode::Stw),
                0b00111000 => Ok(Opcode::Inb),
                0b00111001 => Ok(Opcode::Inh),
                0b00111011 => Ok(Opcode::Inw),
                0b00111100 => Ok(Opcode::Outb),
                0b00111101 => Ok(Opcode::Outh),
                0b00111110 => Ok(Opcode::Extended),
                0b00111111 => Ok(Opcode::Outw),
                _ => Err(DecodeError::InvalidOpcode),
            }
        }
    }

    pub fn instruction_format(&self) -> (r: InstructionFormat)
        ensures
            r == self.format(),
    {
        match self {
            Opcode::MovReg => InstructionFormat::I,
            Opcode::AddReg => InstructionFormat::I,
            Opcode::Sub => InstructionFormat::I,
            Opcode::CmpReg => InstructionFormat::I,
            Opcode::ShlReg => InstructionFormat::I,
            Opcode::ShrReg => InstructionFormat::I,
            Opcode::Jmp => InstructionFormat::I,
            Opcode::SarReg => InstructionFormat::I,
            Opcode::Mul => InstructionFormat::I,
            Opcode::Div => InstructionFormat::I,
            Opcode::MulU => InstructionFormat::I,
            Opcode::DivU => InstructionFormat::I,
            Opcode::Or => InstructionFormat::I,
            Opcode::And => InstructionFormat::I,
            Opcode::Xor => InstructionFormat::I,
            Opcode::Not => InstructionFormat::I,
            Opcode::MovImm => InstructionFormat::II,
            Opcode::AddImm5 => InstructionFormat::II,
            Opcode::Setf => InstructionFormat::II,
            Opcode::CmpImm => InstructionFormat::II,
            Opcode::ShlImm => InstructionFormat::II,
            Opcode::ShrImm => InstructionFormat::II,
            Opcode::Cli => InstructionFormat::II,
            Opcode::SarImm => InstructionFormat::II,
            Opcode::Reti => InstructionFormat::II,
            Opcode::Halt => InstructionFormat::II,
            Opcode::Ldsr => InstructionFormat::II,
            Opcode::Stsr => InstructionFormat::II,
            Opcode::Sei => InstructionFormat::II,
            Opcode::Bv => InstructionFormat::III,
            Opcode::Bc => InstructionFormat::III,
            Opcode::Bz => InstructionFormat::III,
            Opcode::Bnh => InstructionFormat::III,
            Opcode::Bn => InstructionFormat::III,
            Opcode::Br => InstructionFormat::III,
            Opcode::Blt => InstructionFormat::III,
            Opcode::Ble => InstructionFormat::III,
            Opcode::Bnv => InstructionFormat::III,
            Opcode::Bnc => InstructionFormat::III,
            Opcode::Bnz => InstructionFormat::III,
            Opcode::Bh => InstructionFormat::III,
            Opcode::Bp => InstructionFormat::III,
            Opcode::Nop => InstructionFormat::III,
            Opcode::Bge => InstructionFormat::III,
            Opcode::Bgt => InstructionFormat::III,
            Opcode::Movea => InstructionFormat::V,
            Opcode::AddImm16 => InstructionFormat::V,
            Opcode::Jr => InstructionFormat::IV,
            Opcode::Jal => InstructionFormat::IV,
            Opcode::OrI => InstructionFormat::V,
            Opcode::AndI => InstructionFormat::V,
            Opcode::XorI => InstructionFormat::V,
            Opcode::Movhi => InstructionFormat::V,
            Opcode::Ldb => InstructionFormat::VI,
            Opcode::Ldh => InstructionFormat::VI,
            Opcode::Ldw => InstructionFormat::VI,
            Opcode::Stb => InstructionFormat::VI,
            Opcode::Sth => InstructionFormat::VI,
            Opcode::Stw => InstructionFormat::VI,
            Opcode::Inb => InstructionFormat::VI,
            Opcode::Inh => InstructionFormat::VI,
            Opcode::Inw => InstructionFormat::VI,
            Opcode::Outb => InstructionFormat::VI,
            Opcode::Outh => InstructionFormat::VI,
            Opcode::Extended => InstructionFormat::VII,
            Opcode::Outw => InstructionFormat::VI,
        }
    }

    /// The CPU cycles that an instruction with this opcode takes.
    pub fn num_cycles(&self, branch_taken: bool) -> (r: usize)
        ensures
            r == self.cycle_cost(branch_taken),
    {
        match self {
            Opcode::MovReg => 1,
            Opcode::AddReg => 1,
            Opcode::Sub => 1,
            Opcode::CmpReg => 1,
            Opcode::ShlReg => 1,
            Opcode::ShrReg => 1,
            Opcode::Jmp => 3,
            Opcode::SarReg => 1,
            Opcode::Mul => 13,
            Opcode::Div => 38,
            Opcode::MulU => 13,
            Opcode::DivU => 36,
            Opcode::Or => 1,
            Opcode::And => 1,
            Opcode::Xor => 1,
            Opcode::Not => 1,
            Opcode::MovImm => 1,
            Opcode::AddImm5 => 1,
            Opcode::Setf => 1,
            Opcode::CmpImm => 1,
            Opcode::ShlImm => 1,
            Opcode::ShrImm => 1,
            Opcode::Cli => 1,
            Opcode::SarImm => 1,
            Opcode::Reti => 1,
            Opcode::Halt => 1,
            Opcode::Ldsr => 1,
            Opcode::Stsr => 1,
            Opcode::Sei => 1,
            Opcode::Bv => if branch_taken { 3 } else { 1 },
            Opcode::Bc => if branch_taken { 3 } else { 1 },
            Opcode::Bz => if branch_taken { 3 } else { 1 },
            Opcode::Bnh => if branch_taken { 3 } else { 1 },
            Opcode::Bn => if branch_taken { 3 } else { 1 },
            Opcode::Br => if branch_taken { 3 } else { 1 },
            Opcode::Blt => if branch_taken { 3 } else { 1 },
            Opcode::Ble => if branch_taken { 3 } else { 1 },
            Opcode::Bnv => if branch_taken { 3 } else { 1 },
            Opcode::Bnc => if branch_taken { 3 } else { 1 },
            Opcode::Bnz => if branch_taken { 3 } else { 1 },
            Opcode::Bh => if branch_taken { 3 } else { 1 },
            Opcode::Bp => if branch_taken { 3 } else { 1 },
            Opcode::Nop => if branch_taken { 3 } else { 1 },
            Opcode::Bge => if branch_taken { 3 } else { 1 },
            Opcode::Bgt => if branch_taken { 3 } else { 1 },
            Opcode::Movea => 1,
            Opcode::AddImm16 => 1,
            Opcode::Jr => 3,
            Opcode::Jal => 3,
            Opcode::OrI => 1,
            Opcode::AndI => 1,
            Opcode::XorI => 1,
            Opcode::Movhi => 1,
            Opcode::Ldb => 4,
            Opcode::Ldh => 4,
            Opcode::Ldw => 4,
            Opcode::Stb => 4,
            Opcode::Sth => 4,
            Opcode::Stw => 4,
            Opcode::Inb => 4,
            Opcode::Inh => 4,
            Opcode::Inw => 4,
            Opcode::Outb => 4,
            Opcode::Outh => 4,
            Opcode::Extended => 1,
            Opcode::Outw => 4,
        }
    }

    /// The opcode's mnemonic.
    pub fn mnemonic(&self) -> (r: &'static str)
        requires
            *self != Opcode::Extended,
        ensures
            r@ == self.mnemonic_text(),
    {
        match self {
            Opcode::MovReg => "mov",
            Opcode::AddReg => "add",
            Opcode::Sub => "sub",
            Opcode::CmpReg => "cmp",
            Opcode::ShlReg => "shl",
            Opcode::ShrReg => "shr",
            Opcode::Jmp => "jmp",
            Opcode::SarReg => "sar",
            Opcode::Mul => "mul",
            Opcode::Div => "div",
            Opcode::MulU => "mulu",
            Opcode::DivU => "divu",
            Opcode::Or => "or",
            Opcode::And => "and",
            Opcode::Xor => "xor",
            Opcode::Not => "not",
            Opcode::MovImm => "mov",
            Opcode::AddImm5 => "add",
            Opcode::Setf => "setf",
            Opcode::CmpImm => "cmp",
            Opcode::ShlImm => "shl",
            Opcode::ShrImm => "shr",
            Opcode::Cli => "cli",
            Opcode::SarImm => "sar",
            Opcode::Reti => "reti",
            Opcode::Halt => "halt",
            Opcode::Ldsr => "ldsr",
            Opcode::Stsr => "stsr",
            Opcode::Sei => "sei",
            Opcode::Bv => "bv",
            Opcode::Bc => "bc",
            Opcode::Bz => "bz",
            Opcode::Bnh => "bnh",
            Opcode::Bn => "bn",
            Opcode::Br => "br",
            Opcode::Blt => "blt",
            Opcode::Ble => "ble",
            Opcode::Bnv => "bnv",
            Opcode::Bnc => "bnc",
            Opcode::Bnz => "bnz",
            Opcode::Bh => "bh",
            Opcode::Bp => "bp",
            Opcode::Nop => "nop",
            Opcode::Bge => "bge",
            Opcode::Bgt => "bgt",
            Opcode::Movea => "movea",
            Opcode::AddImm16 => "addi",
            Opcode::Jr => "jr",
            Opcode::Jal => "jal",
            Opcode::OrI => "ori",
            Opcode::AndI => "andi",
            Opcode::XorI => "xori",
            Opcode::Movhi => "movhi",
            Opcode::Ldb => "ld.b",
            Opcode::Ldh => "ld.h",
            Opcode::Ldw => "ld.w",
            Opcode::Stb => "st.b",
            Opcode::Sth => "st.h",
            Opcode::Stw => "st.w",
            Opcode::Inb => "in.b",
            Opcode::Inh => "in.h",
            Opcode::Inw => "in.w",
            Opcode::Outb => "out.b",
            Opcode::Outh => "out.h",
            Opcode::Extended => "",
            Opcode::Outw => "out.w",
        }
    }
}


impl InstructionFormat {
    /// Whether instructions of the format are two halfwords long.
    pub open spec fn two_halfwords(self) -> bool {
        !(self == InstructionFormat::I || self == InstructionFormat::II || self
            == InstructionFormat::III)
    }

    /// The length of the format's instructions in bytes: 2 or 4.
    pub open spec fn length(self) -> u32 {
        if self.two_halfwords() {
            4
        } else {
            2
        }
    }

    pub fn has_second_halfword(&self) -> (r: bool)
        ensures
            r == self.two_halfwords(),
    {
        match self {
            InstructionFormat::I => false,
            InstructionFormat::II => false,
            InstructionFormat::III => false,
            InstructionFormat::IV => true,
            InstructionFormat::V => true,
            InstructionFormat::VI => true,
            InstructionFormat::VII => true,
        }
    }
}

/// The operation of an extended instruction.
#[derive(Clone, Copy, Debug, PartialEq, Eq, Structural)]
pub enum SubOp {
    CmpfS,
    CvtWs,
    CvtSw,
    AddfS,
    SubfS,
    MulfS,
    DivfS,
    Xb,
    Xh,
    TrncSw,
    Mpyhw,
}

/// The extended operation with the given 6-bit sub-opcode, if there is one.
pub open spec fn subop_of_bits(subop: usize) -> Option<SubOp> {
    if subop == 0b00000000 {
        Some(SubOp::CmpfS)
    } else if subop == 0b00000010 {
        Some(SubOp::CvtWs)
    } else if subop == 0b00000011 {
        Some(SubOp::CvtSw)
    } else if subop == 0b00000100 {
        Some(SubOp::AddfS)
    } else if subop == 0b00000101 {
        Some(SubOp::SubfS)
    } else if subop == 0b00000110 {
        Some(SubOp::MulfS)
    } else if subop == 0b00000111 {
        Some(SubOp::DivfS)
    } else if subop == 0b00001000 {
        Some(SubOp::Xb)
    } else if subop == 0b00001001 {
        Some(SubOp::Xh)
    } else if subop == 0b00001011 {
        Some(SubOp::TrncSw)
    } else if subop == 0b00001100 {
        Some(SubOp::Mpyhw)
    } else {
        None
    }
}

impl SubOp {
    /// The 6-bit sub-opcode that names the operation.
    pub open spec fn code(self) -> usize {
        match self {
            SubOp::CmpfS => 0b000000,
            SubOp::CvtWs => 0b000010,
            SubOp::CvtSw => 0b000011,
            SubOp::AddfS => 0b000100,
            SubOp::SubfS => 0b000101,
            SubOp::MulfS => 0b000110,
            SubOp::DivfS => 0b000111,
            SubOp::Xb => 0b001000,
            SubOp::Xh => 0b001001,
            SubOp::TrncSw => 0b001011,
            SubOp::Mpyhw => 0b001100,
        }
    }

    /// The sub-opcode, from which `Opcode::subop` gives the operation back.
    pub fn bits(&self) -> (r: usize)
        ensures
            r == self.code(),
            subop_of_bits(r) == Some(*self),
    {
        match self {
            SubOp::CmpfS => 0b000000,
            SubOp::CvtWs => 0b000010,
            SubOp::CvtSw => 0b000011,
            SubOp::AddfS => 0b000100,
            SubOp::SubfS => 0b000101,
            SubOp::MulfS => 0b000110,
            SubOp::DivfS => 0b000111,
            SubOp::Xb => 0b001000,
            SubOp::Xh => 0b001001,
            SubOp::TrncSw => 0b001011,
            SubOp::Mpyhw => 0b001100,
        }
    }

    pub open spec fn mnemonic_text(self) -> Seq<char> {
        match self {
            SubOp::CmpfS => "cmpf.s"@,
            SubOp::CvtWs => "cvt.ws"@,
            SubOp::CvtSw => "cvt.sw"@,
            SubOp::AddfS => "addf.s"@,
            SubOp::SubfS => "subf.s"@,
            SubOp::MulfS => "mulf.s"@,
            SubOp::DivfS => "divf.s"@,
            SubOp::Xb => "xb"@,
            SubOp::Xh => "xh"@,
            SubOp::TrncSw => "trnc.sw"@,
            SubOp::Mpyhw => "mpyhw"@,
        }
    }

    pub fn mnemonic(&self) -> (r: &'static str)
        ensures
            r@ == self.mnemonic_text(),
    {
        match self {
            SubOp::CmpfS => "cmpf.s",
            SubOp::CvtWs => "cvt.ws",
            SubOp::CvtSw => "cvt.sw",
            SubOp::AddfS => "addf.s",
            SubOp::SubfS => "subf.s",
            SubOp::MulfS => "mulf.s",
            SubOp::DivfS => "divf.s",
            SubOp::Xb => "xb",
            SubOp::Xh => "xh",
            SubOp::TrncSw => "trnc.sw",
            SubOp::Mpyhw => "mpyhw",
        }
    }
}

/// A system register that LDSR and STSR can name.
#[derive(Clone, Copy, Debug, PartialEq, Eq, Structural)]
pub enum SystemRegister {
    Eipc,
    Eipsw,
    Fepc,
    Fepsw,
    Ecr,
    Psw,
    Chcw,
}

/// The system register with the given index; every other index is reserved.
pub open spec fn system_register_of_index(index: usize) -> Option<SystemRegister> {
    if index == 0 {
        Some(SystemRegister::Eipc)
    } else if index == 1 {
        Some(SystemRegister::Eipsw)
    } else if index == 2 {
        Some(SystemRegister::Fepc)
    } else if index == 3 {
        Some(SystemRegister::Fepsw)
    } else if index == 4 {
        Some(SystemRegister::Ecr)
    } else if index == 5 {
        Some(SystemRegister::Psw)
    } else if index == 24 {
        Some(SystemRegister::Chcw)
    } else {
        None
    }
}

impl SystemRegister {
    /// The index by which instructions name the register.
    pub open spec fn index(self) -> usize {
        match self {
            SystemRegister::Eipc => 0,
            SystemRegister::Eipsw => 1,
            SystemRegister::Fepc => 2,
            SystemRegister::Fepsw => 3,
            SystemRegister::Ecr => 4,
            SystemRegister::Psw => 5,
            SystemRegister::Chcw => 24,
        }
    }

    pub open spec fn mnemonic_text(self) -> Seq<char> {
        match self {
            SystemRegister::Eipc => "eipc"@,
            SystemRegister::Eipsw => "eipsw"@,
            SystemRegister::Fepc => "fepc"@,
            SystemRegister::Fepsw => "fepsw"@,
            SystemRegister::Ecr => "ecr"@,
            SystemRegister::Psw => "psw"@,
            SystemRegister::Chcw => "chcw"@,
        }
    }

    pub fn mnemonic(&self) -> (r: &'static str)
        ensures
            r@ == self.mnemonic_text(),
    {
        match self {
            SystemRegister::Eipc => "eipc",
            SystemRegister::Eipsw => "eipsw",
            SystemRegister::Fepc => "fepc",
            SystemRegister::Fepsw => "fepsw",
            SystemRegister::Ecr => "ecr",
            SystemRegister::Psw => "psw",
            SystemRegister::Chcw => "chcw",
        }
    }
}

/// A condition that SETF and the conditional branches test.
#[derive(Clone, Copy, Debug, PartialEq, Eq, Structural)]
pub enum Condition {
    V,
    C,
    Z,
    Nh,
    N,
    T,
    Lt,
    Le,
    Nv,
    Nc,
    Nz,
    H,
    P,
    F,
    Ge,
    Gt,
}

/// The condition with the given 4-bit number.
pub open spec fn condition_of_index(index: usize) -> Condition {
    if index == 0x00 {
        Condition::V
    } else if index == 0x01 {
        Condition::C
    } else if index == 0x02 {
        Condition::Z
    } else if index == 0x03 {
        Condition::Nh
    } else if index == 0x04 {
        Condition::N
    } else if index == 0x05 {
        Condition::T
    } else if index == 0x06 {
        Condition::Lt
    } else if index == 0x07 {
        Condition::Le
    } else if index == 0x08 {
        Condition::Nv
    } else if index == 0x09 {
        Condition::Nc
    } else if index == 0x0a {
        Condition::Nz
    } else if index == 0x0b {
        Condition::H
    } else if index == 0x0c {
        Condition::P
    } else if index == 0x0d {
        Condition::F
    } else if index == 0x0e {
        Condition::Ge
    } else {
        Condition::Gt
    }
}

impl Condition {
    pub open spec fn mnemonic_text(self) -> Seq<char> {
        match self {
            Condition::V => "v"@,
            Condition::C => "c"@,
            Condition::Z => "z"@,
            Condition::Nh => "nh"@,
            Condition::N => "n"@,
            Condition::T => "t"@,
            Condition::Lt => "lt"@,
            Condition::Le => "le"@,
            Condition::Nv => "nv"@,
            Condition::Nc => "nc"@,
            Condition::Nz => "nz"@,
            Condition::H => "h"@,
            Condition::P => "p"@,
            Condition::F => "f"@,
            Condition::Ge => "ge"@,
            Condition::Gt => "gt"@,
        }
    }

    pub fn mnemonic(&self) -> (r: &'static str)
        ensures
            r@ == self.mnemonic_text(),
    {
        match self {
            Condition::V => "v",
            Condition::C => "c",
            Condition::Z => "z",
            Condition::Nh => "nh",
            Condition::N => "n",
            Condition::T => "t",
            Condition::Lt => "lt",
            Condition::Le => "le",
            Condition::Nv => "nv",
            Condition::Nc => "nc",
            Condition::Nz => "nz",
            Condition::H => "h",
            Condition::P => "p",
            Condition::F => "f",
            Condition::Ge => "ge",
            Condition::Gt => "gt",
        }
    }
}

impl Opcode {
    /// The operation that the sub-opcode of an extended instruction names.
    pub fn subop(&self, subop: usize) -> (r: Result<SubOp, DecodeError>)
        ensures
            r == (match subop_of_bits(subop) {
                Some(op) => Ok::<SubOp, DecodeError>(op),
                None => Err(DecodeError::InvalidOpcode),
            }),
    {
        match subop {
            0b00000000 => Ok(SubOp::CmpfS),
            0b00000010 => Ok(SubOp::CvtWs),
            0b00000011 => Ok(SubOp::CvtSw),
            0b00000100 => Ok(SubOp::AddfS),
            0b00000101 => Ok(SubOp::SubfS),
            0b00000110 => Ok(SubOp::MulfS),
            0b00000111 => Ok(SubOp::DivfS),
            0b00001000 => Ok(SubOp::Xb),
            0b00001001 => Ok(SubOp::Xh),
            0b00001011 => Ok(SubOp::TrncSw),
            0b00001100 => Ok(SubOp::Mpyhw),
            _ => Err(DecodeError::InvalidOpcode),
        }
    }

    /// The system register that the immediate of LDSR or STSR names.
    pub fn system_register(&self, imm5: usize) -> (r: Result<SystemRegister, DecodeError>)
        ensures
            r == (match system_register_of_index(imm5) {
                Some(register) => Ok::<SystemRegister, DecodeError>(register),
                None => Err(DecodeError::InvalidSystemRegister),
            }),
    {
        match imm5 {
            0 => Ok(SystemRegister::Eipc),
            1 => Ok(SystemRegister::Eipsw),
            2 => Ok(SystemRegister::Fepc),
            3 => Ok(SystemRegister::Fepsw),
            4 => Ok(SystemRegister::Ecr),
            5 => Ok(SystemRegister::Psw),
            24 => Ok(SystemRegister::Chcw),
            _ => Err(DecodeError::InvalidSystemRegister),
        }
    }

    /// The condition that a 4-bit number names.
    pub fn condition(&self, imm5: usize) -> (r: Condition)
        requires
            imm5 < 16,
        ensures
            r == condition_of_index(imm5),
    {
        match imm5 {
            0x00 => Condition::V,
            0x01 => Condition::C,
            0x02 => Condition::Z,
            0x03 => Condition::Nh,
            0x04 => Condition::N,
            0x05 => Condition::T,
            0x06 => Condition::Lt,
            0x07 => Condition::Le,
            0x08 => Condition::Nv,
            0x09 => Condition::Nc,
            0x0a => Condition::Nz,
            0x0b => Condition::H,
            0x0c => Condition::P,
            0x0d => Condition::F,
            0x0e => Condition::Ge,
            _ => Condition::Gt,
        }
    }
}

/// The first register operand, bits 0 to 4 of the first halfword.
pub open spec fn operand_reg1(first: u16) -> usize {
    (first & 0x1f) as usize
}

/// The second register operand, bits 5 to 9 of the first halfword.
pub open spec fn operand_reg2(first: u16) -> usize {
    ((first >> 5) & 0x1f) as usize
}

/// The five-bit immediate, bits 0 to 4 of the first halfword.
pub open spec fn operand_imm5(first: u16) -> u32 {
    (first & 0x1f) as u32
}

/// The displacement of a conditional branch: nine bits, sign-extended.
pub open spec fn branch_displacement(first: u16) -> u32 {
    let disp9 = (first & 0x01ff) as u32;
    if disp9 & 0x0100 == 0 {
        disp9
    } else {
        disp9 | 0xffff_fe00
    }
}

/// The displacement of a jump: 26 bits, the top ten of them in the first
/// halfword, sign-extended.
pub open spec fn jump_displacement(first: u16, second: u16) -> u32 {
    let disp26 = (((first as u32) & 0x03ff) << 16) | (second as u32);
    if disp26 & 0x0200_0000 == 0 {
        disp26
    } else {
        disp26 | 0xfc00_0000
    }
}

/// The ten operand bits of a first halfword, nine for a conditional branch.
pub open spec fn operand_bits(halfword: u16) -> u16 {
    if is_branch(halfword) {
        halfword & 0x01ff
    } else {
        halfword & 0x03ff
    }
}

/// The two register operands as the low ten bits of a first halfword.
pub open spec fn packed_registers(reg1: u16, reg2: u16) -> u16 {
    (reg2 << 5) | reg1
}

impl Opcode {
    /// The bits that name the opcode in a first halfword: the 4-bit condition
    /// of a conditional branch, the 6-bit opcode of any other instruction.
    pub open spec fn code(self) -> u16 {
        match self {
            Opcode::MovReg => 0b000000,
            Opcode::AddReg => 0b000001,
            Opcode::Sub => 0b000010,
            Opcode::CmpReg => 0b000011,
            Opcode::ShlReg => 0b000100,
            Opcode::ShrReg => 0b000101,
            Opcode::Jmp => 0b000110,
            Opcode::SarReg => 0b000111,
            Opcode::Mul => 0b001000,
            Opcode::Div => 0b001001,
            Opcode::MulU => 0b001010,
            Opcode::DivU => 0b001011,
            Opcode::Or => 0b001100,
            Opcode::And => 0b001101,
            Opcode::Xor => 0b001110,
            Opcode::Not => 0b001111,
            Opcode::MovImm => 0b010000,
            Opcode::AddImm5 => 0b010001,
            Opcode::Setf => 0b010010,
            Opcode::CmpImm => 0b010011,
            Opcode::ShlImm => 0b010100,
            Opcode::ShrImm => 0b010101,
            Opcode::Cli => 0b010110,
            Opcode::SarImm => 0b010111,
            Opcode::Reti => 0b011001,
            Opcode::Halt => 0b011010,
            Opcode::Ldsr => 0b011100,
            Opcode::Stsr => 0b011101,
            Opcode::Sei => 0b011110,
            Opcode::Bv => 0b0000,
            Opcode::Bc => 0b0001,
            Opcode::Bz => 0b0010,
            Opcode::Bnh => 0b0011,
            Opcode::Bn => 0b0100,
            Opcode::Br => 0b0101,
            Opcode::Blt => 0b0110,
            Opcode::Ble => 0b0111,
            Opcode::Bnv => 0b1000,
            Opcode::Bnc => 0b1001,
            Opcode::Bnz => 0b1010,
            Opcode::Bh => 0b1011,
            Opcode::Bp => 0b1100,
            Opcode::Nop => 0b1101,
            Opcode::Bge => 0b1110,
            Opcode::Bgt => 0b1111,
            Opcode::Movea => 0b101000,
            Opcode::AddImm16 => 0b101001,
            Opcode::Jr => 0b101010,
            Opcode::Jal => 0b101011,
            Opcode::OrI => 0b101100,
            Opcode::AndI => 0b101101,
            Opcode::XorI => 0b101110,
            Opcode::Movhi => 0b101111,
            Opcode::Ldb => 0b110000,
            Opcode::Ldh => 0b110001,
            Opcode::Ldw => 0b110011,
            Opcode::Stb => 0b110100,
            Opcode::Sth => 0b110101,
            Opcode::Stw => 0b110111,
            Opcode::Inb => 0b111000,
            Opcode::Inh => 0b111001,
            Opcode::Inw => 0b111011,
            Opcode::Outb => 0b111100,
            Opcode::Outh => 0b111101,
            Opcode::Extended => 0b111110,
            Opcode::Outw => 0b111111,
        }
    }

    /// The first halfword of an instruction with this opcode and the given
    /// operand bits, of which a conditional branch takes the low nine and any
    /// other instruction the low ten.
    pub open spec fn encoded(self, operands: u16) -> u16 {
        if self.is_conditional_branch() {
            0x8000 | (self.code() << 9) | (operands & 0x01ff)
        } else {
            (self.code() << 10) | (operands & 0x03ff)
        }
    }

    /// Encodes the first halfword of an instruction.
    pub fn encode(&self, operands: u16) -> (r: u16)
        ensures
            r == self.encoded(operands),
            decoded_opcode(r) == Ok::<Opcode, DecodeError>(*self),
    {
        proof {
            lemma_encode_decode(*self, operands);
        }
        let code: u16 = match self {
            Opcode::MovReg => 0b000000,
            Opcode::AddReg => 0b000001,
            Opcode::Sub => 0b000010,
            Opcode::CmpReg => 0b000011,
            Opcode::ShlReg => 0b000100,
            Opcode::ShrReg => 0b000101,
            Opcode::Jmp => 0b000110,
            Opcode::SarReg => 0b000111,
            Opcode::Mul => 0b001000,
            Opcode::Div => 0b001001,
            Opcode::MulU => 0b001010,
            Opcode::DivU => 0b001011,
            Opcode::Or => 0b001100,
            Opcode::And => 0b001101,
            Opcode::Xor => 0b001110,
            Opcode::Not => 0b001111,
            Opcode::MovImm => 0b010000,
            Opcode::AddImm5 => 0b010001,
            Opcode::Setf => 0b010010,
            Opcode::CmpImm => 0b010011,
            Opcode::ShlImm => 0b010100,
            Opcode::ShrImm => 0b010101,
            Opcode::Cli => 0b010110,
            Opcode::SarImm => 0b010111,
            Opcode::Reti => 0b011001,
            Opcode::Halt => 0b011010,
            Opcode::Ldsr => 0b011100,
            Opcode::Stsr => 0b011101,
            Opcode::Sei => 0b011110,
            Opcode::Bv => 0b0000,
            Opcode::Bc => 0b0001,
            Opcode::Bz => 0b0010,
            Opcode::Bnh => 0b0011,
            Opcode::Bn => 0b0100,
            Opcode::Br => 0b0101,
            Opcode::Blt => 0b0110,
            Opcode::Ble => 0b0111,
            Opcode::Bnv => 0b1000,
            Opcode::Bnc => 0b1001,
            Opcode::Bnz => 0b1010,
            Opcode::Bh => 0b1011,
            Opcode::Bp => 0b1100,
            Opcode::Nop => 0b1101,
            Opcode::Bge => 0b1110,
            Opcode::Bgt => 0b1111,
            Opcode::Movea => 0b101000,
            Opcode::AddImm16 => 0b101001,
            Opcode::Jr => 0b101010,
            Opcode::Jal => 0b101011,
            Opcode::OrI => 0b101100,
            Opcode::AndI => 0b101101,
            Opcode::XorI => 0b101110,
            Opcode::Movhi => 0b101111,
            Opcode::Ldb => 0b110000,
            Opcode::Ldh => 0b110001,
            Opcode::Ldw => 0b110011,
            Opcode::Stb => 0b110100,
            Opcode::Sth => 0b110101,
            Opcode::Stw => 0b110111,
            Opcode::Inb => 0b111000,
            Opcode::Inh => 0b111001,
            Opcode::Inw => 0b111011,
            Opcode::Outb => 0b111100,
            Opcode::Outh => 0b111101,
            Opcode::Extended => 0b111110,
            Opcode::Outw => 0b111111,
        };
        match self.instruction_format() {
            InstructionFormat::III => 0x8000 | (code << 9) | (operands & 0x01ff),
            _ => (code << 10) | (operands & 0x03ff),
        }
    }
}

/// How the fields of a conditional branch's halfword come apart again.
pub proof fn lemma_branch_fields(code: u16, operands: u16)
    by (bit_vector)
    requires
        code < 16,
    ensures
        (0x8000 | (code << 9) | (operands & 0x01ff)) >> 13 == 0b100,
        ((0x8000 | (code << 9) | (operands & 0x01ff)) >> 9) & 0x0f == code,
        (0x8000 | (code << 9) | (operands & 0x01ff)) & 0x01ff == operands & 0x01ff,
{
}

/// How the fields of any other first halfword come apart again.
pub proof fn lemma_opcode_fields(code: u16, operands: u16)
    by (bit_vector)
    requires
        code < 64,
    ensures
        ((code << 10) | (operands & 0x03ff)) >> 10 == code,
        ((code << 10) | (operands & 0x03ff)) >> 13 == code >> 3,
        ((code << 10) | (operands & 0x03ff)) & 0x03ff == operands & 0x03ff,
        code >> 3 == 0b100 <==> 32 <= code < 40,
{
}

/// How two register numbers come apart again from the operand bits.
pub proof fn lemma_register_fields(code: u16, reg1: u16, reg2: u16)
    by (bit_vector)
    requires
        code < 64,
        reg1 < 32,
        reg2 < 32,
    ensures
        ((reg2 << 5) | reg1) & 0x03ff == (reg2 << 5) | reg1,
        ((code << 10) | ((reg2 << 5) | reg1)) & 0x1f == reg1,
        (((code << 10) | ((reg2 << 5) | reg1)) >> 5) & 0x1f == reg2,
{
}

/// Decoding what was encoded gives the opcode and the operand bits back, for
/// every opcode.
pub proof fn lemma_encode_decode(opcode: Opcode, operands: u16)
    ensures
        decoded_opcode(opcode.encoded(operands)) == Ok::<Opcode, DecodeError>(opcode),
        operand_bits(opcode.encoded(operands)) == (if opcode.is_conditional_branch() {
            operands & 0x01ff
        } else {
            operands & 0x03ff
        }),
{
    if opcode.is_conditional_branch() {
        lemma_branch_fields(opcode.code(), operands);
    } else {
        lemma_opcode_fields(opcode.code(), operands);
    }
}

/// Decoding an instruction that was encoded with two register operands gives
/// the opcode and both registers back. The five-bit immediate of format II
/// stands where the first register does.
pub proof fn lemma_encode_decode_registers(opcode: Opcode, reg1: u16, reg2: u16)
    requires
        !opcode.is_conditional_branch(),
        reg1 < 32,
        reg2 < 32,
    ensures
        ({
            let halfword = opcode.encoded(packed_registers(reg1, reg2));
            &&& decoded_opcode(halfword) == Ok::<Opcode, DecodeError>(opcode)
            &&& operand_reg1(halfword) == reg1
            &&& operand_reg2(halfword) == reg2
            &&& operand_imm5(halfword) == reg1
        }),
{
    lemma_encode_decode(opcode, packed_registers(reg1, reg2));
    lemma_register_fields(opcode.code(), reg1, reg2);
}

/// The nine-bit displacement of a conditional branch, as encoded.
pub open spec fn encoded_branch_displacement(displacement: u32) -> u16 {
    (displacement & 0x01ff) as u16
}

/// How a branch displacement comes back from its nine bits.
pub proof fn lemma_branch_displacement_bits(code: u16, displacement: u32)
    by (bit_vector)
    requires
        code < 16,
        displacement <= 0xff || displacement >= 0xffff_ff00,
    ensures
        ({
            let halfword = 0x8000u16 | (code << 9) | (((displacement & 0x01ff) as u16) & 0x01ff);
            let disp9 = (halfword & 0x01ff) as u32;
            (if disp9 & 0x0100 == 0 {
                disp9
            } else {
                disp9 | 0xffff_fe00
            }) == displacement
        }),
{
}

/// Decoding a conditional branch that was encoded gives the opcode and the
/// displacement back, for every displacement that nine bits can hold.
pub proof fn lemma_encode_decode_branch(opcode: Opcode, displacement: u32)
    requires
        opcode.is_conditional_branch(),
        displacement <= 0xff || displacement >= 0xffff_ff00,
    ensures
        ({
            let halfword = opcode.encoded(encoded_branch_displacement(displacement));
            &&& decoded_opcode(halfword) == Ok::<Opcode, DecodeError>(opcode)
            &&& branch_displacement(halfword) == displacement
        }),
{
    lemma_encode_decode(opcode, encoded_branch_displacement(displacement));
    lemma_branch_displacement_bits(opcode.code(), displacement);
}

/// The ten displacement bits that a jump keeps in its first halfword.
pub open spec fn encoded_jump_high(displacement: u32) -> u16 {
    ((displacement >> 16) & 0x03ff) as u16
}

/// The sixteen displacement bits that a jump keeps in its second halfword.
pub open spec fn encoded_jump_low(displacement: u32) -> u16 {
    displacement as u16
}

/// How a jump displacement comes back from its 26 bits.
pub proof fn lemma_jump_displacement_bits(code: u16, displacement: u32)
    by (bit_vector)
    requires
        code < 64,
        displacement <= 0x01ff_ffff || displacement >= 0xfe00_0000,
    ensures
        ({
            let first = (code << 10) | ((((displacement >> 16) & 0x03ff) as u16) & 0x03ff);
            let second = displacement as u16;
            let disp26 = (((first as u32) & 0x03ff) << 16) | (second as u32);
            (if disp26 & 0x0200_0000 == 0 {
                disp26
            } else {
                disp26 | 0xfc00_0000
            }) == displacement
        }),
{
}

/// Decoding a jump that was encoded gives the opcode and the displacement
/// back, for every displacement that 26 bits can hold.
pub proof fn lemma_encode_decode_jump(opcode: Opcode, displacement: u32)
    requires
        opcode == Opcode::Jr || opcode == Opcode::Jal,
        displacement <= 0x01ff_ffff || displacement >= 0xfe00_0000,
    ensures
        ({
            let first = opcode.encoded(encoded_jump_high(displacement));
            let second = encoded_jump_low(displacement);
            &&& decoded_opcode(first) == Ok::<Opcode, DecodeError>(opcode)
            &&& jump_displacement(first, second) == displacement
        }),
{
    lemma_encode_decode(opcode, encoded_jump_high(displacement));
    lemma_jump_displacement_bits(opcode.code(), displacement);
}

/// Conditional branches take 3 cycles where they are taken and 1 where they
/// are not.
pub proof fn lemma_branch_cycle_cost(opcode: Opcode)
    requires
        opcode.is_conditional_branch(),
    ensures
        opcode.cycle_cost(true) == 3,
        opcode.cycle_cost(false) == 1,
{
}

} // verus!
