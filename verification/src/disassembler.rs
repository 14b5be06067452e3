//! Instructions taken apart for display: the opcode and the operands that
//! the instruction's format gives it.

use vstd::prelude::*;
use crate::bits::lemma_mask_bound_u16;
use crate::instruction::branch_displacement;
use crate::instruction::decoded_opcode;
use crate::instruction::jump_displacement;
use crate::instruction::operand_imm5;
use crate::instruction::operand_reg1;
use crate::instruction::operand_reg2;
use crate::instruction::subop_of_bits;
use crate::instruction::system_register_of_index;
use crate::instruction::DecodeError;
use crate::instruction::InstructionFormat;
use crate::instruction::Opcode;
use crate::instruction::SubOp;
use crate::instruction::SystemRegister;

verus! {

/// The operands of an instruction, as a disassembly shows them.
#[derive(Clone, Copy, Debug, PartialEq, Eq, Structural)]
pub enum Operands {
    /// Two registers: `op r1, r2`.
    Registers { reg1: usize, reg2: usize },
    /// The register that holds the target of a jump: `jmp [r1]`.
    JumpRegister { reg1: usize },
    /// A five-bit immediate and a register: `op imm5, r2`.
    Immediate { imm5: usize, reg2: usize },
    /// Nothing: `cli`, `reti`, `halt` and `sei`.
    Nothing,
    /// A register and a system register: `ldsr r2, sysreg`.
    SystemRegister { reg2: usize, system_register: SystemRegister },
    /// The nine displacement bits of a conditional branch and where it leads.
    Branch { disp9: u16, target: u32 },
    /// The 26 displacement bits of a jump and where it leads.
    Jump { disp26: u32, target: u32 },
    /// A sixteen-bit immediate and two registers: `op imm16, r1, r2`.
    Immediate16 { imm16: u16, reg1: usize, reg2: usize },
    /// A displacement, its base register and a register: `op disp16[r1], r2`.
    Memory { disp16: i16, reg1: usize, reg2: usize },
    /// The operation of an extended instruction and two registers:
    /// `subop r1, r2`.
    Extended { subop: SubOp, reg1: usize, reg2: usize },
}

/// An instruction taken apart.
#[derive(Clone, Copy, Debug, PartialEq, Eq, Structural)]
pub struct Disassembly {
    pub opcode: Opcode,
    pub operands: Operands,
    /// Where the next instruction starts.
    pub next: u32,
}

/// The operands of an instruction of format II: the control instructions
/// have none, LDSR and STSR name a system register, which must not be a
/// reserved one.
pub open spec fn immediate_operands(opcode: Opcode, first: u16) -> Result<Operands, DecodeError> {
    let imm5 = operand_imm5(first) as usize;
    let reg2 = operand_reg2(first);
    if opcode == Opcode::Cli || opcode == Opcode::Reti || opcode == Opcode::Halt || opcode
        == Opcode::Sei {
        Ok(Operands::Nothing)
    } else if opcode == Opcode::Ldsr || opcode == Opcode::Stsr {
        match system_register_of_index(imm5) {
            Some(system_register) => Ok(Operands::SystemRegister { reg2, system_register }),
            None => Err(DecodeError::InvalidSystemRegister),
        }
    } else {
        Ok(Operands::Immediate { imm5, reg2 })
    }
}

/// The operands of an instruction at `cursor` with the given opcode and
/// halfwords. A displacement counts from the instruction itself.
pub open spec fn operands_of(opcode: Opcode, cursor: u32, first: u16, second: u16) -> Result<
    Operands,
    DecodeError,
> {
    let reg1 = operand_reg1(first);
    let reg2 = operand_reg2(first);
    match opcode.format() {
        InstructionFormat::I => if opcode == Opcode::Jmp {
            Ok(Operands::JumpRegister { reg1 })
        } else {
            Ok(Operands::Registers { reg1, reg2 })
        },
        InstructionFormat::II => immediate_operands(opcode, first),
        InstructionFormat::III => Ok(
            Operands::Branch {
                disp9: first & 0x01ff,
                target: cursor.wrapping_add(branch_displacement(first)),
            },
        ),
        InstructionFormat::IV => Ok(
            Operands::Jump {
                disp26: (((first as u32) & 0x03ff) << 16) | (second as u32),
                target: cursor.wrapping_add(jump_displacement(first, second)),
            },
        ),
        InstructionFormat::V => Ok(Operands::Immediate16 { imm16: second, reg1, reg2 }),
        InstructionFormat::VI => Ok(Operands::Memory { disp16: second as i16, reg1, reg2 }),
        InstructionFormat::VII => match subop_of_bits((second >> 10) as usize) {
            Some(subop) => Ok(Operands::Extended { subop, reg1, reg2 }),
            None => Err(DecodeError::InvalidOpcode),
        },
    }
}

/// The instruction at `cursor` taken apart, from its first halfword and the
/// halfword after it, which counts only where the format has a second
/// halfword.
pub open spec fn disassembled(cursor: u32, first: u16, second: u16) -> Result<
    Disassembly,
    DecodeError,
> {
    match decoded_opcode(first) {
        Err(e) => Err(e),
        Ok(opcode) => match operands_of(opcode, cursor, first, second) {
            Err(e) => Err(e),
            Ok(operands) => Ok(
                Disassembly {
                    opcode,
                    operands,
                    next: cursor.wrapping_add(opcode.format().length()),
                },
            ),
        },
    }
}

fn disassemble_immediate(opcode: Opcode, first: u16) -> (r: Result<Operands, DecodeError>)
    ensures
        r == immediate_operands(opcode, first),
{
    proof {
        lemma_mask_bound_u16(first, 0x1f);
        lemma_mask_bound_u16(first >> 5, 0x1f);
    }
    let imm5: usize = (first & 0x1f) as usize;
    let reg2: usize = ((first >> 5) & 0x1f) as usize;
    match opcode {
        Opcode::Cli | Opcode::Reti | Opcode::Halt | Opcode::Sei => Ok(Operands::Nothing),
        Opcode::Ldsr | Opcode::Stsr => match opcode.system_register(imm5) {
            Ok(system_register) => Ok(Operands::SystemRegister { reg2, system_register }),
            Err(e) => Err(e),
        },
        _ => Ok(Operands::Immediate { imm5, reg2 }),
    }
}

/// Takes the instruction at `cursor` apart. `second` is the halfword after
/// the first one; it counts only where the format has a second halfword.
pub fn disassemble(cursor: u32, first: u16, second: u16) -> (r: Result<Disassembly, DecodeError>)
    ensures
        r == disassembled(cursor, first, second),
{
    let opcode = match Opcode::from_halfword(first) {
        Ok(opcode) => opcode,
        Err(e) => {
            return Err(e);
        },
    };
    proof {
        lemma_mask_bound_u16(first, 0x1f);
        lemma_mask_bound_u16(first >> 5, 0x1f);
    }
    let reg1: usize = (first & 0x1f) as usize;
    let reg2: usize = ((first >> 5) & 0x1f) as usize;
    let format = opcode.instruction_format();
    let length: u32 = if format.has_second_halfword() {
        4
    } else {
        2
    };
    let operands = match format {
        InstructionFormat::I => {
            match opcode {
                Opcode::Jmp => Operands::JumpRegister { reg1 },
                _ => Operands::Registers { reg1, reg2 },
            }
        },
        InstructionFormat::II => {
            match disassemble_immediate(opcode, first) {
                Ok(operands) => operands,
                Err(e) => {
                    return Err(e);
                },
            }
        },
        InstructionFormat::III => {
            let disp9: u16 = first & 0x01ff;
            let disp: u32 = if (disp9 as u32) & 0x0100 == 0 {
                disp9 as u32
            } else {
                (disp9 as u32) | 0xffff_fe00
            };
            Operands::Branch { disp9, target: cursor.wrapping_add(disp) }
        },
        InstructionFormat::IV => {
            let disp26: u32 = (((first as u32) & 0x03ff) << 16) | (second as u32);
            let disp: u32 = if disp26 & 0x0200_0000 == 0 {
                disp26
            } else {
                disp26 | 0xfc00_0000
            };
            Operands::Jump { disp26, target: cursor.wrapping_add(disp) }
        },
        InstructionFormat::V => Operands::Immediate16 { imm16: second, reg1, reg2 },
        InstructionFormat::VI => Operands::Memory { disp16: second as i16, reg1, reg2 },
        InstructionFormat::VII => {
            match opcode.subop((second >> 10) as usize) {
                Ok(subop) => Operands::Extended { subop, reg1, reg2 },
                Err(e) => {
                    return Err(e);
                },
            }
        },
    };
    Ok(Disassembly { opcode, operands, next: cursor.wrapping_add(length) })
}

} // verus!
