//! The CPU's state and what instructions, exceptions and interrupts do to
//! it.

use vstd::prelude::*;
use crate::instruction::branch_displacement;
use crate::instruction::jump_displacement;
use crate::instruction::operand_imm5;
use crate::instruction::operand_reg1;
use crate::instruction::operand_reg2;
use crate::instruction::condition_of_index;
use crate::instruction::decoded_opcode;
use crate::instruction::subop_of_bits;
use crate::instruction::system_register_of_index;
use crate::instruction::Condition;
use crate::instruction::InstructionFormat;
use crate::instruction::Opcode;
use crate::instruction::SubOp;
use crate::instruction::SystemRegister;
use crate::interconnect::InterconnectView;
use crate::nvc::alu::difference;
use crate::nvc::alu::logical;
use crate::nvc::alu::product;
use crate::nvc::alu::quotient;
use crate::nvc::alu::shift_left;
use crate::nvc::alu::shift_right;
use crate::nvc::alu::shift_right_arithmetic;
use crate::nvc::alu::sign_extend_16;
use crate::nvc::alu::sign_extend_5;
use crate::nvc::alu::sign_extend_8;
use crate::nvc::alu::sum;
use crate::nvc::alu::unsigned_product;
use crate::nvc::alu::unsigned_quotient;
use crate::nvc::alu::AluResult;
use crate::nvc::alu::Flags;
use crate::nvc::alu::WideResult;
use crate::nvc::float::float_exception;
use crate::nvc::float::is_float_subop;
use crate::nvc::float::operand_flags;
use crate::nvc::float::FloatAnswer;
use crate::nvc::float::FloatRequest;
use crate::nvc::float::FLOAT_HANDLER_PC;
use crate::nvc::float::FLOAT_INVALID_OPERATION_CODE;
use crate::nvc::float::FLOAT_OVERFLOW_CODE;
use crate::nvc::float::FLOAT_RESERVED_OPERAND_CODE;
use crate::nvc::float::FLOAT_ZERO_DIVISION_CODE;
use crate::nvc::psw::Psw;

verus! {

pub const GPR_COUNT: usize = 32;

/// The register that takes the high word of a product and the remainder of
/// a division.
pub const EXTRA_REGISTER: usize = 30;

/// The register that JAL leaves the return address in.
pub const LINK_REGISTER: usize = 31;

pub const RESET_PC: u32 = 0xffff_fff0;

/// Exception handlers lie in the top 64 KiB, at their exception code.
pub const EXCEPTION_HANDLER_BASE: u32 = 0xffff_0000;

/// The handler of an exception that arrives while another one is being
/// handled.
pub const DUPLEXED_EXCEPTION_PC: u32 = 0xffff_ffd0;

pub const DIVIDE_BY_ZERO_CODE: u16 = 0xff80;
pub const INVALID_OPCODE_CODE: u16 = 0xff90;
pub const ADDRESS_TRAP_CODE: u16 = 0xffc0;

/// The CPU's state.
pub struct NvcState {
    /// The 32 general-purpose registers; r0 is always 0.
    pub gpr: Seq<u32>,
    pub pc: u32,
    pub psw: Psw,
    pub eipc: u32,
    pub eipsw: u32,
    pub fepc: u32,
    pub fepsw: u32,
    pub ecr: u32,
    pub chcw: u32,
    pub halted: bool,
    /// An interrupt that was requested while it could not be accepted.
    pub pending_interrupt: Option<u16>,
    /// The floating-point instruction that waits for its answer.
    pub float_request: Option<FloatRequest>,
    /// The addresses that the debugger watches.
    pub watchpoints: Set<u32>,
}

/// The condition that a conditional branch tests.
pub open spec fn branch_condition(opcode: Opcode) -> Condition {
    match opcode {
        Opcode::Bv => Condition::V,
        Opcode::Bc => Condition::C,
        Opcode::Bz => Condition::Z,
        Opcode::Bnh => Condition::Nh,
        Opcode::Bn => Condition::N,
        Opcode::Br => Condition::T,
        Opcode::Blt => Condition::Lt,
        Opcode::Ble => Condition::Le,
        Opcode::Bnv => Condition::Nv,
        Opcode::Bnc => Condition::Nc,
        Opcode::Bnz => Condition::Nz,
        Opcode::Bh => Condition::H,
        Opcode::Bp => Condition::P,
        Opcode::Bge => Condition::Ge,
        Opcode::Bgt => Condition::Gt,
        _ => Condition::F,
    }
}

/// The level of an interrupt, which its vector holds in bits 4 to 7.
pub open spec fn interrupt_level(vector: u16) -> u8 {
    ((vector >> 4) & 0x0f) as u8
}

/// Whether the code is that of a floating-point exception.
pub open spec fn is_float_code(code: u16) -> bool {
    code == FLOAT_RESERVED_OPERAND_CODE || code == FLOAT_OVERFLOW_CODE || code
        == FLOAT_ZERO_DIVISION_CODE || code == FLOAT_INVALID_OPERATION_CODE
}

/// Where the handler of an exception lies: at its code, but for the
/// floating-point exceptions, which share one handler.
pub open spec fn handler_address(code: u16) -> u32 {
    if is_float_code(code) {
        FLOAT_HANDLER_PC
    } else {
        (EXCEPTION_HANDLER_BASE | (code as u32)) & 0xffff_fffe
    }
}

/// A word with the two bytes of its low halfword swapped.
pub open spec fn bytes_swapped(value: u32) -> u32 {
    (value & 0xffff_0000) | ((value << 8) & 0x0000_ff00) | ((value >> 8) & 0x0000_00ff)
}

/// A word with its two halfwords swapped.
pub open spec fn halfwords_swapped(value: u32) -> u32 {
    (value << 16) | (value >> 16)
}

/// The low seventeen bits of a word as a two's-complement number.
pub open spec fn sign_extend_17(value: u32) -> i32 {
    ((value << 15) as i32) >> 15
}

/// What a memory instruction does to the CPU and to what lies behind the
/// bus.
pub struct MemoryOutcome {
    pub cpu: NvcState,
    pub bus: InterconnectView,
}

/// What a step does.
pub struct StepOutcome {
    pub cpu: NvcState,
    pub bus: InterconnectView,
    /// The CPU cycles that the step took.
    pub cycles: usize,
    /// Whether a load or a store went to a watched address.
    pub watchpoint_hit: bool,
}

impl NvcState {
    pub open spec fn wf(self) -> bool {
        &&& self.gpr.len() == GPR_COUNT
        &&& self.gpr[0] == 0
        &&& self.pc % 2 == 0
        &&& self.psw.interrupt_mask_level <= 15
        &&& (self.float_request matches Some(request) ==> request.reg2 < GPR_COUNT
            && is_float_subop(request.subop))
    }

    /// The state after a reset: the program counter at the reset vector, all
    /// registers 0, of the status word only NP set, not halted, no interrupt
    /// pending, no floating-point instruction waiting. The watchpoints stay.
    pub open spec fn reset_state(watchpoints: Set<u32>) -> NvcState {
        NvcState {
            gpr: Seq::new(GPR_COUNT as nat, |i: int| 0u32),
            pc: RESET_PC,
            psw: Psw::initial(),
            eipc: 0,
            eipsw: 0,
            fepc: 0,
            fepsw: 0,
            ecr: 0,
            chcw: 0,
            halted: false,
            pending_interrupt: None,
            float_request: None,
            watchpoints,
        }
    }

    /// The state with a register written; a write to r0 is discarded.
    pub open spec fn with_gpr(self, index: usize, value: u32) -> NvcState {
        if index == 0 {
            self
        } else {
            NvcState { gpr: self.gpr.update(index as int, value), ..self }
        }
    }

    pub open spec fn with_pc(self, pc: u32) -> NvcState {
        NvcState { pc, ..self }
    }

    /// The state with the program counter moved on by the length of an
    /// instruction.
    pub open spec fn advanced(self, length: u32) -> NvcState {
        self.with_pc(self.pc.wrapping_add(length))
    }

    pub open spec fn with_flags(self, flags: Flags) -> NvcState {
        NvcState { psw: self.psw.with_flags(flags), ..self }
    }

    /// The state with a result in a register and its flags in the status
    /// word.
    pub open spec fn with_result(self, index: usize, result: AluResult) -> NvcState {
        self.with_gpr(index, result.value).with_flags(result.flags)
    }

    /// The state with the extra word in r30, the value in a register, which
    /// wins where the register is r30, and the flags in the status word.
    pub open spec fn with_wide(self, index: usize, result: WideResult) -> NvcState {
        self.with_gpr(EXTRA_REGISTER, result.extra).with_gpr(index, result.value).with_flags(
            result.flags,
        )
    }

    pub open spec fn system_register(self, register: SystemRegister) -> u32 {
        match register {
            SystemRegister::Eipc => self.eipc,
            SystemRegister::Eipsw => self.eipsw,
            SystemRegister::Fepc => self.fepc,
            SystemRegister::Fepsw => self.fepsw,
            SystemRegister::Ecr => self.ecr,
            SystemRegister::Psw => self.psw.bits(),
            SystemRegister::Chcw => self.chcw,
        }
    }

    /// The state after LDSR; the exception cause register cannot be written.
    pub open spec fn with_system_register(self, register: SystemRegister, value: u32) -> NvcState {
        match register {
            SystemRegister::Eipc => NvcState { eipc: value, ..self },
            SystemRegister::Eipsw => NvcState { eipsw: value, ..self },
            SystemRegister::Fepc => NvcState { fepc: value, ..self },
            SystemRegister::Fepsw => NvcState { fepsw: value, ..self },
            SystemRegister::Ecr => self,
            SystemRegister::Psw => NvcState { psw: Psw::of_bits(value), ..self },
            SystemRegister::Chcw => NvcState { chcw: value, ..self },
        }
    }

    /// The state after an exception with the given code was raised. Outside
    /// of a handler, the program counter and the status word are saved in
    /// EIPC and EIPSW, the code goes to the low half of ECR, EP and ID are
    /// set, and the handler at the code is entered. Inside a handler, they
    /// are saved in FEPC and FEPSW, the code goes to the high half of ECR, NP
    /// and ID are set, and the handler of duplexed exceptions is entered.
    /// With NP set already, the exception is fatal: the CPU halts.
    pub open spec fn exception(self, code: u16) -> NvcState {
        if self.psw.nmi_pending {
            NvcState { halted: true, ..self }
        } else if self.psw.exception_pending {
            NvcState {
                fepc: self.pc,
                fepsw: self.psw.bits(),
                ecr: ((code as u32) << 16) | (self.ecr & 0x0000_ffff),
                psw: Psw {
                    nmi_pending: true,
                    interrupt_disable: true,
                    address_trap_enable: false,
                    ..self.psw
                },
                pc: DUPLEXED_EXCEPTION_PC,
                ..self
            }
        } else {
            NvcState {
                eipc: self.pc,
                eipsw: self.psw.bits(),
                ecr: (self.ecr & 0xffff_0000) | (code as u32),
                psw: Psw {
                    exception_pending: true,
                    interrupt_disable: true,
                    address_trap_enable: false,
                    ..self.psw
                },
                pc: handler_address(code),
                ..self
            }
        }
    }

    /// Whether an interrupt can be accepted: ID, NP and EP are clear, and the
    /// interrupt's level is not below the mask level.
    pub open spec fn accepts(self, vector: u16) -> bool {
        &&& !self.psw.interrupt_disable
        &&& !self.psw.nmi_pending
        &&& !self.psw.exception_pending
        &&& interrupt_level(vector) >= self.psw.interrupt_mask_level
    }

    /// The state after an interrupt was accepted: the exception of its
    /// vector is entered, and a halted CPU runs again.
    pub open spec fn interrupted(self, vector: u16) -> NvcState {
        NvcState { halted: false, pending_interrupt: None, ..self.exception(vector) }
    }

    /// The state after an interrupt was requested: it is accepted, or else
    /// kept pending.
    pub open spec fn requested(self, vector: u16) -> NvcState {
        if self.accepts(vector) {
            self.interrupted(vector)
        } else {
            NvcState { pending_interrupt: Some(vector), ..self }
        }
    }

    /// The state at the start of a step: a pending interrupt is accepted as
    /// soon as it can be.
    pub open spec fn with_pending_delivered(self) -> NvcState {
        match self.pending_interrupt {
            Some(vector) => if self.accepts(vector) {
                self.interrupted(vector)
            } else {
                self
            },
            None => self,
        }
    }

    /// The state after RETI: the program counter and the status word come
    /// back from FEPC and FEPSW where NP is set, else from EIPC and EIPSW.
    pub open spec fn returned(self) -> NvcState {
        if self.psw.nmi_pending {
            NvcState { pc: self.fepc & 0xffff_fffe, psw: Psw::of_bits(self.fepsw), ..self }
        } else {
            NvcState { pc: self.eipc & 0xffff_fffe, psw: Psw::of_bits(self.eipsw), ..self }
        }
    }

    /// The exception that a register instruction raises instead of doing its
    /// work: a division by 0.
    pub open spec fn register_fault(self, opcode: Opcode, reg1: usize) -> Option<u16> {
        if (opcode == Opcode::Div || opcode == Opcode::DivU) && self.gpr[reg1 as int] == 0 {
            Some(DIVIDE_BY_ZERO_CODE)
        } else {
            None
        }
    }

    /// The state after an instruction of format I that raises no exception.
    pub open spec fn after_register(self, opcode: Opcode, reg1: usize, reg2: usize) -> NvcState {
        let a = self.gpr[reg2 as int];
        let b = self.gpr[reg1 as int];
        let carry = self.psw.carry;
        let next = self.advanced(2);
        match opcode {
            Opcode::MovReg => next.with_gpr(reg2, b),
            Opcode::AddReg => next.with_result(reg2, sum(a, b)),
            Opcode::Sub => next.with_result(reg2, difference(a, b)),
            Opcode::CmpReg => next.with_flags(difference(a, b).flags),
            Opcode::ShlReg => next.with_result(reg2, shift_left(a, b)),
            Opcode::ShrReg => next.with_result(reg2, shift_right(a, b)),
            Opcode::SarReg => next.with_result(reg2, shift_right_arithmetic(a, b)),
            Opcode::Jmp => self.with_pc(b & 0xffff_fffe),
            Opcode::Mul => next.with_wide(reg2, product(a, b, carry)),
            Opcode::Div => next.with_wide(reg2, quotient(a, b, carry)),
            Opcode::MulU => next.with_wide(reg2, unsigned_product(a, b, carry)),
            Opcode::DivU => next.with_wide(reg2, unsigned_quotient(a, b, carry)),
            Opcode::Or => next.with_result(reg2, logical(a | b, carry)),
            Opcode::And => next.with_result(reg2, logical(a & b, carry)),
            Opcode::Xor => next.with_result(reg2, logical(a ^ b, carry)),
            Opcode::Not => next.with_result(reg2, logical(!b, carry)),
            _ => next,
        }
    }

    /// The exception that an immediate instruction raises instead of doing
    /// its work: LDSR and STSR of a reserved system register.
    pub open spec fn immediate_fault(self, opcode: Opcode, imm5: u32) -> Option<u16> {
        if (opcode == Opcode::Ldsr || opcode == Opcode::Stsr) && system_register_of_index(
            imm5 as usize,
        ) is None {
            Some(INVALID_OPCODE_CODE)
        } else {
            None
        }
    }

    /// The state after an instruction of format II that raises no exception.
    pub open spec fn after_immediate(self, opcode: Opcode, imm5: u32, reg2: usize) -> NvcState {
        let a = self.gpr[reg2 as int];
        let next = self.advanced(2);
        match opcode {
            Opcode::MovImm => next.with_gpr(reg2, sign_extend_5(imm5)),
            Opcode::AddImm5 => next.with_result(reg2, sum(a, sign_extend_5(imm5))),
            Opcode::Setf => next.with_gpr(
                reg2,
                if self.psw.holds(condition_of_index((imm5 & 0x0f) as usize)) {
                    1
                } else {
                    0
                },
            ),
            Opcode::CmpImm => next.with_flags(difference(a, sign_extend_5(imm5)).flags),
            Opcode::ShlImm => next.with_result(reg2, shift_left(a, imm5)),
            Opcode::ShrImm => next.with_result(reg2, shift_right(a, imm5)),
            Opcode::SarImm => next.with_result(reg2, shift_right_arithmetic(a, imm5)),
            Opcode::Cli => NvcState { psw: Psw { interrupt_disable: false, ..next.psw }, ..next },
            Opcode::Sei => NvcState { psw: Psw { interrupt_disable: true, ..next.psw }, ..next },
            Opcode::Reti => self.returned(),
            Opcode::Halt => NvcState { halted: true, ..next },
            Opcode::Ldsr => match system_register_of_index(imm5 as usize) {
                Some(register) => next.with_system_register(register, a),
                None => next,
            },
            Opcode::Stsr => match system_register_of_index(imm5 as usize) {
                Some(register) => next.with_gpr(reg2, self.system_register(register)),
                None => next,
            },
            _ => next,
        }
    }

    /// Whether a conditional branch is taken.
    pub open spec fn branch_taken(self, opcode: Opcode) -> bool {
        opcode.is_conditional_branch() && self.psw.holds(branch_condition(opcode))
    }

    /// The state after a conditional branch: where it is taken, the
    /// displacement is added to the address of the branch itself.
    pub open spec fn after_branch(self, opcode: Opcode, displacement: u32) -> NvcState {
        if self.branch_taken(opcode) {
            self.with_pc(self.pc.wrapping_add(displacement) & 0xffff_fffe)
        } else {
            self.advanced(2)
        }
    }

    /// The state after JR or JAL: the displacement is added to the address
    /// of the jump itself, and JAL leaves the address after it in r31.
    pub open spec fn after_jump(self, opcode: Opcode, displacement: u32) -> NvcState {
        let target = self.pc.wrapping_add(displacement) & 0xffff_fffe;
        if opcode == Opcode::Jal {
            self.with_gpr(LINK_REGISTER, self.pc.wrapping_add(4)).with_pc(target)
        } else {
            self.with_pc(target)
        }
    }

    /// The state after an instruction of format V.
    pub open spec fn after_immediate_16(
        self,
        opcode: Opcode,
        reg1: usize,
        reg2: usize,
        imm16: u16,
    ) -> NvcState {
        let b = self.gpr[reg1 as int];
        let carry = self.psw.carry;
        let next = self.advanced(4);
        match opcode {
            Opcode::Movea => next.with_gpr(reg2, b.wrapping_add(sign_extend_16(imm16))),
            Opcode::AddImm16 => next.with_result(reg2, sum(b, sign_extend_16(imm16))),
            Opcode::OrI => next.with_result(reg2, logical(b | (imm16 as u32), carry)),
            Opcode::AndI => next.with_result(reg2, logical(b & (imm16 as u32), carry)),
            Opcode::XorI => next.with_result(reg2, logical(b ^ (imm16 as u32), carry)),
            Opcode::Movhi => next.with_gpr(reg2, b.wrapping_add((imm16 as u32) << 16)),
            _ => next,
        }
    }

    /// The address that a load or a store goes to: the displacement,
    /// sign-extended, added to the base register.
    pub open spec fn effective_address(self, reg1: usize, disp16: u16) -> u32 {
        self.gpr[reg1 as int].wrapping_add(sign_extend_16(disp16))
    }

    /// What a load or a store does. LD sign-extends what it reads, IN
    /// zero-extends it; ST and OUT write the low bytes of the register. An
    /// access that the bus refuses raises the address trap instead.
    pub open spec fn after_memory(
        self,
        bus: InterconnectView,
        opcode: Opcode,
        reg1: usize,
        reg2: usize,
        disp16: u16,
    ) -> MemoryOutcome {
        let addr = self.effective_address(reg1, disp16);
        let value = self.gpr[reg2 as int];
        let next = self.advanced(4);
        let trapped = MemoryOutcome { cpu: self.exception(ADDRESS_TRAP_CODE), bus };
        match opcode {
            Opcode::Ldb => match bus.read_byte(addr) {
                Ok(v) => MemoryOutcome { cpu: next.with_gpr(reg2, sign_extend_8(v)), bus },
                Err(_) => trapped,
            },
            Opcode::Ldh => match bus.read_halfword(addr) {
                Ok(v) => MemoryOutcome { cpu: next.with_gpr(reg2, sign_extend_16(v)), bus },
                Err(_) => trapped,
            },
            Opcode::Ldw => match bus.read_word(addr) {
                Ok(v) => MemoryOutcome { cpu: next.with_gpr(reg2, v), bus },
                Err(_) => trapped,
            },
            Opcode::Inb => match bus.read_byte(addr) {
                Ok(v) => MemoryOutcome { cpu: next.with_gpr(reg2, v as u32), bus },
                Err(_) => trapped,
            },
            Opcode::Inh => match bus.read_halfword(addr) {
                Ok(v) => MemoryOutcome { cpu: next.with_gpr(reg2, v as u32), bus },
                Err(_) => trapped,
            },
            Opcode::Inw => match bus.read_word(addr) {
                Ok(v) => MemoryOutcome { cpu: next.with_gpr(reg2, v), bus },
                Err(_) => trapped,
            },
            Opcode::Stb => match bus.write_byte(addr, value as u8) {
                Ok(after) => MemoryOutcome { cpu: next, bus: after },
                Err(_) => trapped,
            },
            Opcode::Outb => match bus.write_byte(addr, value as u8) {
                Ok(after) => MemoryOutcome { cpu: next, bus: after },
                Err(_) => trapped,
            },
            Opcode::Sth => match bus.write_halfword(addr, value as u16) {
                Ok(after) => MemoryOutcome { cpu: next, bus: after },
                Err(_) => trapped,
            },
            Opcode::Outh => match bus.write_halfword(addr, value as u16) {
                Ok(after) => MemoryOutcome { cpu: next, bus: after },
                Err(_) => trapped,
            },
            Opcode::Stw => match bus.write_word(addr, value) {
                Ok(after) => MemoryOutcome { cpu: next, bus: after },
                Err(_) => trapped,
            },
            Opcode::Outw => match bus.write_word(addr, value) {
                Ok(after) => MemoryOutcome { cpu: next, bus: after },
                Err(_) => trapped,
            },
            _ => MemoryOutcome { cpu: next, bus },
        }
    }

    /// What a floating-point instruction does by itself. Operands that the
    /// operation refuses set their floating-point flag and raise its
    /// exception. With operands that it takes, the instruction is left for
    /// the host's float unit, with both of them.
    pub open spec fn after_float(self, subop: SubOp, reg1: usize, reg2: usize) -> NvcState {
        let a = self.gpr[reg2 as int];
        let b = self.gpr[reg1 as int];
        let flags = operand_flags(subop, a, b);
        match float_exception(flags) {
            Some(code) => NvcState { psw: self.psw.with_float_flags(flags), ..self }.exception(
                code,
            ),
            None => NvcState {
                float_request: Some(FloatRequest { subop, reg2, destination: a, source: b }),
                ..self.advanced(4)
            },
        }
    }

    /// The state after an extended instruction. The integer operations swap
    /// the bytes of the low halfword, swap the halfwords, or multiply by the
    /// low seventeen bits of the other register. A floating-point operation
    /// checks its operands and is left for the host's float unit. A
    /// sub-opcode that names no operation raises the invalid-opcode
    /// exception.
    pub open spec fn after_extended(self, reg1: usize, reg2: usize, second: u16) -> NvcState {
        let a = self.gpr[reg2 as int];
        let b = self.gpr[reg1 as int];
        let next = self.advanced(4);
        match subop_of_bits((second >> 10) as usize) {
            Some(SubOp::Xb) => next.with_gpr(reg2, bytes_swapped(a)),
            Some(SubOp::Xh) => next.with_gpr(reg2, halfwords_swapped(a)),
            Some(SubOp::Mpyhw) => next.with_gpr(
                reg2,
                ((a as i32).wrapping_mul(sign_extend_17(b))) as u32,
            ),
            Some(subop) => self.after_float(subop, reg1, reg2),
            None => self.exception(INVALID_OPCODE_CODE),
        }
    }

    /// The state after the host's float unit answered the instruction that
    /// waits for it; with none waiting, the answer changes nothing. The
    /// floating-point flags of the answer are added to the status word. Then
    /// either the answer's exception is raised, for the handler to find the
    /// address of the instruction, or the result goes to its register and
    /// the arithmetic flags to the status word.
    pub open spec fn answered(self, answer: FloatAnswer) -> NvcState {
        match self.float_request {
            None => self,
            Some(request) => {
                let flagged = NvcState {
                    float_request: None,
                    psw: self.psw.with_float_flags(answer.float_flags),
                    ..self
                };
                match answer.exception {
                    Some(code) => flagged.with_pc(self.pc.wrapping_sub(4)).exception(code),
                    None => (match answer.result {
                        Some(value) => flagged.with_gpr(request.reg2, value),
                        None => flagged,
                    }).with_flags(answer.flags),
                }
            },
        }
    }

    /// The state at the start of a step where a floating-point instruction
    /// still waits: no float unit answered, so the instruction is refused
    /// like one that names no operation.
    pub open spec fn refused(self) -> NvcState {
        match self.float_request {
            None => self,
            Some(_) => NvcState { float_request: None, ..self }.with_pc(
                self.pc.wrapping_sub(4),
            ).exception(INVALID_OPCODE_CODE),
        }
    }

    /// What executing a decoded instruction does.
    #[verifier::opaque]
    pub open spec fn executed(
        self,
        bus: InterconnectView,
        opcode: Opcode,
        first: u16,
        second: u16,
    ) -> MemoryOutcome {
        let reg1 = operand_reg1(first);
        let reg2 = operand_reg2(first);
        let imm5 = operand_imm5(first);
        match opcode.format() {
            InstructionFormat::I => MemoryOutcome {
                cpu: match self.register_fault(opcode, reg1) {
                    Some(code) => self.exception(code),
                    None => self.after_register(opcode, reg1, reg2),
                },
                bus,
            },
            InstructionFormat::II => MemoryOutcome {
                cpu: match self.immediate_fault(opcode, imm5) {
                    Some(code) => self.exception(code),
                    None => self.after_immediate(opcode, imm5, reg2),
                },
                bus,
            },
            InstructionFormat::III => MemoryOutcome {
                cpu: self.after_branch(opcode, branch_displacement(first)),
                bus,
            },
            InstructionFormat::IV => MemoryOutcome {
                cpu: self.after_jump(opcode, jump_displacement(first, second)),
                bus,
            },
            InstructionFormat::V => MemoryOutcome {
                cpu: self.after_immediate_16(opcode, reg1, reg2, second),
                bus,
            },
            InstructionFormat::VI => self.after_memory(bus, opcode, reg1, reg2, second),
            InstructionFormat::VII => MemoryOutcome {
                cpu: self.after_extended(reg1, reg2, second),
                bus,
            },
        }
    }

    /// Whether a load or a store of the instruction goes to a watched
    /// address.
    pub open spec fn hits_watchpoint(self, opcode: Opcode, first: u16, second: u16) -> bool {
        opcode.format() == InstructionFormat::VI && self.watchpoints.contains(
            self.effective_address(operand_reg1(first), second),
        )
    }

    /// What fetching and executing the instruction at the program counter
    /// does. A fetch that the bus refuses raises the address trap, a first
    /// halfword that names no instruction the invalid-opcode exception; both
    /// take one cycle.
    #[verifier::opaque]
    pub open spec fn run_instruction(self, bus: InterconnectView) -> StepOutcome {
        match bus.read_halfword(self.pc) {
            Err(_) => StepOutcome {
                cpu: self.exception(ADDRESS_TRAP_CODE),
                bus,
                cycles: 1,
                watchpoint_hit: false,
            },
            Ok(first) => match decoded_opcode(first) {
                Err(_) => StepOutcome {
                    cpu: self.exception(INVALID_OPCODE_CODE),
                    bus,
                    cycles: 1,
                    watchpoint_hit: false,
                },
                Ok(opcode) => if opcode.format().two_halfwords() {
                    match bus.read_halfword(self.pc.wrapping_add(2)) {
                        Err(_) => StepOutcome {
                            cpu: self.exception(ADDRESS_TRAP_CODE),
                            bus,
                            cycles: 1,
                            watchpoint_hit: false,
                        },
                        Ok(second) => {
                            let outcome = self.executed(bus, opcode, first, second);
                            StepOutcome {
                                cpu: outcome.cpu,
                                bus: outcome.bus,
                                cycles: opcode.cycle_cost(false),
                                watchpoint_hit: self.hits_watchpoint(opcode, first, second),
                            }
                        },
                    }
                } else {
                    let outcome = self.executed(bus, opcode, first, 0);
                    StepOutcome {
                        cpu: outcome.cpu,
                        bus: outcome.bus,
                        cycles: opcode.cycle_cost(self.branch_taken(opcode)),
                        watchpoint_hit: false,
                    }
                },
            },
        }
    }

    /// What a step does. A floating-point instruction that still waits is
    /// refused, and a pending interrupt is accepted, if it can be. A halted
    /// CPU then takes one cycle and does nothing else; a running one fetches
    /// and executes one instruction.
    #[verifier::opaque]
    pub open spec fn stepped(self, bus: InterconnectView) -> StepOutcome {
        let cpu = self.refused().with_pending_delivered();
        if cpu.halted {
            StepOutcome { cpu, bus, cycles: 1, watchpoint_hit: false }
        } else {
            cpu.run_instruction(bus)
        }
    }
}

} // verus!
