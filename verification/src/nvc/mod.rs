//! The CPU: 32 general-purpose registers, the program counter, the status
//! word and the system registers, stepped one instruction at a time.

pub mod alu;
pub mod float;
pub mod laws;
pub mod psw;
pub mod save_state;
pub mod state;

use vstd::prelude::*;
use std::collections::HashSet;
use crate::bits::lemma_mask_bound_u16;
use crate::bits::lemma_mask_bound_u32;
use crate::instruction::Condition;
use crate::instruction::InstructionFormat;
use crate::instruction::Opcode;
use crate::instruction::SubOp;
use crate::instruction::SystemRegister;
use crate::interconnect::Interconnect;
use crate::nvc::alu::add_words;
use crate::nvc::alu::divide;
use crate::nvc::alu::divide_unsigned;
use crate::nvc::alu::logic;
use crate::nvc::alu::multiply;
use crate::nvc::alu::multiply_unsigned;
use crate::nvc::alu::sar;
use crate::nvc::alu::shl;
use crate::nvc::alu::shr;
use crate::nvc::alu::subtract;
use crate::nvc::alu::AluResult;
use crate::nvc::alu::Flags;
use crate::nvc::alu::WideResult;
use crate::nvc::psw::FloatFlags;
use crate::nvc::psw::Psw;
use crate::nvc::float::answer_of;
use crate::nvc::float::check_operands;
use crate::nvc::float::exception_of;
use crate::nvc::float::float_answer;
use crate::nvc::float::is_float_subop;
use crate::nvc::float::FloatAnswer;
use crate::nvc::float::FloatOutcome;
use crate::nvc::float::FloatRequest;
use crate::nvc::float::FLOAT_HANDLER_PC;
use crate::nvc::float::FLOAT_INVALID_OPERATION_CODE;
use crate::nvc::float::FLOAT_OVERFLOW_CODE;
use crate::nvc::float::FLOAT_RESERVED_OPERAND_CODE;
use crate::nvc::float::FLOAT_ZERO_DIVISION_CODE;
use crate::nvc::state::branch_condition;
use crate::nvc::state::NvcState;
use crate::nvc::state::ADDRESS_TRAP_CODE;
use crate::nvc::state::DIVIDE_BY_ZERO_CODE;
use crate::nvc::state::DUPLEXED_EXCEPTION_PC;
use crate::nvc::state::EXCEPTION_HANDLER_BASE;
use crate::nvc::state::EXTRA_REGISTER;
use crate::nvc::state::GPR_COUNT;
use crate::nvc::state::INVALID_OPCODE_CODE;
use crate::nvc::state::LINK_REGISTER;
use crate::nvc::state::RESET_PC;

verus! {

pub struct Nvc {
    reg_pc: u32,
    reg_gpr: Vec<u32>,
    psw: Psw,
    reg_eipc: u32,
    reg_eipsw: u32,
    reg_fepc: u32,
    reg_fepsw: u32,
    reg_ecr: u32,
    reg_chcw: u32,
    is_halted: bool,
    pending_interrupt: Option<u16>,
    float_request: Option<FloatRequest>,
    watchpoints: HashSet<u32>,
}

impl View for Nvc {
    type V = NvcState;

    closed spec fn view(&self) -> NvcState {
        NvcState {
            gpr: self.reg_gpr@,
            pc: self.reg_pc,
            psw: self.psw,
            eipc: self.reg_eipc,
            eipsw: self.reg_eipsw,
            fepc: self.reg_fepc,
            fepsw: self.reg_fepsw,
            ecr: self.reg_ecr,
            chcw: self.reg_chcw,
            halted: self.is_halted,
            pending_interrupt: self.pending_interrupt,
            float_request: self.float_request,
            watchpoints: self.watchpoints@,
        }
    }
}

/// An address with bit 0 cleared is even.
pub proof fn lemma_halfword_aligned(addr: u32)
    by (bit_vector)
    ensures
        (addr & 0xffff_fffe) % 2 == 0,
{
}

fn is_conditional_branch(opcode: Opcode) -> (r: bool)
    ensures
        r == opcode.is_conditional_branch(),
{
    match opcode.instruction_format() {
        InstructionFormat::III => true,
        _ => false,
    }
}

fn condition_of_branch(opcode: Opcode) -> (r: Condition)
    ensures
        r == branch_condition(opcode),
{
    match opcode {
        Opcode::Bv => Condition::V,
        Opcode::Bc => Condition::C,
        Opcode::Bz => Condition::Z,
        Opcode::Bnh => Condition::Nh,
        Opcode::Bn => Condition::N,
        Opcode::Br => Condition::T,
        Opcode::Blt => Condition::Lt,
        Opcode::Ble => Condition::Le,
        Opcode::Bnv => Condition::Nv,
        Opcode::Bnc => Condition::Nc,
        Opcode::Bnz => Condition::Nz,
        Opcode::Bh => Condition::H,
        Opcode::Bp => Condition::P,
        Opcode::Bge => Condition::Ge,
        Opcode::Bgt => Condition::Gt,
        _ => Condition::F,
    }
}

impl Nvc {
    /// A CPU after a reset, with no watchpoints.
    pub fn new() -> (cpu: Nvc)
        ensures
            cpu@ == NvcState::reset_state(Set::empty()),
            cpu@.wf(),
    {
        let reg_gpr = vec![0u32; GPR_COUNT];
        assert(reg_gpr@ =~= Seq::new(GPR_COUNT as nat, |i: int| 0u32));
        let watchpoints: HashSet<u32> = HashSet::new();
        Nvc {
            reg_pc: RESET_PC,
            reg_gpr,
            psw: Psw::new(),
            reg_eipc: 0,
            reg_eipsw: 0,
            reg_fepc: 0,
            reg_fepsw: 0,
            reg_ecr: 0,
            reg_chcw: 0,
            is_halted: false,
            pending_interrupt: None,
            float_request: None,
            watchpoints,
        }
    }

    /// Resets the CPU.
    pub fn reset(&mut self)
        ensures
            final(self)@ == NvcState::reset_state(old(self)@.watchpoints),
            final(self)@.wf(),
    {
        let reg_gpr = vec![0u32; GPR_COUNT];
        assert(reg_gpr@ =~= Seq::new(GPR_COUNT as nat, |i: int| 0u32));
        self.reg_pc = RESET_PC;
        self.reg_gpr = reg_gpr;
        self.psw = Psw::new();
        self.reg_eipc = 0;
        self.reg_eipsw = 0;
        self.reg_fepc = 0;
        self.reg_fepsw = 0;
        self.reg_ecr = 0;
        self.reg_chcw = 0;
        self.is_halted = false;
        self.pending_interrupt = None;
        self.float_request = None;
    }

    pub fn reg_pc(&self) -> (r: u32)
        ensures
            r == self@.pc,
    {
        self.reg_pc
    }

    pub fn reg_gpr(&self, index: usize) -> (r: u32)
        requires
            self@.wf(),
            index < GPR_COUNT,
        ensures
            r == self@.gpr[index as int],
    {
        self.reg_gpr[index]
    }

    pub fn reg_psw(&self) -> (r: u32)
        ensures
            r == self@.psw.bits(),
    {
        self.psw.to_bits()
    }

    pub fn reg_eipc(&self) -> (r: u32)
        ensures
            r == self@.eipc,
    {
        self.reg_eipc
    }

    pub fn reg_eipsw(&self) -> (r: u32)
        ensures
            r == self@.eipsw,
    {
        self.reg_eipsw
    }

    pub fn reg_ecr(&self) -> (r: u32)
        ensures
            r == self@.ecr,
    {
        self.reg_ecr
    }

    pub fn is_halted(&self) -> (r: bool)
        ensures
            r == self@.halted,
    {
        self.is_halted
    }

    /// A system register by its place among the saved words: EIPC, EIPSW,
    /// FEPC, FEPSW, ECR, CHCW.
    pub(crate) fn system_word(&self, index: usize) -> (r: u32)
        requires
            index == 4 || index == 5 || index == 7,
        ensures
            index == 4 ==> r == self@.fepc,
            index == 5 ==> r == self@.fepsw,
            index == 7 ==> r == self@.chcw,
    {
        if index == 4 {
            self.reg_fepc
        } else if index == 5 {
            self.reg_fepsw
        } else {
            self.reg_chcw
        }
    }

    /// The status word, flag by flag.
    pub fn status(&self) -> (r: Psw)
        ensures
            r == self@.psw,
    {
        self.psw
    }

    /// The pending interrupt as a saved word.
    pub(crate) fn pending_word(&self) -> (r: u32)
        ensures
            r == crate::nvc::save_state::pending_word(self@.pending_interrupt),
    {
        match self.pending_interrupt {
            Some(vector) => crate::nvc::save_state::PENDING_FLAG + vector as u32,
            None => 0,
        }
    }

    /// Replaces everything but the watchpoints.
    pub(crate) fn load(
        &mut self,
        gpr: Vec<u32>,
        pc: u32,
        psw: Psw,
        system: [u32; 6],
        halted: bool,
        pending_interrupt: Option<u16>,
        float_request: Option<FloatRequest>,
    )
        requires
            gpr.len() == GPR_COUNT,
            gpr[0] == 0,
            pc % 2 == 0,
            psw.interrupt_mask_level <= 15,
            float_request matches Some(request) ==> request.reg2 < GPR_COUNT
                && is_float_subop(request.subop),
        ensures
            final(self)@ == (NvcState {
                gpr: gpr@,
                pc,
                psw,
                eipc: system[0],
                eipsw: system[1],
                fepc: system[2],
                fepsw: system[3],
                ecr: system[4],
                chcw: system[5],
                halted,
                pending_interrupt,
                float_request,
                watchpoints: old(self)@.watchpoints,
            }),
            final(self)@.wf(),
    {
        self.reg_gpr = gpr;
        self.reg_pc = pc;
        self.psw = psw;
        self.reg_eipc = system[0];
        self.reg_eipsw = system[1];
        self.reg_fepc = system[2];
        self.reg_fepsw = system[3];
        self.reg_ecr = system[4];
        self.reg_chcw = system[5];
        self.is_halted = halted;
        self.pending_interrupt = pending_interrupt;
        self.float_request = float_request;
    }

    /// Whether an address is watched.
    pub fn has_watchpoint(&self, addr: u32) -> (r: bool)
        ensures
            r == self@.watchpoints.contains(addr),
    {
        self.watchpoints.contains(&addr)
    }

    /// Watches an address.
    pub fn add_watchpoint(&mut self, addr: u32)
        ensures
            final(self)@ == (NvcState {
                watchpoints: old(self)@.watchpoints.insert(addr),
                ..old(self)@
            }),
    {
        let _ = self.watchpoints.insert(addr);
    }

    /// Stops watching an address and says whether it was watched.
    pub fn remove_watchpoint(&mut self, addr: u32) -> (r: bool)
        ensures
            r == old(self)@.watchpoints.contains(addr),
            final(self)@ == (NvcState {
                watchpoints: old(self)@.watchpoints.remove(addr),
                ..old(self)@
            }),
    {
        self.watchpoints.remove(&addr)
    }

    fn set_gpr(&mut self, index: usize, value: u32)
        requires
            old(self)@.wf(),
            index < GPR_COUNT,
        ensures
            final(self)@ == old(self)@.with_gpr(index, value),
            final(self)@.wf(),
    {
        if index != 0 {
            self.reg_gpr[index] = value;
        }
    }

    fn set_pc(&mut self, pc: u32)
        requires
            old(self)@.wf(),
            pc % 2 == 0,
        ensures
            final(self)@ == old(self)@.with_pc(pc),
            final(self)@.wf(),
    {
        self.reg_pc = pc;
    }

    fn advance(&mut self, length: u32)
        requires
            old(self)@.wf(),
            length == 2 || length == 4,
        ensures
            final(self)@ == old(self)@.advanced(length),
            final(self)@.wf(),
    {
        self.reg_pc = self.reg_pc.wrapping_add(length);
    }

    fn set_result(&mut self, index: usize, result: AluResult)
        requires
            old(self)@.wf(),
            index < GPR_COUNT,
        ensures
            final(self)@ == old(self)@.with_result(index, result),
            final(self)@.wf(),
    {
        self.set_gpr(index, result.value);
        self.psw.set_flags(result.flags);
    }

    fn set_wide(&mut self, index: usize, result: WideResult)
        requires
            old(self)@.wf(),
            index < GPR_COUNT,
        ensures
            final(self)@ == old(self)@.with_wide(index, result),
            final(self)@.wf(),
    {
        self.set_gpr(EXTRA_REGISTER, result.extra);
        self.set_gpr(index, result.value);
        self.psw.set_flags(result.flags);
    }

    fn read_system_register(&self, register: SystemRegister) -> (r: u32)
        ensures
            r == self@.system_register(register),
    {
        match register {
            SystemRegister::Eipc => self.reg_eipc,
            SystemRegister::Eipsw => self.reg_eipsw,
            SystemRegister::Fepc => self.reg_fepc,
            SystemRegister::Fepsw => self.reg_fepsw,
            SystemRegister::Ecr => self.reg_ecr,
            SystemRegister::Psw => self.psw.to_bits(),
            SystemRegister::Chcw => self.reg_chcw,
        }
    }

    fn write_system_register(&mut self, register: SystemRegister, value: u32)
        requires
            old(self)@.wf(),
        ensures
            final(self)@ == old(self)@.with_system_register(register, value),
            final(self)@.wf(),
    {
        match register {
            SystemRegister::Eipc => self.reg_eipc = value,
            SystemRegister::Eipsw => self.reg_eipsw = value,
            SystemRegister::Fepc => self.reg_fepc = value,
            SystemRegister::Fepsw => self.reg_fepsw = value,
            SystemRegister::Ecr => {},
            SystemRegister::Psw => self.psw = Psw::from_bits(value),
            SystemRegister::Chcw => self.reg_chcw = value,
        }
    }

    /// Raises an exception.
    fn enter_exception(&mut self, code: u16)
        requires
            old(self)@.wf(),
        ensures
            final(self)@ == old(self)@.exception(code),
            final(self)@.wf(),
    {
        if self.psw.nmi_pending {
            self.is_halted = true;
        } else if self.psw.exception_pending {
            self.reg_fepc = self.reg_pc;
            self.reg_fepsw = self.psw.to_bits();
            self.reg_ecr = ((code as u32) << 16) | (self.reg_ecr & 0x0000_ffff);
            self.psw.nmi_pending = true;
            self.psw.interrupt_disable = true;
            self.psw.address_trap_enable = false;
            self.reg_pc = DUPLEXED_EXCEPTION_PC;
        } else {
            proof {
                lemma_halfword_aligned(EXCEPTION_HANDLER_BASE | (code as u32));
            }
            self.reg_eipc = self.reg_pc;
            self.reg_eipsw = self.psw.to_bits();
            self.reg_ecr = (self.reg_ecr & 0xffff_0000) | (code as u32);
            self.psw.exception_pending = true;
            self.psw.interrupt_disable = true;
            self.psw.address_trap_enable = false;
            self.reg_pc = if code == FLOAT_RESERVED_OPERAND_CODE || code == FLOAT_OVERFLOW_CODE
                || code == FLOAT_ZERO_DIVISION_CODE || code == FLOAT_INVALID_OPERATION_CODE {
                FLOAT_HANDLER_PC
            } else {
                (EXCEPTION_HANDLER_BASE | (code as u32)) & 0xffff_fffe
            };
        }
    }

    fn accepts(&self, vector: u16) -> (r: bool)
        ensures
            r == self@.accepts(vector),
    {
        let level: u8 = ((vector >> 4) & 0x0f) as u8;
        !self.psw.interrupt_disable && !self.psw.nmi_pending && !self.psw.exception_pending
            && level >= self.psw.interrupt_mask_level
    }

    /// Hands the CPU an interrupt: it is accepted at once where ID, NP and EP
    /// are clear and its level is not masked, and kept pending otherwise.
    pub fn request_interrupt(&mut self, vector: u16)
        requires
            old(self)@.wf(),
        ensures
            final(self)@ == old(self)@.requested(vector),
            final(self)@.wf(),
    {
        if self.accepts(vector) {
            self.enter_exception(vector);
            self.is_halted = false;
            self.pending_interrupt = None;
        } else {
            self.pending_interrupt = Some(vector);
        }
    }

    fn deliver_pending(&mut self)
        requires
            old(self)@.wf(),
        ensures
            final(self)@ == old(self)@.with_pending_delivered(),
            final(self)@.wf(),
    {
        match self.pending_interrupt {
            Some(vector) => {
                if self.accepts(vector) {
                    self.enter_exception(vector);
                    self.is_halted = false;
                    self.pending_interrupt = None;
                }
            },
            None => {},
        }
    }

    /// Executes an instruction of format I.
    fn execute_register(&mut self, opcode: Opcode, reg1: usize, reg2: usize)
        requires
            old(self)@.wf(),
            reg1 < GPR_COUNT,
            reg2 < GPR_COUNT,
        ensures
            final(self)@ == (match old(self)@.register_fault(opcode, reg1) {
                Some(code) => old(self)@.exception(code),
                None => old(self)@.after_register(opcode, reg1, reg2),
            }),
            final(self)@.wf(),
    {
        let a: u32 = self.reg_gpr[reg2];
        let b: u32 = self.reg_gpr[reg1];
        let carry = self.psw.carry;
        match opcode {
            Opcode::Jmp => {
                proof {
                    lemma_halfword_aligned(b);
                }
                self.set_pc(b & 0xffff_fffe);
            },
            Opcode::Div => {
                if b == 0 {
                    self.enter_exception(DIVIDE_BY_ZERO_CODE);
                } else {
                    self.advance(2);
                    self.set_wide(reg2, divide(a, b, carry));
                }
            },
            Opcode::DivU => {
                if b == 0 {
                    self.enter_exception(DIVIDE_BY_ZERO_CODE);
                } else {
                    self.advance(2);
                    self.set_wide(reg2, divide_unsigned(a, b, carry));
                }
            },
            _ => {
                self.advance(2);
                match opcode {
                    Opcode::MovReg => self.set_gpr(reg2, b),
                    Opcode::AddReg => self.set_result(reg2, add_words(a, b)),
                    Opcode::Sub => self.set_result(reg2, subtract(a, b)),
                    Opcode::CmpReg => self.psw.set_flags(subtract(a, b).flags),
                    Opcode::ShlReg => self.set_result(reg2, shl(a, b)),
                    Opcode::ShrReg => self.set_result(reg2, shr(a, b)),
                    Opcode::SarReg => self.set_result(reg2, sar(a, b)),
                    Opcode::Mul => self.set_wide(reg2, multiply(a, b, carry)),
                    Opcode::MulU => self.set_wide(reg2, multiply_unsigned(a, b, carry)),
                    Opcode::Or => self.set_result(reg2, logic(a | b, carry)),
                    Opcode::And => self.set_result(reg2, logic(a & b, carry)),
                    Opcode::Xor => self.set_result(reg2, logic(a ^ b, carry)),
                    Opcode::Not => self.set_result(reg2, logic(!b, carry)),
                    _ => {},
                }
            },
        }
    }

    /// Executes RETI.
    fn return_from_exception(&mut self)
        requires
            old(self)@.wf(),
        ensures
            final(self)@ == old(self)@.returned(),
            final(self)@.wf(),
    {
        if self.psw.nmi_pending {
            proof {
                lemma_halfword_aligned(self.reg_fepc);
            }
            self.reg_pc = self.reg_fepc & 0xffff_fffe;
            self.psw = Psw::from_bits(self.reg_fepsw);
        } else {
            proof {
                lemma_halfword_aligned(self.reg_eipc);
            }
            self.reg_pc = self.reg_eipc & 0xffff_fffe;
            self.psw = Psw::from_bits(self.reg_eipsw);
        }
    }

    /// Executes SETF.
    fn execute_setf(&mut self, imm5: u32, reg2: usize)
        requires
            old(self)@.wf(),
            imm5 < 32,
            reg2 < GPR_COUNT,
        ensures
            final(self)@ == old(self)@.after_immediate(Opcode::Setf, imm5, reg2),
            final(self)@.wf(),
    {
        proof {
            lemma_mask_bound_u32(imm5, 0x0f);
        }
        let opcode = Opcode::Setf;
        let condition = opcode.condition((imm5 & 0x0f) as usize);
        let value: u32 = if self.psw.test(condition) {
            1
        } else {
            0
        };
        self.advance(2);
        self.set_gpr(reg2, value);
    }

    fn set_interrupt_disable(&mut self, disable: bool)
        requires
            old(self)@.wf(),
        ensures
            final(self)@ == (NvcState {
                psw: Psw { interrupt_disable: disable, ..old(self)@.psw },
                ..old(self)@
            }),
            final(self)@.wf(),
    {
        self.psw = Psw { interrupt_disable: disable, ..self.psw };
    }

    fn halt(&mut self)
        requires
            old(self)@.wf(),
        ensures
            final(self)@ == (NvcState { halted: true, ..old(self)@ }),
            final(self)@.wf(),
    {
        self.is_halted = true;
    }

    /// Executes CLI, SEI or HALT.
    fn execute_control(&mut self, opcode: Opcode)
        requires
            old(self)@.wf(),
            opcode == Opcode::Cli || opcode == Opcode::Sei || opcode == Opcode::Halt,
        ensures
            final(self)@.wf(),
            final(self)@ == old(self)@.after_immediate(opcode, 0, 0),
    {
        self.advance(2);
        match opcode {
            Opcode::Cli => self.set_interrupt_disable(false),
            Opcode::Sei => self.set_interrupt_disable(true),
            _ => self.halt(),
        }
    }

    /// Executes an instruction of format II that computes with the
    /// immediate.
    fn execute_arithmetic_immediate(&mut self, opcode: Opcode, imm5: u32, reg2: usize)
        requires
            old(self)@.wf(),
            imm5 < 32,
            reg2 < GPR_COUNT,
            opcode == Opcode::MovImm || opcode == Opcode::AddImm5 || opcode == Opcode::CmpImm
                || opcode == Opcode::ShlImm || opcode == Opcode::ShrImm || opcode
                == Opcode::SarImm,
        ensures
            final(self)@ == old(self)@.after_immediate(opcode, imm5, reg2),
            final(self)@.wf(),
    {
        let a: u32 = self.reg_gpr[reg2];
        let extended: u32 = if imm5 & 0x10 != 0 {
            imm5 | 0xffff_ffe0
        } else {
            imm5
        };
        self.advance(2);
        match opcode {
            Opcode::MovImm => self.set_gpr(reg2, extended),
            Opcode::AddImm5 => self.set_result(reg2, add_words(a, extended)),
            Opcode::CmpImm => self.psw.set_flags(subtract(a, extended).flags),
            Opcode::ShlImm => self.set_result(reg2, shl(a, imm5)),
            Opcode::ShrImm => self.set_result(reg2, shr(a, imm5)),
            _ => self.set_result(reg2, sar(a, imm5)),
        }
    }

    /// Executes an instruction of format II.
    fn execute_immediate(&mut self, opcode: Opcode, imm5: u32, reg2: usize)
        requires
            old(self)@.wf(),
            imm5 < 32,
            reg2 < GPR_COUNT,
        ensures
            final(self)@ == (match old(self)@.immediate_fault(opcode, imm5) {
                Some(code) => old(self)@.exception(code),
                None => old(self)@.after_immediate(opcode, imm5, reg2),
            }),
            final(self)@.wf(),
    {
        match opcode {
            Opcode::Reti => {
                self.return_from_exception();
            },
            Opcode::Ldsr => {
                let a: u32 = self.reg_gpr[reg2];
                match opcode.system_register(imm5 as usize) {
                    Ok(register) => {
                        self.advance(2);
                        self.write_system_register(register, a);
                    },
                    Err(_) => {
                        self.enter_exception(INVALID_OPCODE_CODE);
                    },
                }
            },
            Opcode::Stsr => {
                match opcode.system_register(imm5 as usize) {
                    Ok(register) => {
                        let value = self.read_system_register(register);
                        self.advance(2);
                        self.set_gpr(reg2, value);
                    },
                    Err(_) => {
                        self.enter_exception(INVALID_OPCODE_CODE);
                    },
                }
            },
            Opcode::Setf => {
                self.execute_setf(imm5, reg2);
            },
            Opcode::MovImm | Opcode::AddImm5 | Opcode::CmpImm | Opcode::ShlImm | Opcode::ShrImm
            | Opcode::SarImm => {
                self.execute_arithmetic_immediate(opcode, imm5, reg2);
            },
            Opcode::Cli | Opcode::Sei | Opcode::Halt => {
                self.execute_control(opcode);
            },
            _ => {
                self.advance(2);
            },
        }
    }

    /// Executes a conditional branch and says whether it was taken.
    fn execute_branch(&mut self, opcode: Opcode, displacement: u32) -> (taken: bool)
        requires
            old(self)@.wf(),
        ensures
            final(self)@ == old(self)@.after_branch(opcode, displacement),
            taken == old(self)@.branch_taken(opcode),
            final(self)@.wf(),
    {
        let taken = is_conditional_branch(opcode) && self.psw.test(condition_of_branch(opcode));
        if taken {
            let target: u32 = self.reg_pc.wrapping_add(displacement);
            proof {
                lemma_halfword_aligned(target);
            }
            self.set_pc(target & 0xffff_fffe);
        } else {
            self.advance(2);
        }
        taken
    }

    /// Executes JR or JAL.
    fn execute_jump(&mut self, opcode: Opcode, displacement: u32)
        requires
            old(self)@.wf(),
        ensures
            final(self)@ == old(self)@.after_jump(opcode, displacement),
            final(self)@.wf(),
    {
        let target: u32 = self.reg_pc.wrapping_add(displacement);
        proof {
            lemma_halfword_aligned(target);
        }
        match opcode {
            Opcode::Jal => {
                let link: u32 = self.reg_pc.wrapping_add(4);
                self.set_gpr(LINK_REGISTER, link);
            },
            _ => {},
        }
        self.set_pc(target & 0xffff_fffe);
    }

    /// Executes an instruction of format V.
    fn execute_immediate_16(&mut self, opcode: Opcode, reg1: usize, reg2: usize, imm16: u16)
        requires
            old(self)@.wf(),
            reg1 < GPR_COUNT,
            reg2 < GPR_COUNT,
        ensures
            final(self)@ == old(self)@.after_immediate_16(opcode, reg1, reg2, imm16),
            final(self)@.wf(),
    {
        let b: u32 = self.reg_gpr[reg1];
        let carry = self.psw.carry;
        let extended: u32 = (imm16 as i16) as u32;
        self.advance(4);
        match opcode {
            Opcode::Movea => self.set_gpr(reg2, b.wrapping_add(extended)),
            Opcode::AddImm16 => self.set_result(reg2, add_words(b, extended)),
            Opcode::OrI => self.set_result(reg2, logic(b | (imm16 as u32), carry)),
            Opcode::AndI => self.set_result(reg2, logic(b & (imm16 as u32), carry)),
            Opcode::XorI => self.set_result(reg2, logic(b ^ (imm16 as u32), carry)),
            Opcode::Movhi => self.set_gpr(reg2, b.wrapping_add((imm16 as u32) << 16)),
            _ => {},
        }
    }

    fn set_float_request(&mut self, request: Option<FloatRequest>)
        requires
            old(self)@.wf(),
            request matches Some(r) ==> r.reg2 < GPR_COUNT && is_float_subop(
                r.subop,
            ),
        ensures
            final(self)@ == (NvcState { float_request: request, ..old(self)@ }),
            final(self)@.wf(),
    {
        self.float_request = request;
    }

    /// Executes a floating-point instruction as far as the core does: it
    /// checks the operands and leaves the arithmetic for the float unit.
    fn execute_float(&mut self, subop: SubOp, reg1: usize, reg2: usize)
        requires
            old(self)@.wf(),
            reg1 < GPR_COUNT,
            reg2 < GPR_COUNT,
            is_float_subop(subop),
        ensures
            final(self)@ == old(self)@.after_float(subop, reg1, reg2),
            final(self)@.wf(),
    {
        let a: u32 = self.reg_gpr[reg2];
        let b: u32 = self.reg_gpr[reg1];
        let flags = check_operands(subop, a, b);
        match exception_of(flags) {
            Some(code) => {
                self.add_float_flags(flags);
                self.enter_exception(code);
            },
            None => {
                self.advance(4);
                self.set_float_request(
                    Some(FloatRequest { subop, reg2, destination: a, source: b }),
                );
            },
        }
    }

    /// Executes an extended instruction.
    fn execute_extended(&mut self, opcode: Opcode, reg1: usize, reg2: usize, second: u16)
        requires
            old(self)@.wf(),
            reg1 < GPR_COUNT,
            reg2 < GPR_COUNT,
        ensures
            final(self)@ == old(self)@.after_extended(reg1, reg2, second),
            final(self)@.wf(),
    {
        let a: u32 = self.reg_gpr[reg2];
        let b: u32 = self.reg_gpr[reg1];
        match opcode.subop((second >> 10) as usize) {
            Ok(SubOp::Xb) => {
                self.advance(4);
                self.set_gpr(
                    reg2,
                    (a & 0xffff_0000) | ((a << 8) & 0x0000_ff00) | ((a >> 8) & 0x0000_00ff),
                );
            },
            Ok(SubOp::Xh) => {
                self.advance(4);
                self.set_gpr(reg2, (a << 16) | (a >> 16));
            },
            Ok(SubOp::Mpyhw) => {
                let factor: i32 = ((b << 15) as i32) >> 15;
                self.advance(4);
                self.set_gpr(reg2, ((a as i32).wrapping_mul(factor)) as u32);
            },
            Ok(subop) => {
                self.execute_float(subop, reg1, reg2);
            },
            Err(_) => {
                self.enter_exception(INVALID_OPCODE_CODE);
            },
        }
    }

    /// The floating-point instruction that waits for the host's float unit.
    pub fn float_request(&self) -> (r: Option<FloatRequest>)
        ensures
            r == self@.float_request,
    {
        self.float_request
    }

    /// Takes what the host's float unit computed for the instruction that
    /// waits for it; with none waiting, nothing changes.
    pub fn answer_float(&mut self, outcome: FloatOutcome)
        requires
            old(self)@.wf(),
        ensures
            final(self)@ == (match old(self)@.float_request {
                Some(request) => old(self)@.answered(
                    float_answer(request.subop, old(self)@.psw.carry, outcome),
                ),
                None => old(self)@,
            }),
            final(self)@.wf(),
    {
        match self.float_request {
            None => {},
            Some(request) => {
                let answer = answer_of(request.subop, self.psw.carry, outcome);
                self.apply_answer(answer);
            },
        }
    }

    /// Finishes the instruction that waits for the float unit.
    fn apply_answer(&mut self, answer: FloatAnswer)
        requires
            old(self)@.wf(),
        ensures
            final(self)@ == old(self)@.answered(answer),
            final(self)@.wf(),
    {
        match self.float_request {
            None => {},
            Some(request) => {
                let pc = self.reg_pc;
                self.set_float_request(None);
                self.add_float_flags(answer.float_flags);
                match answer.exception {
                    Some(code) => {
                        self.set_pc(pc.wrapping_sub(4));
                        self.enter_exception(code);
                    },
                    None => {
                        match answer.result {
                            Some(value) => self.set_gpr(request.reg2, value),
                            None => {},
                        }
                        self.set_flags(answer.flags);
                    },
                }
            },
        }
    }

    fn add_float_flags(&mut self, flags: FloatFlags)
        requires
            old(self)@.wf(),
        ensures
            final(self)@ == (NvcState {
                psw: old(self)@.psw.with_float_flags(flags),
                ..old(self)@
            }),
            final(self)@.wf(),
    {
        self.psw.add_float_flags(flags);
    }

    fn set_flags(&mut self, flags: Flags)
        requires
            old(self)@.wf(),
        ensures
            final(self)@ == old(self)@.with_flags(flags),
            final(self)@.wf(),
    {
        self.psw.set_flags(flags);
    }

    /// Refuses a floating-point instruction that still waits.
    fn refuse_float(&mut self)
        requires
            old(self)@.wf(),
        ensures
            final(self)@ == old(self)@.refused(),
            final(self)@.wf(),
    {
        match self.float_request {
            None => {},
            Some(_) => {
                let pc = self.reg_pc;
                self.set_float_request(None);
                self.set_pc(pc.wrapping_sub(4));
                self.enter_exception(INVALID_OPCODE_CODE);
            },
        }
    }

    /// Finishes a load: the value goes to the register, or the address trap
    /// is raised where the bus refused the access.
    fn finish_load(&mut self, reg2: usize, loaded: Option<u32>)
        requires
            old(self)@.wf(),
            reg2 < GPR_COUNT,
        ensures
            final(self)@ == (match loaded {
                Some(value) => old(self)@.advanced(4).with_gpr(reg2, value),
                None => old(self)@.exception(ADDRESS_TRAP_CODE),
            }),
            final(self)@.wf(),
    {
        match loaded {
            Some(value) => {
                self.advance(4);
                self.set_gpr(reg2, value);
            },
            None => {
                self.enter_exception(ADDRESS_TRAP_CODE);
            },
        }
    }

    /// Finishes a store: the CPU moves on, or the address trap is raised
    /// where the bus refused the access.
    fn finish_store(&mut self, stored: bool)
        requires
            old(self)@.wf(),
        ensures
            final(self)@ == (if stored {
                old(self)@.advanced(4)
            } else {
                old(self)@.exception(ADDRESS_TRAP_CODE)
            }),
            final(self)@.wf(),
    {
        if stored {
            self.advance(4);
        } else {
            self.enter_exception(ADDRESS_TRAP_CODE);
        }
    }

    /// Executes a load.
    fn execute_load(
        &mut self,
        interconnect: &mut Interconnect,
        opcode: Opcode,
        reg1: usize,
        reg2: usize,
        disp16: u16,
    )
        requires
            old(self)@.wf(),
            old(interconnect)@.wf(),
            reg1 < GPR_COUNT,
            reg2 < GPR_COUNT,
            opcode == Opcode::Ldb || opcode == Opcode::Ldh || opcode == Opcode::Ldw || opcode
                == Opcode::Inb || opcode == Opcode::Inh || opcode == Opcode::Inw,
        ensures
            final(self)@ == old(self)@.after_memory(
                old(interconnect)@,
                opcode,
                reg1,
                reg2,
                disp16,
            ).cpu,
            final(interconnect)@ == old(interconnect)@,
            old(self)@.after_memory(old(interconnect)@, opcode, reg1, reg2, disp16).bus == old(
                interconnect,
            )@,
            final(self)@.wf(),
    {
        let addr: u32 = self.reg_gpr[reg1].wrapping_add((disp16 as i16) as u32);
        let loaded: Option<u32> = match opcode {
            Opcode::Ldb => match interconnect.read_byte(addr) {
                Ok(v) => Some((v as i8) as u32),
                Err(_) => None,
            },
            Opcode::Ldh => match interconnect.read_halfword(addr) {
                Ok(v) => Some((v as i16) as u32),
                Err(_) => None,
            },
            Opcode::Inb => match interconnect.read_byte(addr) {
                Ok(v) => Some(v as u32),
                Err(_) => None,
            },
            Opcode::Inh => match interconnect.read_halfword(addr) {
                Ok(v) => Some(v as u32),
                Err(_) => None,
            },
            _ => match interconnect.read_word(addr) {
                Ok(v) => Some(v),
                Err(_) => None,
            },
        };
        self.finish_load(reg2, loaded);
    }

    /// Executes a store.
    fn execute_store(
        &mut self,
        interconnect: &mut Interconnect,
        opcode: Opcode,
        reg1: usize,
        reg2: usize,
        disp16: u16,
    )
        requires
            old(self)@.wf(),
            old(interconnect)@.wf(),
            reg1 < GPR_COUNT,
            reg2 < GPR_COUNT,
            opcode == Opcode::Stb || opcode == Opcode::Sth || opcode == Opcode::Stw || opcode
                == Opcode::Outb || opcode == Opcode::Outh || opcode == Opcode::Outw,
        ensures
            final(self)@ == old(self)@.after_memory(
                old(interconnect)@,
                opcode,
                reg1,
                reg2,
                disp16,
            ).cpu,
            final(interconnect)@ == old(self)@.after_memory(
                old(interconnect)@,
                opcode,
                reg1,
                reg2,
                disp16,
            ).bus,
            final(self)@.wf(),
            final(interconnect)@.wf(),
    {
        let addr: u32 = self.reg_gpr[reg1].wrapping_add((disp16 as i16) as u32);
        let value: u32 = self.reg_gpr[reg2];
        let stored: bool = match opcode {
            Opcode::Stb | Opcode::Outb => interconnect.write_byte(addr, value as u8).is_ok(),
            Opcode::Sth | Opcode::Outh => interconnect.write_halfword(addr, value as u16).is_ok(),
            _ => interconnect.write_word(addr, value).is_ok(),
        };
        self.finish_store(stored);
    }

    /// Executes an instruction of format VI and says whether it went to a
    /// watched address.
    fn execute_memory(
        &mut self,
        interconnect: &mut Interconnect,
        opcode: Opcode,
        reg1: usize,
        reg2: usize,
        disp16: u16,
    ) -> (watchpoint_hit: bool)
        requires
            old(self)@.wf(),
            old(interconnect)@.wf(),
            reg1 < GPR_COUNT,
            reg2 < GPR_COUNT,
            opcode.format() == InstructionFormat::VI,
        ensures
            final(self)@ == old(self)@.after_memory(
                old(interconnect)@,
                opcode,
                reg1,
                reg2,
                disp16,
            ).cpu,
            final(interconnect)@ == old(self)@.after_memory(
                old(interconnect)@,
                opcode,
                reg1,
                reg2,
                disp16,
            ).bus,
            watchpoint_hit == old(self)@.watchpoints.contains(
                old(self)@.effective_address(reg1, disp16),
            ),
            final(self)@.wf(),
            final(interconnect)@.wf(),
    {
        let addr: u32 = self.reg_gpr[reg1].wrapping_add((disp16 as i16) as u32);
        let watchpoint_hit = self.has_watchpoint(addr);
        match opcode {
            Opcode::Ldb | Opcode::Ldh | Opcode::Ldw | Opcode::Inb | Opcode::Inh | Opcode::Inw => {
                self.execute_load(interconnect, opcode, reg1, reg2, disp16);
            },
            _ => {
                self.execute_store(interconnect, opcode, reg1, reg2, disp16);
            },
        }
        watchpoint_hit
    }

    /// Executes a decoded instruction and says whether a branch was taken and
    /// whether a load or a store went to a watched address.
    fn execute(&mut self, interconnect: &mut Interconnect, opcode: Opcode, first: u16, second: u16)
        -> (r: (bool, bool))
        requires
            old(self)@.wf(),
            old(interconnect)@.wf(),
        ensures
            final(self)@ == old(self)@.executed(old(interconnect)@, opcode, first, second).cpu,
            final(interconnect)@ == old(self)@.executed(
                old(interconnect)@,
                opcode,
                first,
                second,
            ).bus,
            r.0 == old(self)@.branch_taken(opcode),
            r.1 == old(self)@.hits_watchpoint(opcode, first, second),
            final(self)@.wf(),
            final(interconnect)@.wf(),
    {
        proof {
            reveal(NvcState::executed);
            lemma_mask_bound_u16(first, 0x1f);
            lemma_mask_bound_u16(first >> 5, 0x1f);
        }
        let reg1: usize = (first & 0x1f) as usize;
        let reg2: usize = ((first >> 5) & 0x1f) as usize;
        let imm5: u32 = (first & 0x1f) as u32;
        match opcode.instruction_format() {
            InstructionFormat::I => {
                self.execute_register(opcode, reg1, reg2);
                (false, false)
            },
            InstructionFormat::II => {
                self.execute_immediate(opcode, imm5, reg2);
                (false, false)
            },
            InstructionFormat::III => {
                let disp9: u32 = (first & 0x01ff) as u32;
                let displacement: u32 = if disp9 & 0x0100 == 0 {
                    disp9
                } else {
                    disp9 | 0xffff_fe00
                };
                let taken = self.execute_branch(opcode, displacement);
                (taken, false)
            },
            InstructionFormat::IV => {
                let disp26: u32 = (((first as u32) & 0x03ff) << 16) | (second as u32);
                let displacement: u32 = if disp26 & 0x0200_0000 == 0 {
                    disp26
                } else {
                    disp26 | 0xfc00_0000
                };
                self.execute_jump(opcode, displacement);
                (false, false)
            },
            InstructionFormat::V => {
                self.execute_immediate_16(opcode, reg1, reg2, second);
                (false, false)
            },
            InstructionFormat::VI => {
                let watchpoint_hit = self.execute_memory(interconnect, opcode, reg1, reg2, second);
                (false, watchpoint_hit)
            },
            InstructionFormat::VII => {
                self.execute_extended(opcode, reg1, reg2, second);
                (false, false)
            },
        }
    }

    /// Fetches and executes the instruction at the program counter.
    fn run_instruction(&mut self, interconnect: &mut Interconnect) -> (r: (usize, bool))
        requires
            old(self)@.wf(),
            old(interconnect)@.wf(),
        ensures
            final(self)@ == old(self)@.run_instruction(old(interconnect)@).cpu,
            final(interconnect)@ == old(self)@.run_instruction(old(interconnect)@).bus,
            r.0 == old(self)@.run_instruction(old(interconnect)@).cycles,
            r.1 == old(self)@.run_instruction(old(interconnect)@).watchpoint_hit,
            final(self)@.wf(),
            final(interconnect)@.wf(),
    {
        proof {
            reveal(NvcState::run_instruction);
        }
        let first: u16 = match interconnect.read_halfword(self.reg_pc) {
            Ok(value) => value,
            Err(_) => {
                self.enter_exception(ADDRESS_TRAP_CODE);
                return (1, false);
            },
        };
        let opcode: Opcode = match Opcode::from_halfword(first) {
            Ok(opcode) => opcode,
            Err(_) => {
                self.enter_exception(INVALID_OPCODE_CODE);
                return (1, false);
            },
        };
        let second: u16 = if opcode.instruction_format().has_second_halfword() {
            match interconnect.read_halfword(self.reg_pc.wrapping_add(2)) {
                Ok(value) => value,
                Err(_) => {
                    self.enter_exception(ADDRESS_TRAP_CODE);
                    return (1, false);
                },
            }
        } else {
            0
        };
        let (taken, watchpoint_hit) = self.execute(interconnect, opcode, first, second);
        (opcode.num_cycles(taken), watchpoint_hit)
    }

    /// Executes one instruction and returns the CPU cycles it took and
    /// whether a load or a store went to a watched address. A pending
    /// interrupt is accepted first, if it can be; a halted CPU takes one cycle
    /// and does nothing else.
    pub fn step(&mut self, interconnect: &mut Interconnect) -> (r: (usize, bool))
        requires
            old(self)@.wf(),
            old(interconnect)@.wf(),
        ensures
            final(self)@ == old(self)@.stepped(old(interconnect)@).cpu,
            final(interconnect)@ == old(self)@.stepped(old(interconnect)@).bus,
            r.0 == old(self)@.stepped(old(interconnect)@).cycles,
            r.1 == old(self)@.stepped(old(interconnect)@).watchpoint_hit,
            final(self)@.wf(),
            final(interconnect)@.wf(),
    {
        proof {
            reveal(NvcState::stepped);
        }
        self.refuse_float();
        self.deliver_pending();
        if self.is_halted {
            (1, false)
        } else {
            self.run_instruction(interconnect)
        }
    }
}

} // verus!
