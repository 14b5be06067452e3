//! What holds of every step of the CPU.

use vstd::prelude::*;
use crate::bits::lemma_mask_bound_u16;
use crate::bits::lemma_mask_bound_u32;
use crate::instruction::branch_displacement;
use crate::instruction::decoded_opcode;
use crate::instruction::jump_displacement;
use crate::instruction::operand_imm5;
use crate::instruction::operand_reg1;
use crate::instruction::operand_reg2;
use crate::instruction::subop_of_bits;
use crate::instruction::DecodeError;
use crate::instruction::InstructionFormat;
use crate::instruction::system_register_of_index;
use crate::instruction::Opcode;
use crate::instruction::SystemRegister;
use crate::interconnect::InterconnectView;
use crate::mem_map::BusError;
use crate::nvc::alu::quotient;
use crate::nvc::alu::Flags;
use crate::nvc::alu::WideResult;
use crate::nvc::lemma_halfword_aligned;
use crate::nvc::float::float_exception;
use crate::nvc::float::is_float_subop;
use crate::nvc::float::no_float_flags;
use crate::nvc::float::operand_flags;
use crate::nvc::psw::FloatFlags;
use crate::nvc::psw::Psw;
use crate::nvc::float::FloatAnswer;
use crate::nvc::state::NvcState;
use crate::nvc::state::ADDRESS_TRAP_CODE;
use crate::nvc::state::DIVIDE_BY_ZERO_CODE;
use crate::nvc::state::EXCEPTION_HANDLER_BASE;
use crate::nvc::state::GPR_COUNT;
use crate::nvc::state::INVALID_OPCODE_CODE;
use crate::nvc::state::RESET_PC;

verus! {

/// Whether an opcode sets the program counter itself: the branches, the
/// jumps and the return from an exception.
pub open spec fn changes_flow(opcode: Opcode) -> bool {
    ||| opcode.format() == InstructionFormat::III
    ||| opcode.format() == InstructionFormat::IV
    ||| opcode == Opcode::Jmp
    ||| opcode == Opcode::Reti
}

/// Whether a load or a store of the instruction is refused by the bus.
pub open spec fn access_refused(
    cpu: NvcState,
    bus: InterconnectView,
    opcode: Opcode,
    reg1: usize,
    reg2: usize,
    disp16: u16,
) -> bool {
    let addr = cpu.effective_address(reg1, disp16);
    let value = cpu.gpr[reg2 as int];
    match opcode {
        Opcode::Ldb => bus.read_byte(addr) is Err,
        Opcode::Inb => bus.read_byte(addr) is Err,
        Opcode::Ldh => bus.read_halfword(addr) is Err,
        Opcode::Inh => bus.read_halfword(addr) is Err,
        Opcode::Ldw => bus.read_word(addr) is Err,
        Opcode::Inw => bus.read_word(addr) is Err,
        Opcode::Stb => bus.write_byte(addr, value as u8) is Err,
        Opcode::Outb => bus.write_byte(addr, value as u8) is Err,
        Opcode::Sth => bus.write_halfword(addr, value as u16) is Err,
        Opcode::Outh => bus.write_halfword(addr, value as u16) is Err,
        Opcode::Stw => bus.write_word(addr, value) is Err,
        Opcode::Outw => bus.write_word(addr, value) is Err,
        _ => false,
    }
}

/// The exception that an instruction raises instead of doing its work, if
/// it raises one.
pub open spec fn fault(
    cpu: NvcState,
    bus: InterconnectView,
    opcode: Opcode,
    first: u16,
    second: u16,
) -> Option<u16> {
    match opcode.format() {
        InstructionFormat::I => cpu.register_fault(opcode, operand_reg1(first)),
        InstructionFormat::II => cpu.immediate_fault(opcode, operand_imm5(first)),
        InstructionFormat::VI => if access_refused(
            cpu,
            bus,
            opcode,
            operand_reg1(first),
            operand_reg2(first),
            second,
        ) {
            Some(ADDRESS_TRAP_CODE)
        } else {
            None
        },
        InstructionFormat::VII => match subop_of_bits((second >> 10) as usize) {
            Some(_) => None,
            None => Some(INVALID_OPCODE_CODE),
        },
        _ => None,
    }
}

/// The floating-point flags that the operands of an instruction raise,
/// where it is a floating-point instruction that refuses them.
pub open spec fn float_fault(cpu: NvcState, opcode: Opcode, first: u16, second: u16) -> Option<
    FloatFlags,
> {
    match subop_of_bits((second >> 10) as usize) {
        Some(subop) => {
            let flags = operand_flags(
                subop,
                cpu.gpr[operand_reg2(first) as int],
                cpu.gpr[operand_reg1(first) as int],
            );
            if opcode.format() == InstructionFormat::VII && is_float_subop(subop)
                && float_exception(flags) is Some {
                Some(flags)
            } else {
                None
            }
        },
        None => None,
    }
}

/// A floating-point instruction that refuses its operands sets their flag
/// in the status word, raises the exception of that flag, and does nothing
/// else.
pub proof fn lemma_float_fault_raises(
    cpu: NvcState,
    bus: InterconnectView,
    opcode: Opcode,
    first: u16,
    second: u16,
)
    ensures
        float_fault(cpu, opcode, first, second) matches Some(flags) ==> (float_exception(
            flags,
        ) matches Some(code) && cpu.executed(bus, opcode, first, second).cpu == (NvcState {
            psw: cpu.psw.with_float_flags(flags),
            ..cpu
        }).exception(code)) && cpu.executed(bus, opcode, first, second).bus == bus,
{
    reveal(NvcState::executed);
}

/// An instruction that raises an exception does nothing else.
#[verifier::rlimit(50)]
pub proof fn lemma_fault_raises(
    cpu: NvcState,
    bus: InterconnectView,
    opcode: Opcode,
    first: u16,
    second: u16,
)
    ensures
        fault(cpu, bus, opcode, first, second) matches Some(code) ==> cpu.executed(
            bus,
            opcode,
            first,
            second,
        ).cpu == cpu.exception(code) && cpu.executed(bus, opcode, first, second).bus == bus,
{
    reveal(NvcState::executed);
    if opcode.format() == InstructionFormat::VII {
        let reg1 = operand_reg1(first);
        let reg2 = operand_reg2(first);
        if subop_of_bits((second >> 10) as usize) is None {
            assert(cpu.after_extended(reg1, reg2, second) == cpu.exception(INVALID_OPCODE_CODE));
        }
    }
}

proof fn lemma_sequential_register(cpu: NvcState, opcode: Opcode, reg1: usize, reg2: usize)
    requires
        opcode.format() == InstructionFormat::I,
        opcode != Opcode::Jmp,
    ensures
        cpu.after_register(opcode, reg1, reg2).pc == cpu.pc.wrapping_add(2),
{
    let next = cpu.advanced(2);
    let goal = cpu.after_register(opcode, reg1, reg2).pc == cpu.pc.wrapping_add(2);
    match opcode {
        Opcode::MovReg => {
            assert(goal);
        },
        Opcode::AddReg => {
            assert(goal);
        },
        Opcode::Sub => {
            assert(goal);
        },
        Opcode::CmpReg => {
            assert(goal);
        },
        Opcode::ShlReg => {
            assert(goal);
        },
        Opcode::ShrReg => {
            assert(goal);
        },
        Opcode::SarReg => {
            assert(goal);
        },
        Opcode::Mul => {
            assert(goal);
        },
        Opcode::Div => {
            assert(goal);
        },
        Opcode::MulU => {
            assert(goal);
        },
        Opcode::DivU => {
            assert(goal);
        },
        Opcode::Or => {
            assert(goal);
        },
        Opcode::And => {
            assert(goal);
        },
        Opcode::Xor => {
            assert(goal);
        },
        Opcode::Not => {
            assert(goal);
        },
        _ => {},
    }
}

proof fn lemma_sequential_immediate(cpu: NvcState, opcode: Opcode, imm5: u32, reg2: usize)
    requires
        opcode.format() == InstructionFormat::II,
        opcode != Opcode::Reti,
    ensures
        cpu.after_immediate(opcode, imm5, reg2).pc == cpu.pc.wrapping_add(2),
{
    let goal = cpu.after_immediate(opcode, imm5, reg2).pc == cpu.pc.wrapping_add(2);
    match opcode {
        Opcode::MovImm => {
            assert(goal);
        },
        Opcode::AddImm5 => {
            assert(goal);
        },
        Opcode::Setf => {
            assert(goal);
        },
        Opcode::CmpImm => {
            assert(goal);
        },
        Opcode::ShlImm => {
            assert(goal);
        },
        Opcode::ShrImm => {
            assert(goal);
        },
        Opcode::Cli => {
            assert(goal);
        },
        Opcode::SarImm => {
            assert(goal);
        },
        Opcode::Halt => {
            assert(goal);
        },
        Opcode::Ldsr => {
            assert(goal);
        },
        Opcode::Stsr => {
            assert(goal);
        },
        Opcode::Sei => {
            assert(goal);
        },
        _ => {},
    }
}

proof fn lemma_sequential_immediate_16(
    cpu: NvcState,
    opcode: Opcode,
    reg1: usize,
    reg2: usize,
    imm16: u16,
)
    requires
        opcode.format() == InstructionFormat::V,
    ensures
        cpu.after_immediate_16(opcode, reg1, reg2, imm16).pc == cpu.pc.wrapping_add(4),
{
    let goal = cpu.after_immediate_16(opcode, reg1, reg2, imm16).pc == cpu.pc.wrapping_add(4);
    match opcode {
        Opcode::Movea => {
            assert(goal);
        },
        Opcode::AddImm16 => {
            assert(goal);
        },
        Opcode::OrI => {
            assert(goal);
        },
        Opcode::AndI => {
            assert(goal);
        },
        Opcode::XorI => {
            assert(goal);
        },
        Opcode::Movhi => {
            assert(goal);
        },
        _ => {},
    }
}

proof fn lemma_sequential_memory(
    cpu: NvcState,
    bus: InterconnectView,
    opcode: Opcode,
    reg1: usize,
    reg2: usize,
    disp16: u16,
)
    requires
        opcode.format() == InstructionFormat::VI,
        !access_refused(cpu, bus, opcode, reg1, reg2, disp16),
    ensures
        cpu.after_memory(bus, opcode, reg1, reg2, disp16).cpu.pc == cpu.pc.wrapping_add(4),
{
    let goal = cpu.after_memory(bus, opcode, reg1, reg2, disp16).cpu.pc == cpu.pc.wrapping_add(4);
    match opcode {
        Opcode::Ldb => {
            assert(goal);
        },
        Opcode::Ldh => {
            assert(goal);
        },
        Opcode::Ldw => {
            assert(goal);
        },
        Opcode::Stb => {
            assert(goal);
        },
        Opcode::Sth => {
            assert(goal);
        },
        Opcode::Stw => {
            assert(goal);
        },
        Opcode::Inb => {
            assert(goal);
        },
        Opcode::Inh => {
            assert(goal);
        },
        Opcode::Inw => {
            assert(goal);
        },
        Opcode::Outb => {
            assert(goal);
        },
        Opcode::Outh => {
            assert(goal);
        },
        Opcode::Outw => {
            assert(goal);
        },
        _ => {},
    }
}

/// An instruction that is neither a branch, nor a jump, nor a return from an
/// exception, and that raises no exception, moves the program counter on by
/// its own length: 2 or 4.
pub proof fn lemma_sequential_pc(
    cpu: NvcState,
    bus: InterconnectView,
    opcode: Opcode,
    first: u16,
    second: u16,
)
    requires
        !changes_flow(opcode),
        fault(cpu, bus, opcode, first, second) is None,
        float_fault(cpu, opcode, first, second) is None,
    ensures
        cpu.executed(bus, opcode, first, second).cpu.pc == cpu.pc.wrapping_add(
            opcode.format().length(),
        ),
        opcode.format().length() == 2 || opcode.format().length() == 4,
{
    reveal(NvcState::executed);
    let reg1 = operand_reg1(first);
    let reg2 = operand_reg2(first);
    let imm5 = operand_imm5(first);
    match opcode.format() {
        InstructionFormat::I => lemma_sequential_register(cpu, opcode, reg1, reg2),
        InstructionFormat::II => lemma_sequential_immediate(cpu, opcode, imm5, reg2),
        InstructionFormat::V => lemma_sequential_immediate_16(cpu, opcode, reg1, reg2, second),
        InstructionFormat::VI => lemma_sequential_memory(cpu, bus, opcode, reg1, reg2, second),
        _ => {},
    }
}

/// A step of a running CPU that accepts no interrupt, waits for no float
/// unit, and executes an instruction that is neither a branch, nor a jump,
/// nor a return from an exception, and that raises no exception, moves the program counter on by
/// the length of the instruction, and takes the cycles of its opcode.
pub proof fn lemma_step_sequential(
    cpu: NvcState,
    bus: InterconnectView,
    opcode: Opcode,
    first: u16,
    second: u16,
)
    requires
        cpu.float_request is None,
        cpu.with_pending_delivered() == cpu,
        !cpu.halted,
        bus.read_halfword(cpu.pc) == Ok::<u16, BusError>(first),
        decoded_opcode(first) == Ok::<
            Opcode,
            DecodeError,
        >(opcode),
        opcode.format().two_halfwords() ==> bus.read_halfword(cpu.pc.wrapping_add(2)) == Ok::<
            u16,
            BusError,
        >(second),
        !opcode.format().two_halfwords() ==> second == 0,
        !changes_flow(opcode),
        fault(cpu, bus, opcode, first, second) is None,
        float_fault(cpu, opcode, first, second) is None,
    ensures
        cpu.stepped(bus).cpu.pc == cpu.pc.wrapping_add(opcode.format().length()),
        cpu.stepped(bus).cycles == opcode.cycle_cost(false),
{
    reveal(NvcState::stepped);
    reveal(NvcState::run_instruction);
    assert(cpu.refused() == cpu);
    lemma_sequential_pc(cpu, bus, opcode, first, second);
}

/// A step that executes a conditional branch takes 3 cycles where the branch
/// is taken and 1 where it is not.
pub proof fn lemma_step_branch_cycles(cpu: NvcState, bus: InterconnectView, opcode: Opcode, first: u16)
    requires
        cpu.float_request is None,
        cpu.with_pending_delivered() == cpu,
        !cpu.halted,
        bus.read_halfword(cpu.pc) == Ok::<u16, BusError>(first),
        decoded_opcode(first) == Ok::<
            Opcode,
            DecodeError,
        >(opcode),
        opcode.is_conditional_branch(),
    ensures
        cpu.stepped(bus).cycles == (if cpu.branch_taken(opcode) {
            3usize
        } else {
            1usize
        }),
{
    reveal(NvcState::stepped);
    reveal(NvcState::run_instruction);
    assert(cpu.refused() == cpu);
}

/// An even displacement added to an even address is the branch's target as
/// it stands: clearing bit 0 changes nothing.
pub proof fn lemma_even_target(pc: u32, displacement: u32)
    requires
        pc % 2 == 0,
        displacement % 2 == 0,
    ensures
        pc.wrapping_add(displacement) & 0xffff_fffe == pc.wrapping_add(displacement),
{
    let target = pc.wrapping_add(displacement);
    assert(target % 2 == 0);
    assert(target % 2 == 0 ==> target & 0xffff_fffe == target) by (bit_vector);
}

/// A step that executes a conditional branch changes the program counter
/// and nothing else: no register, no flag, nothing behind the bus. A branch
/// that is taken takes 3 cycles and goes to the address of the branch itself
/// plus the displacement, bit 0 cleared; one that is not taken takes 1 cycle
/// and goes on with the instruction that follows.
pub proof fn lemma_step_branch(cpu: NvcState, bus: InterconnectView, opcode: Opcode, first: u16)
    requires
        cpu.float_request is None,
        cpu.with_pending_delivered() == cpu,
        !cpu.halted,
        bus.read_halfword(cpu.pc) == Ok::<u16, BusError>(first),
        decoded_opcode(first) == Ok::<
            Opcode,
            DecodeError,
        >(opcode),
        opcode.is_conditional_branch(),
    ensures
        cpu.stepped(bus).bus == bus,
        !cpu.stepped(bus).watchpoint_hit,
        cpu.branch_taken(opcode) ==> cpu.stepped(bus).cycles == 3 && cpu.stepped(bus).cpu
            == cpu.with_pc(cpu.pc.wrapping_add(branch_displacement(first)) & 0xffff_fffe),
        !cpu.branch_taken(opcode) ==> cpu.stepped(bus).cycles == 1 && cpu.stepped(bus).cpu
            == cpu.with_pc(cpu.pc.wrapping_add(2)),
        cpu.branch_taken(opcode) && cpu.pc % 2 == 0 && branch_displacement(first) % 2 == 0
            ==> cpu.stepped(bus).cpu.pc == cpu.pc.wrapping_add(branch_displacement(first)),
{
    reveal(NvcState::stepped);
    reveal(NvcState::run_instruction);
    reveal(NvcState::executed);
    assert(cpu.refused() == cpu);
    if cpu.pc % 2 == 0 && branch_displacement(first) % 2 == 0 {
        lemma_even_target(cpu.pc, branch_displacement(first));
    }
}

/// An exception keeps the CPU's state well-formed.
pub proof fn lemma_exception_keeps_wf(cpu: NvcState, code: u16)
    requires
        cpu.wf(),
    ensures
        cpu.exception(code).wf(),
{
    lemma_halfword_aligned(EXCEPTION_HANDLER_BASE | (code as u32));
}

/// An answer of the float unit keeps the CPU's state well-formed, and so
/// does the refusal of an instruction that waits for one.
pub proof fn lemma_answered_keeps_wf(cpu: NvcState, answer: FloatAnswer)
    requires
        cpu.wf(),
    ensures
        cpu.answered(answer).wf(),
        cpu.refused().wf(),
{
    let cleared = NvcState { float_request: None, ..cpu }.with_pc(cpu.pc.wrapping_sub(4));
    lemma_exception_keeps_wf(cleared, INVALID_OPCODE_CODE);
    let flagged = NvcState {
        float_request: None,
        psw: cpu.psw.with_float_flags(answer.float_flags),
        ..cpu
    }.with_pc(cpu.pc.wrapping_sub(4));
    match answer.exception {
        Some(code) => lemma_exception_keeps_wf(flagged, code),
        None => {},
    }
}

/// The floating-point flags are sticky: an answer of the float unit sets
/// its flags in the status word and clears none, whether it raises an
/// exception or not.
pub proof fn lemma_float_flags_stay(cpu: NvcState, answer: FloatAnswer)
    requires
        cpu.float_request is Some,
    ensures
        cpu.psw.float_flags().within(cpu.answered(answer).psw.float_flags()),
        answer.float_flags.within(cpu.answered(answer).psw.float_flags()),
        cpu.answered(answer).float_request is None,
{
}

/// A floating-point instruction that refuses its operands clears no
/// floating-point flag either, and sets the one of its exception.
pub proof fn lemma_float_fault_flags_stay(
    cpu: NvcState,
    bus: InterconnectView,
    opcode: Opcode,
    first: u16,
    second: u16,
)
    ensures
        float_fault(cpu, opcode, first, second) matches Some(flags) ==> cpu.psw.float_flags().within(
            cpu.executed(bus, opcode, first, second).cpu.psw.float_flags(),
        ) && flags.within(cpu.executed(bus, opcode, first, second).cpu.psw.float_flags()),
{
    lemma_float_fault_raises(cpu, bus, opcode, first, second);
}

/// LDSR to the status word sets the floating-point flags as the written
/// word has them: that is how a program clears them.
pub proof fn lemma_status_word_written(cpu: NvcState, value: u32)
    ensures
        cpu.with_system_register(SystemRegister::Psw, value).psw == Psw::of_bits(value),
        value & 0x0000_03f0 == 0 ==> Psw::of_bits(value).float_flags() == no_float_flags(),
{
    assert(value & 0x0000_03f0 == 0 ==> value & 0x0000_0010 == 0 && value & 0x0000_0020 == 0
        && value & 0x0000_0040 == 0 && value & 0x0000_0080 == 0 && value & 0x0000_0100 == 0
        && value & 0x0000_0200 == 0) by (bit_vector);
}

/// A requested interrupt keeps the CPU's state well-formed, whether it is
/// accepted or kept pending.
pub proof fn lemma_requested_keeps_wf(cpu: NvcState, vector: u16)
    requires
        cpu.wf(),
    ensures
        cpu.requested(vector).wf(),
        cpu.with_pending_delivered().wf(),
{
    lemma_exception_keeps_wf(cpu, vector);
    match cpu.pending_interrupt {
        Some(pending) => lemma_exception_keeps_wf(cpu, pending),
        None => {},
    }
}

proof fn lemma_register_keeps_wf(cpu: NvcState, opcode: Opcode, reg1: usize, reg2: usize)
    requires
        cpu.wf(),
        reg1 < GPR_COUNT,
        reg2 < GPR_COUNT,
    ensures
        cpu.after_register(opcode, reg1, reg2).wf(),
{
    lemma_halfword_aligned(cpu.gpr[reg1 as int]);
    let goal = cpu.after_register(opcode, reg1, reg2).wf();
    match opcode {
        Opcode::MovReg => {
            assert(goal);
        },
        Opcode::AddReg => {
            assert(goal);
        },
        Opcode::Sub => {
            assert(goal);
        },
        Opcode::CmpReg => {
            assert(goal);
        },
        Opcode::ShlReg => {
            assert(goal);
        },
        Opcode::ShrReg => {
            assert(goal);
        },
        Opcode::Jmp => {
            assert(goal);
        },
        Opcode::SarReg => {
            assert(goal);
        },
        Opcode::Mul => {
            assert(goal);
        },
        Opcode::Div => {
            assert(goal);
        },
        Opcode::MulU => {
            assert(goal);
        },
        Opcode::DivU => {
            assert(goal);
        },
        Opcode::Or => {
            assert(goal);
        },
        Opcode::And => {
            assert(goal);
        },
        Opcode::Xor => {
            assert(goal);
        },
        Opcode::Not => {
            assert(goal);
        },
        _ => {},
    }
}

proof fn lemma_return_keeps_wf(cpu: NvcState)
    requires
        cpu.wf(),
    ensures
        cpu.returned().wf(),
{
    lemma_halfword_aligned(cpu.eipc);
    lemma_halfword_aligned(cpu.fepc);
    lemma_psw_level(cpu.eipsw);
    lemma_psw_level(cpu.fepsw);
}

proof fn lemma_system_register_keeps_wf(cpu: NvcState, register: SystemRegister, value: u32)
    requires
        cpu.wf(),
    ensures
        cpu.with_system_register(register, value).wf(),
{
    lemma_psw_level(value);
}

proof fn lemma_arithmetic_immediate_keeps_wf(
    cpu: NvcState,
    opcode: Opcode,
    imm5: u32,
    reg2: usize,
)
    requires
        cpu.wf(),
        reg2 < GPR_COUNT,
        opcode != Opcode::Reti,
        opcode != Opcode::Ldsr,
        opcode != Opcode::Stsr,
    ensures
        cpu.after_immediate(opcode, imm5, reg2).wf(),
{
    let goal = cpu.after_immediate(opcode, imm5, reg2).wf();
    match opcode {
        Opcode::MovImm => {
            assert(goal);
        },
        Opcode::AddImm5 => {
            assert(goal);
        },
        Opcode::Setf => {
            assert(goal);
        },
        Opcode::CmpImm => {
            assert(goal);
        },
        Opcode::ShlImm => {
            assert(goal);
        },
        Opcode::ShrImm => {
            assert(goal);
        },
        Opcode::Cli => {
            assert(goal);
        },
        Opcode::SarImm => {
            assert(goal);
        },
        Opcode::Halt => {
            assert(goal);
        },
        Opcode::Sei => {
            assert(goal);
        },
        _ => {},
    }
}

proof fn lemma_immediate_keeps_wf(cpu: NvcState, opcode: Opcode, imm5: u32, reg2: usize)
    requires
        cpu.wf(),
        reg2 < GPR_COUNT,
    ensures
        cpu.after_immediate(opcode, imm5, reg2).wf(),
{
    let next = cpu.advanced(2);
    match opcode {
        Opcode::Reti => {
            lemma_return_keeps_wf(cpu);
        },
        Opcode::Ldsr => {
            match system_register_of_index(imm5 as usize) {
                Some(register) => lemma_system_register_keeps_wf(
                    next,
                    register,
                    cpu.gpr[reg2 as int],
                ),
                None => {},
            }
        },
        Opcode::Stsr => {
            match system_register_of_index(imm5 as usize) {
                Some(register) => {
                    assert(next.with_gpr(reg2, cpu.system_register(register)).wf());
                },
                None => {},
            }
        },
        _ => lemma_arithmetic_immediate_keeps_wf(cpu, opcode, imm5, reg2),
    }
}

proof fn lemma_immediate_16_keeps_wf(
    cpu: NvcState,
    opcode: Opcode,
    reg1: usize,
    reg2: usize,
    imm16: u16,
)
    requires
        cpu.wf(),
        reg1 < GPR_COUNT,
        reg2 < GPR_COUNT,
    ensures
        cpu.after_immediate_16(opcode, reg1, reg2, imm16).wf(),
{
    let goal = cpu.after_immediate_16(opcode, reg1, reg2, imm16).wf();
    match opcode {
        Opcode::Movea => {
            assert(goal);
        },
        Opcode::AddImm16 => {
            assert(goal);
        },
        Opcode::OrI => {
            assert(goal);
        },
        Opcode::AndI => {
            assert(goal);
        },
        Opcode::XorI => {
            assert(goal);
        },
        Opcode::Movhi => {
            assert(goal);
        },
        _ => {},
    }
}

#[verifier::rlimit(50)]
proof fn lemma_memory_keeps_wf(
    cpu: NvcState,
    bus: InterconnectView,
    opcode: Opcode,
    reg1: usize,
    reg2: usize,
    disp16: u16,
)
    requires
        cpu.wf(),
        reg1 < GPR_COUNT,
        reg2 < GPR_COUNT,
    ensures
        cpu.after_memory(bus, opcode, reg1, reg2, disp16).cpu.wf(),
{
    lemma_exception_keeps_wf(cpu, ADDRESS_TRAP_CODE);
    let goal = cpu.after_memory(bus, opcode, reg1, reg2, disp16).cpu.wf();
    match opcode {
        Opcode::Ldb => {
            assert(goal);
        },
        Opcode::Ldh => {
            assert(goal);
        },
        Opcode::Ldw => {
            assert(goal);
        },
        Opcode::Stb => {
            assert(goal);
        },
        Opcode::Sth => {
            assert(goal);
        },
        Opcode::Stw => {
            assert(goal);
        },
        Opcode::Inb => {
            assert(goal);
        },
        Opcode::Inh => {
            assert(goal);
        },
        Opcode::Inw => {
            assert(goal);
        },
        Opcode::Outb => {
            assert(goal);
        },
        Opcode::Outh => {
            assert(goal);
        },
        Opcode::Outw => {
            assert(goal);
        },
        _ => {},
    }
}

proof fn lemma_flow_keeps_wf(cpu: NvcState, opcode: Opcode, displacement: u32)
    requires
        cpu.wf(),
    ensures
        cpu.after_branch(opcode, displacement).wf(),
        cpu.after_jump(opcode, displacement).wf(),
{
    lemma_halfword_aligned(cpu.pc.wrapping_add(displacement));
}

proof fn lemma_extended_keeps_wf(cpu: NvcState, reg1: usize, reg2: usize, second: u16)
    requires
        cpu.wf(),
        reg1 < GPR_COUNT,
        reg2 < GPR_COUNT,
    ensures
        cpu.after_extended(reg1, reg2, second).wf(),
{
    lemma_exception_keeps_wf(cpu, INVALID_OPCODE_CODE);
}

proof fn lemma_faulting_register_keeps_wf(cpu: NvcState, opcode: Opcode, reg1: usize, reg2: usize)
    requires
        cpu.wf(),
        reg1 < GPR_COUNT,
        reg2 < GPR_COUNT,
    ensures
        (match cpu.register_fault(opcode, reg1) {
            Some(code) => cpu.exception(code),
            None => cpu.after_register(opcode, reg1, reg2),
        }).wf(),
{
    lemma_exception_keeps_wf(cpu, DIVIDE_BY_ZERO_CODE);
    lemma_register_keeps_wf(cpu, opcode, reg1, reg2);
}

proof fn lemma_faulting_immediate_keeps_wf(cpu: NvcState, opcode: Opcode, imm5: u32, reg2: usize)
    requires
        cpu.wf(),
        reg2 < GPR_COUNT,
    ensures
        (match cpu.immediate_fault(opcode, imm5) {
            Some(code) => cpu.exception(code),
            None => cpu.after_immediate(opcode, imm5, reg2),
        }).wf(),
{
    lemma_exception_keeps_wf(cpu, INVALID_OPCODE_CODE);
    lemma_immediate_keeps_wf(cpu, opcode, imm5, reg2);
}

/// Executing an instruction keeps the CPU's state well-formed: r0 stays 0
/// and the program counter even.
pub proof fn lemma_executed_keeps_wf(
    cpu: NvcState,
    bus: InterconnectView,
    opcode: Opcode,
    first: u16,
    second: u16,
)
    requires
        cpu.wf(),
    ensures
        cpu.executed(bus, opcode, first, second).cpu.wf(),
{
    reveal(NvcState::executed);
    lemma_mask_bound_u16(first, 0x1f);
    lemma_mask_bound_u16(first >> 5, 0x1f);
    let reg1 = operand_reg1(first);
    let reg2 = operand_reg2(first);
    let imm5 = operand_imm5(first);
    lemma_faulting_register_keeps_wf(cpu, opcode, reg1, reg2);
    lemma_faulting_immediate_keeps_wf(cpu, opcode, imm5, reg2);
    lemma_flow_keeps_wf(cpu, opcode, branch_displacement(first));
    lemma_flow_keeps_wf(cpu, opcode, jump_displacement(first, second));
    lemma_immediate_16_keeps_wf(cpu, opcode, reg1, reg2, second);
    lemma_memory_keeps_wf(cpu, bus, opcode, reg1, reg2, second);
    lemma_extended_keeps_wf(cpu, reg1, reg2, second);
}

/// A status word that is read from bits has a mask level of at most 15.
pub proof fn lemma_psw_level(value: u32)
    ensures
        Psw::of_bits(value).interrupt_mask_level <= 15,
{
    lemma_mask_bound_u32(value >> 16, 0x0f);
}

/// A step keeps the CPU's state well-formed: whatever the instructions are,
/// r0 reads 0 after them, and the program counter is even.
pub proof fn lemma_step_keeps_wf(cpu: NvcState, bus: InterconnectView)
    requires
        cpu.wf(),
    ensures
        cpu.stepped(bus).cpu.wf(),
        cpu.stepped(bus).cpu.gpr[0] == 0,
{
    reveal(NvcState::stepped);
    reveal(NvcState::run_instruction);
    lemma_answered_keeps_wf(
        cpu,
        FloatAnswer {
            result: None,
            flags: Flags { zero: false, sign: false, overflow: false, carry: false },
            float_flags: FloatFlags {
                precision_degradation: false,
                underflow: false,
                overflow: false,
                zero_division: false,
                invalid_operation: false,
                reserved_operand: false,
            },
            exception: None,
        },
    );
    lemma_requested_keeps_wf(cpu.refused(), 0);
    let delivered = cpu.refused().with_pending_delivered();
    lemma_exception_keeps_wf(delivered, ADDRESS_TRAP_CODE);
    lemma_exception_keeps_wf(delivered, INVALID_OPCODE_CODE);
    if !delivered.halted {
        match bus.read_halfword(delivered.pc) {
            Ok(first) => match decoded_opcode(first) {
                Ok(opcode) => {
                    if opcode.format().two_halfwords() {
                        match bus.read_halfword(delivered.pc.wrapping_add(2)) {
                            Ok(second) => {
                                lemma_executed_keeps_wf(delivered, bus, opcode, first, second);
                            },
                            Err(_) => {},
                        }
                    } else {
                        lemma_executed_keeps_wf(delivered, bus, opcode, first, 0);
                    }
                },
                Err(_) => {},
            },
            Err(_) => {},
        }
    }
}

/// The most negative number divided by -1 gives itself as the quotient, no
/// remainder, and the overflow.
pub proof fn lemma_division_overflow(carry: bool)
    ensures
        quotient(0x8000_0000, 0xffff_ffff, carry) == (WideResult {
            value: 0x8000_0000,
            extra: 0,
            flags: Flags { zero: false, sign: true, overflow: true, carry },
        }),
{
}

/// After a reset the program counter is at the reset vector, every register
/// is 0, NP is set and the CPU runs.
pub proof fn lemma_reset_state(watchpoints: Set<u32>)
    ensures
        ({
            let cpu = NvcState::reset_state(watchpoints);
            &&& cpu.wf()
            &&& cpu.pc == RESET_PC
            &&& cpu.gpr.len() == GPR_COUNT
            &&& (forall|i: int| 0 <= i < GPR_COUNT ==> cpu.gpr[i] == 0)
            &&& cpu.psw.nmi_pending
            &&& !cpu.halted
        }),
{
}

} // verus!
