use rustual_boy::instruction::Opcode;
use rustual_boy::interconnect::Interconnect;
use rustual_boy::instruction::SubOp;
use rustual_boy::nvc::alu::Flags;
use rustual_boy::nvc::float::{
    answer_of, check_operands, exception_of, for_float_unit, reserved_operand, FloatAnswer,
    FloatOutcome, FloatRequest,
};
use rustual_boy::nvc::psw::FloatFlags;
use rustual_boy::nvc::Nvc;
use rustual_boy::rom::Rom;
use rustual_boy::sram::Sram;

const ROM_SIZE: usize = 2048;
const ROM_BASE: u32 = 0xffff_f800;

fn short(opcode: Opcode, reg1: u16, reg2: u16) -> Vec<u16> {
    vec![opcode.encode((reg2 << 5) | reg1)]
}

fn long(opcode: Opcode, reg1: u16, reg2: u16, second: u16) -> Vec<u16> {
    vec![opcode.encode((reg2 << 5) | reg1), second]
}

fn branch(opcode: Opcode, displacement: i16) -> Vec<u16> {
    vec![opcode.encode((displacement as u16) & 0x01ff)]
}

fn jump(opcode: Opcode, displacement: i32) -> Vec<u16> {
    let bits = (displacement as u32) & 0x03ff_ffff;
    vec![opcode.encode((bits >> 16) as u16), bits as u16]
}

/// A machine whose ROM holds the program at its start, and at the reset
/// vector a jump to it.
fn machine(program: &[Vec<u16>]) -> (Nvc, Interconnect) {
    let mut bytes = vec![0u8; ROM_SIZE];
    let mut offset = 0;
    for instruction in program {
        for halfword in instruction {
            bytes[offset] = *halfword as u8;
            bytes[offset + 1] = (*halfword >> 8) as u8;
            offset += 2;
        }
    }
    assert!(offset <= ROM_SIZE - 0x10);
    let reset = jump(Opcode::Jr, -((ROM_SIZE - 0x10) as i32));
    bytes[ROM_SIZE - 0x10] = reset[0] as u8;
    bytes[ROM_SIZE - 0x0f] = (reset[0] >> 8) as u8;
    bytes[ROM_SIZE - 0x0e] = reset[1] as u8;
    bytes[ROM_SIZE - 0x0d] = (reset[1] >> 8) as u8;
    let rom = Rom::new(bytes).unwrap();
    let mut interconnect = Interconnect::new(rom, Sram::new());
    let mut cpu = Nvc::new();
    assert_eq!(cpu.step(&mut interconnect), (3, false));
    assert_eq!(cpu.reg_pc(), ROM_BASE);
    (cpu, interconnect)
}

/// Runs the program and returns the machine after its last instruction.
fn run(program: &[Vec<u16>]) -> (Nvc, Interconnect) {
    let (mut cpu, mut interconnect) = machine(program);
    for _ in program {
        cpu.step(&mut interconnect);
    }
    (cpu, interconnect)
}

/// Clears NP, which the reset sets, so that exceptions can be taken.
fn clear_psw() -> Vec<u16> {
    short(Opcode::Ldsr, 5, 0)
}

#[test]
fn reset_state() {
    let mut cpu = Nvc::new();
    assert_eq!(cpu.reg_pc(), 0xffff_fff0);
    for index in 0..32 {
        assert_eq!(cpu.reg_gpr(index), 0);
    }
    assert_eq!(cpu.reg_psw(), 0x0000_8000);
    assert!(!cpu.is_halted());

    // a used CPU is the same again after a reset
    let (mut used, _) = run(&[short(Opcode::MovImm, 9, 4), short(Opcode::Halt, 0, 0)]);
    assert!(used.is_halted());
    assert_eq!(used.reg_gpr(4), 9);
    used.reset();
    assert_eq!(used.reg_pc(), 0xffff_fff0);
    for index in 0..32 {
        assert_eq!(used.reg_gpr(index), 0);
    }
    assert_eq!(used.reg_psw(), 0x0000_8000);
    assert!(!used.is_halted());
    cpu.reset();
    assert_eq!(cpu.reg_pc(), 0xffff_fff0);
}

#[test]
fn first_step_fetches_sixteen_bytes_before_the_end_of_the_rom() {
    for size in [1024usize, 4096, 0x10000] {
        let mut bytes = vec![0xffu8; size];
        let instruction = short(Opcode::MovImm, 7, 1)[0];
        bytes[size - 0x10] = instruction as u8;
        bytes[size - 0x0f] = (instruction >> 8) as u8;
        let mut interconnect = Interconnect::new(Rom::new(bytes).unwrap(), Sram::new());
        let mut cpu = Nvc::new();
        assert_eq!(cpu.step(&mut interconnect), (1, false));
        assert_eq!(cpu.reg_gpr(1), 7);
        assert_eq!(cpu.reg_pc(), 0xffff_fff2);
    }
}

#[test]
fn immediate_arithmetic() {
    let mut bytes = vec![0u8; 1024];
    let program = [short(Opcode::MovImm, 5, 1), long(Opcode::AddImm16, 1, 2, 0x1234)];
    let mut offset = 1024 - 0x10;
    for instruction in &program {
        for halfword in instruction {
            bytes[offset] = *halfword as u8;
            bytes[offset + 1] = (*halfword >> 8) as u8;
            offset += 2;
        }
    }
    let mut interconnect = Interconnect::new(Rom::new(bytes).unwrap(), Sram::new());
    let mut cpu = Nvc::new();
    let start = cpu.reg_pc();
    assert_eq!(cpu.step(&mut interconnect), (1, false));
    assert_eq!(cpu.step(&mut interconnect), (1, false));
    assert_eq!(cpu.reg_gpr(1), 5);
    assert_eq!(cpu.reg_gpr(2), 0x1239);
    assert_eq!(cpu.reg_pc(), start.wrapping_add(6));
}

#[test]
fn load_store_round_trip() {
    let (mut cpu, mut interconnect) = run(&[
        long(Opcode::Movhi, 0, 1, 0x0500),
        long(Opcode::Movea, 0, 2, 0xabcd),
        long(Opcode::Sth, 1, 2, 0),
        long(Opcode::Ldh, 1, 3, 0),
    ]);
    assert_eq!(cpu.reg_gpr(1), 0x0500_0000);
    assert_eq!(cpu.reg_gpr(3), 0xffff_abcd);
    assert_eq!(interconnect.read_halfword(0x0500_0000), Ok(0xabcd));
    assert_eq!(interconnect.read_byte(0x0500_0000), Ok(0xcd));
    assert_eq!(interconnect.read_byte(0x0500_0001), Ok(0xab));
    assert_eq!(cpu.reg_pc(), ROM_BASE + 16);
}

#[test]
fn loads_sign_extend_and_ins_zero_extend() {
    let (mut cpu, _) = run(&[
        long(Opcode::Movhi, 0, 1, 0x0500),
        long(Opcode::Movea, 0, 2, 0x8182),
        long(Opcode::Stw, 1, 2, 0x10),
        long(Opcode::Ldb, 1, 3, 0x10),
        long(Opcode::Inb, 1, 4, 0x10),
        long(Opcode::Ldh, 1, 5, 0x10),
        long(Opcode::Inh, 1, 6, 0x10),
        long(Opcode::Ldw, 1, 7, 0x10),
        long(Opcode::Inw, 1, 8, 0x10),
        long(Opcode::Ldb, 1, 9, 0x11),
    ]);
    assert_eq!(cpu.reg_gpr(2), 0xffff_8182);
    assert_eq!(cpu.reg_gpr(3), 0xffff_ff82);
    assert_eq!(cpu.reg_gpr(4), 0x0000_0082);
    assert_eq!(cpu.reg_gpr(5), 0xffff_8182);
    assert_eq!(cpu.reg_gpr(6), 0x0000_8182);
    assert_eq!(cpu.reg_gpr(7), 0xffff_8182);
    assert_eq!(cpu.reg_gpr(8), 0xffff_8182);
    assert_eq!(cpu.reg_gpr(9), 0xffff_ff81);
}

#[test]
fn stores_write_the_low_bytes_and_mask_the_address() {
    let (_, mut interconnect) = run(&[
        long(Opcode::Movhi, 0, 1, 0x0500),
        long(Opcode::Movhi, 0, 2, 0x1122),
        long(Opcode::OrI, 2, 2, 0x3344),
        long(Opcode::Stw, 1, 2, 0x23),
        long(Opcode::Sth, 1, 2, 0x31),
        long(Opcode::Stb, 1, 2, 0x41),
        long(Opcode::Outb, 1, 2, 0x50),
        long(Opcode::Outh, 1, 2, 0x60),
        long(Opcode::Outw, 1, 2, 0x70),
    ]);
    assert_eq!(interconnect.read_word(0x0500_0020), Ok(0x1122_3344));
    assert_eq!(interconnect.read_word(0x0500_0030), Ok(0xffff_3344));
    assert_eq!(interconnect.read_word(0x0500_0040), Ok(0xffff_44ff));
    assert_eq!(interconnect.read_word(0x0500_0050), Ok(0xffff_ff44));
    assert_eq!(interconnect.read_word(0x0500_0060), Ok(0xffff_3344));
    assert_eq!(interconnect.read_word(0x0500_0070), Ok(0x1122_3344));
}

#[test]
fn r0_reads_zero_whatever_is_written_to_it() {
    let (mut cpu, _) = run(&[
        short(Opcode::MovImm, 5, 0),
        long(Opcode::AddImm16, 0, 0, 0x1234),
        long(Opcode::Movhi, 0, 0, 0xffff),
        long(Opcode::Movhi, 0, 1, 0x0700),
        long(Opcode::Ldw, 1, 0, 0),
        short(Opcode::Not, 0, 0),
        short(Opcode::MovImm, 3, 2),
        short(Opcode::Mul, 2, 0),
        short(Opcode::MovReg, 2, 0),
        long(Opcode::Jal, 0, 0, 4),
        short(Opcode::Stsr, 5, 0),
    ]);
    assert_eq!(cpu.reg_gpr(0), 0);
    assert_ne!(cpu.reg_gpr(31), 0);
}

#[test]
fn add_sets_zero_sign_overflow_and_carry() {
    // 0x7fffffff + 1: overflow and sign
    let (mut cpu, _) = run(&[
        long(Opcode::Movhi, 0, 1, 0x8000),
        long(Opcode::Movea, 1, 1, 0xffff),
        short(Opcode::AddImm5, 1, 1),
    ]);
    assert_eq!(cpu.reg_gpr(1), 0x8000_0000);
    assert_eq!(cpu.reg_psw() & 0x0f, 0x06);

    // 0xffffffff + 1: zero and carry
    let (mut cpu, _) = run(&[short(Opcode::MovImm, 0x1f, 1), short(Opcode::AddImm5, 1, 1)]);
    assert_eq!(cpu.reg_gpr(1), 0);
    assert_eq!(cpu.reg_psw() & 0x0f, 0x09);

    // 0x80000000 + 0x80000000: zero, overflow and carry
    let (mut cpu, _) = run(&[
        long(Opcode::Movhi, 0, 1, 0x8000),
        long(Opcode::Movhi, 0, 2, 0x8000),
        short(Opcode::AddReg, 1, 2),
    ]);
    assert_eq!(cpu.reg_gpr(2), 0);
    assert_eq!(cpu.reg_psw() & 0x0f, 0x0d);

    // 2 + 3: none
    let (mut cpu, _) = run(&[
        short(Opcode::MovImm, 2, 1),
        short(Opcode::MovImm, 3, 2),
        short(Opcode::AddReg, 1, 2),
    ]);
    assert_eq!(cpu.reg_gpr(2), 5);
    assert_eq!(cpu.reg_psw() & 0x0f, 0x00);
}

#[test]
fn sub_and_cmp_borrow_into_carry() {
    // 3 - 5 = -2: sign and carry
    let (mut cpu, _) = run(&[
        short(Opcode::MovImm, 5, 1),
        short(Opcode::MovImm, 3, 2),
        short(Opcode::Sub, 1, 2),
    ]);
    assert_eq!(cpu.reg_gpr(2), 0xffff_fffe);
    assert_eq!(cpu.reg_psw() & 0x0f, 0x0a);

    // cmp leaves the register alone
    let (mut cpu, _) = run(&[
        short(Opcode::MovImm, 5, 1),
        short(Opcode::MovImm, 5, 2),
        short(Opcode::CmpReg, 1, 2),
    ]);
    assert_eq!(cpu.reg_gpr(2), 5);
    assert_eq!(cpu.reg_psw() & 0x0f, 0x01);

    // 0x80000000 - 1: overflow
    let (mut cpu, _) = run(&[long(Opcode::Movhi, 0, 2, 0x8000), short(Opcode::CmpImm, 1, 2)]);
    assert_eq!(cpu.reg_gpr(2), 0x8000_0000);
    assert_eq!(cpu.reg_psw() & 0x0f, 0x04);
}

#[test]
fn mov_immediate_sign_extends_five_bits() {
    let (mut cpu, _) = run(&[
        short(Opcode::MovImm, 0x0f, 1),
        short(Opcode::MovImm, 0x10, 2),
        short(Opcode::MovImm, 0x1f, 3),
    ]);
    assert_eq!(cpu.reg_gpr(1), 15);
    assert_eq!(cpu.reg_gpr(2), 0xffff_fff0);
    assert_eq!(cpu.reg_gpr(3), 0xffff_ffff);
    // mov sets no flags
    assert_eq!(cpu.reg_psw(), 0x0000_8000);
}

#[test]
fn shifts_put_the_last_bit_shifted_out_into_carry() {
    let (mut cpu, _) = run(&[
        long(Opcode::Movhi, 0, 1, 0xc000),
        short(Opcode::ShlImm, 1, 1),
    ]);
    assert_eq!(cpu.reg_gpr(1), 0x8000_0000);
    assert_eq!(cpu.reg_psw() & 0x0f, 0x0a);

    let (mut cpu, _) = run(&[short(Opcode::MovImm, 5, 1), short(Opcode::ShrImm, 1, 1)]);
    assert_eq!(cpu.reg_gpr(1), 2);
    assert_eq!(cpu.reg_psw() & 0x0f, 0x08);

    let (mut cpu, _) = run(&[short(Opcode::MovImm, 0x1c, 1), short(Opcode::SarImm, 2, 1)]);
    assert_eq!(cpu.reg_gpr(1), 0xffff_ffff);
    assert_eq!(cpu.reg_psw() & 0x0f, 0x02);

    let (mut cpu, _) = run(&[short(Opcode::MovImm, 0x1c, 1), short(Opcode::ShrImm, 2, 1)]);
    assert_eq!(cpu.reg_gpr(1), 0x3fff_ffff);
    assert_eq!(cpu.reg_psw() & 0x0f, 0x00);

    // register shifts use five bits of the count; a shift by 0 clears carry
    let (mut cpu, _) = run(&[
        short(Opcode::MovImm, 0x1f, 9),
        short(Opcode::AddImm5, 1, 9),
        short(Opcode::MovImm, 3, 1),
        long(Opcode::Movea, 0, 2, 0x0020),
        short(Opcode::ShlReg, 2, 1),
    ]);
    assert_eq!(cpu.reg_gpr(1), 3);
    assert_eq!(cpu.reg_psw() & 0x0f, 0x00);

    let (mut cpu, _) = run(&[
        short(Opcode::MovImm, 3, 1),
        short(Opcode::MovImm, 4, 2),
        short(Opcode::ShlReg, 2, 1),
        short(Opcode::MovImm, 1, 3),
        short(Opcode::ShrReg, 3, 1),
        short(Opcode::MovImm, 0x10, 4),
        short(Opcode::SarReg, 3, 4),
    ]);
    assert_eq!(cpu.reg_gpr(1), 24);
    assert_eq!(cpu.reg_gpr(4), 0xffff_fff8);
}

#[test]
fn logic_clears_overflow_and_keeps_carry() {
    let (mut cpu, _) = run(&[
        // carry and overflow from 0x80000000 + 0x80000000
        long(Opcode::Movhi, 0, 1, 0x8000),
        long(Opcode::Movhi, 0, 2, 0x8000),
        short(Opcode::AddReg, 1, 2),
        long(Opcode::Movea, 0, 3, 0x00f0),
        long(Opcode::Movea, 0, 4, 0x003c),
        short(Opcode::And, 3, 4),
    ]);
    assert_eq!(cpu.reg_gpr(4), 0x30);
    assert_eq!(cpu.reg_psw() & 0x0f, 0x08);

    let (mut cpu, _) = run(&[
        long(Opcode::Movea, 0, 3, 0x00f0),
        long(Opcode::Movea, 0, 4, 0x003c),
        long(Opcode::Movea, 0, 5, 0x003c),
        long(Opcode::Movea, 0, 6, 0x003c),
        short(Opcode::Or, 3, 4),
        short(Opcode::Xor, 3, 5),
        short(Opcode::Not, 3, 6),
    ]);
    assert_eq!(cpu.reg_gpr(4), 0xfc);
    assert_eq!(cpu.reg_gpr(5), 0xcc);
    assert_eq!(cpu.reg_gpr(6), 0xffff_ff0f);
    assert_eq!(cpu.reg_psw() & 0x0f, 0x02);

    let (mut cpu, _) = run(&[
        long(Opcode::Movea, 0, 1, 0xffff),
        long(Opcode::AndI, 1, 2, 0xf00f),
        long(Opcode::OrI, 0, 3, 0x8001),
        long(Opcode::XorI, 1, 4, 0xffff),
    ]);
    assert_eq!(cpu.reg_gpr(2), 0x0000_f00f);
    assert_eq!(cpu.reg_gpr(3), 0x0000_8001);
    assert_eq!(cpu.reg_gpr(4), 0xffff_0000);
}

#[test]
fn movea_and_movhi_set_no_flags() {
    let (mut cpu, _) = run(&[
        long(Opcode::Movea, 0, 1, 0x8000),
        long(Opcode::Movhi, 1, 2, 0x0001),
        long(Opcode::Movea, 2, 3, 0x7fff),
    ]);
    assert_eq!(cpu.reg_gpr(1), 0xffff_8000);
    assert_eq!(cpu.reg_gpr(2), 0x0000_8000);
    assert_eq!(cpu.reg_gpr(3), 0x0000_ffff);
    assert_eq!(cpu.reg_psw(), 0x0000_8000);
}

#[test]
fn mul_gives_a_64_bit_product() {
    // -2 * 3 = -6
    let (mut cpu, _) = run(&[
        short(Opcode::MovImm, 0x1e, 1),
        short(Opcode::MovImm, 3, 2),
        short(Opcode::Mul, 1, 2),
    ]);
    assert_eq!(cpu.reg_gpr(2), 0xffff_fffa);
    assert_eq!(cpu.reg_gpr(30), 0xffff_ffff);
    assert_eq!(cpu.reg_psw() & 0x0f, 0x02);

    // 0x10000 * 0x10000 = 2^32
    let (mut cpu, _) = run(&[
        long(Opcode::Movhi, 0, 1, 0x0001),
        long(Opcode::Movhi, 0, 2, 0x0001),
        short(Opcode::Mul, 1, 2),
    ]);
    assert_eq!(cpu.reg_gpr(2), 0);
    assert_eq!(cpu.reg_gpr(30), 1);
    assert_eq!(cpu.reg_psw() & 0x0f, 0x05);

    // unsigned: 0xffffffff * 0xffffffff
    let (mut cpu, _) = run(&[
        short(Opcode::MovImm, 0x1f, 1),
        short(Opcode::MovImm, 0x1f, 2),
        short(Opcode::MulU, 1, 2),
    ]);
    assert_eq!(cpu.reg_gpr(2), 0x0000_0001);
    assert_eq!(cpu.reg_gpr(30), 0xffff_fffe);
    assert_eq!(cpu.reg_psw() & 0x0f, 0x04);

    // signed: -1 * -1 = 1
    let (mut cpu, _) = run(&[
        short(Opcode::MovImm, 0x1f, 1),
        short(Opcode::MovImm, 0x1f, 2),
        short(Opcode::Mul, 1, 2),
    ]);
    assert_eq!(cpu.reg_gpr(2), 1);
    assert_eq!(cpu.reg_gpr(30), 0);
    assert_eq!(cpu.reg_psw() & 0x0f, 0x00);
}

#[test]
fn div_rounds_towards_zero() {
    // -7 / 2 = -3 remainder -1
    let (mut cpu, _) = run(&[
        short(Opcode::MovImm, 2, 1),
        short(Opcode::MovImm, 0x19, 2),
        short(Opcode::Div, 1, 2),
    ]);
    assert_eq!(cpu.reg_gpr(2), 0xffff_fffd);
    assert_eq!(cpu.reg_gpr(30), 0xffff_ffff);
    assert_eq!(cpu.reg_psw() & 0x0f, 0x02);

    // 7 / -2 = -3 remainder 1
    let (mut cpu, _) = run(&[
        short(Opcode::MovImm, 0x1e, 1),
        short(Opcode::MovImm, 7, 2),
        short(Opcode::Div, 1, 2),
    ]);
    assert_eq!(cpu.reg_gpr(2), 0xffff_fffd);
    assert_eq!(cpu.reg_gpr(30), 1);

    // unsigned: 0xfffffff9 / 2
    let (mut cpu, _) = run(&[
        short(Opcode::MovImm, 2, 1),
        short(Opcode::MovImm, 0x19, 2),
        short(Opcode::DivU, 1, 2),
    ]);
    assert_eq!(cpu.reg_gpr(2), 0x7fff_fffc);
    assert_eq!(cpu.reg_gpr(30), 1);
    assert_eq!(cpu.reg_psw() & 0x0f, 0x00);

    // 0 / 5 = 0: zero
    let (mut cpu, _) = run(&[short(Opcode::MovImm, 5, 1), short(Opcode::Div, 1, 2)]);
    assert_eq!(cpu.reg_gpr(2), 0);
    assert_eq!(cpu.reg_gpr(30), 0);
    assert_eq!(cpu.reg_psw() & 0x0f, 0x01);
}

#[test]
fn div_of_int_min_by_minus_one_overflows() {
    let (mut cpu, mut interconnect) = machine(&[
        short(Opcode::MovImm, 0x1f, 1),
        long(Opcode::Movhi, 0, 2, 0x8000),
        short(Opcode::MovImm, 7, 30),
        short(Opcode::Div, 1, 2),
    ]);
    cpu.step(&mut interconnect);
    cpu.step(&mut interconnect);
    cpu.step(&mut interconnect);
    assert_eq!(cpu.step(&mut interconnect), (38, false));
    assert_eq!(cpu.reg_gpr(2), 0x8000_0000);
    assert_eq!(cpu.reg_gpr(30), 0);
    assert_eq!(cpu.reg_psw() & 0x04, 0x04);
    assert_eq!(cpu.reg_psw() & 0x0f, 0x06);
    assert_eq!(cpu.reg_pc(), ROM_BASE + 10);
}

#[test]
fn div_by_zero_raises_its_exception() {
    for opcode in [Opcode::Div, Opcode::DivU] {
        let (mut cpu, _) = run(&[clear_psw(), short(Opcode::MovImm, 9, 2), short(opcode, 1, 2)]);
        assert_eq!(cpu.reg_pc(), 0xffff_ff80);
        assert_eq!(cpu.reg_eipc(), ROM_BASE + 4);
        assert_eq!(cpu.reg_eipsw(), 0);
        assert_eq!(cpu.reg_ecr(), 0xff80);
        // EP and ID
        assert_eq!(cpu.reg_psw(), 0x0000_5000);
        assert_eq!(cpu.reg_gpr(2), 9);
        assert!(!cpu.is_halted());
    }
}

#[test]
fn an_exception_with_np_set_is_fatal() {
    let (mut cpu, _) = run(&[short(Opcode::Div, 1, 2)]);
    assert!(cpu.is_halted());
    assert_eq!(cpu.reg_pc(), ROM_BASE);
}

#[test]
fn an_exception_inside_a_handler_is_duplexed() {
    // PSW with EP set, then a division by zero
    let (mut cpu, _) = run(&[
        long(Opcode::Movea, 0, 1, 0x4000),
        short(Opcode::Ldsr, 5, 1),
        short(Opcode::Div, 0, 2),
    ]);
    assert_eq!(cpu.reg_pc(), 0xffff_ffd0);
    assert_eq!(cpu.reg_ecr(), 0xff80_0000);
    // NP, EP and ID
    assert_eq!(cpu.reg_psw(), 0x0000_d000);
    assert!(!cpu.is_halted());
}

#[test]
fn branches_taken_and_not_taken() {
    let (mut cpu, mut interconnect) = machine(&[
        short(Opcode::CmpImm, 0, 0),
        branch(Opcode::Bnz, 0x40),
        branch(Opcode::Bz, 0x10),
    ]);
    cpu.step(&mut interconnect);
    assert_eq!(cpu.step(&mut interconnect), (1, false));
    assert_eq!(cpu.reg_pc(), ROM_BASE + 4);
    assert_eq!(cpu.step(&mut interconnect), (3, false));
    // the displacement counts from the branch itself
    assert_eq!(cpu.reg_pc(), ROM_BASE + 4 + 0x10);
}

#[test]
fn branches_go_backwards_with_negative_displacements() {
    let (mut cpu, mut interconnect) = machine(&[
        short(Opcode::MovImm, 3, 1),
        short(Opcode::AddImm5, 0x1f, 1),
        branch(Opcode::Bnz, -2),
        short(Opcode::MovImm, 7, 2),
    ]);
    cpu.step(&mut interconnect);
    let mut cycles = 0;
    for _ in 0..6 {
        cycles += cpu.step(&mut interconnect).0;
    }
    // three additions, two branches taken, one not taken
    assert_eq!(cycles, 3 + 3 + 3 + 1);
    assert_eq!(cpu.reg_gpr(1), 0);
    assert_eq!(cpu.step(&mut interconnect), (1, false));
    assert_eq!(cpu.reg_gpr(2), 7);
}

#[test]
fn every_condition_follows_the_flags() {
    // flags: zero only
    let conditions_after_zero = [
        (Opcode::Bv, false), (Opcode::Bc, false), (Opcode::Bz, true), (Opcode::Bnh, true),
        (Opcode::Bn, false), (Opcode::Br, true), (Opcode::Blt, false), (Opcode::Ble, true),
        (Opcode::Bnv, true), (Opcode::Bnc, true), (Opcode::Bnz, false), (Opcode::Bh, false),
        (Opcode::Bp, true), (Opcode::Nop, false), (Opcode::Bge, true), (Opcode::Bgt, false),
    ];
    for (opcode, taken) in conditions_after_zero {
        let (mut cpu, mut interconnect) =
            machine(&[short(Opcode::CmpImm, 0, 0), branch(opcode, 0x20)]);
        cpu.step(&mut interconnect);
        let cycles = cpu.step(&mut interconnect).0;
        assert_eq!(cycles, if taken { 3 } else { 1 });
        assert_eq!(cpu.reg_pc(), ROM_BASE + 2 + if taken { 0x20 } else { 2 });
    }
    // flags: sign and carry (3 - 5)
    let conditions_after_borrow = [
        (Opcode::Bv, false), (Opcode::Bc, true), (Opcode::Bz, false), (Opcode::Bnh, true),
        (Opcode::Bn, true), (Opcode::Br, true), (Opcode::Blt, true), (Opcode::Ble, true),
        (Opcode::Bnv, true), (Opcode::Bnc, false), (Opcode::Bnz, true), (Opcode::Bh, false),
        (Opcode::Bp, false), (Opcode::Nop, false), (Opcode::Bge, false), (Opcode::Bgt, false),
    ];
    for (opcode, taken) in conditions_after_borrow {
        let (mut cpu, mut interconnect) = machine(&[
            short(Opcode::MovImm, 3, 1),
            short(Opcode::CmpImm, 5, 1),
            branch(opcode, 0x20),
        ]);
        cpu.step(&mut interconnect);
        cpu.step(&mut interconnect);
        let cycles = cpu.step(&mut interconnect).0;
        assert_eq!(cycles, if taken { 3 } else { 1 });
    }
}

#[test]
fn setf_writes_one_or_zero() {
    let (mut cpu, _) = run(&[
        short(Opcode::CmpImm, 0, 0),
        short(Opcode::Setf, 2, 1),
        short(Opcode::Setf, 10, 2),
        short(Opcode::Setf, 5, 3),
        short(Opcode::Setf, 13, 4),
        // only four bits of the immediate name the condition
        short(Opcode::Setf, 0x12, 5),
    ]);
    assert_eq!(cpu.reg_gpr(1), 1);
    assert_eq!(cpu.reg_gpr(2), 0);
    assert_eq!(cpu.reg_gpr(3), 1);
    assert_eq!(cpu.reg_gpr(4), 0);
    assert_eq!(cpu.reg_gpr(5), 1);
}

#[test]
fn jumps() {
    let (mut cpu, mut interconnect) = machine(&[jump(Opcode::Jr, 0x100)]);
    assert_eq!(cpu.step(&mut interconnect), (3, false));
    assert_eq!(cpu.reg_pc(), ROM_BASE + 0x100);

    let (mut cpu, mut interconnect) = machine(&[
        short(Opcode::MovImm, 1, 1),
        jump(Opcode::Jal, 0x20),
    ]);
    cpu.step(&mut interconnect);
    assert_eq!(cpu.step(&mut interconnect), (3, false));
    assert_eq!(cpu.reg_pc(), ROM_BASE + 2 + 0x20);
    assert_eq!(cpu.reg_gpr(31), ROM_BASE + 6);

    let (mut cpu, mut interconnect) = machine(&[
        long(Opcode::Movhi, 0, 1, 0x0700),
        long(Opcode::Movea, 1, 1, 0x0041),
        short(Opcode::Jmp, 1, 0),
    ]);
    cpu.step(&mut interconnect);
    cpu.step(&mut interconnect);
    assert_eq!(cpu.step(&mut interconnect), (3, false));
    // bit 0 of the target is dropped
    assert_eq!(cpu.reg_pc(), 0x0700_0040);
}

#[test]
fn sequential_instructions_advance_the_pc_by_their_length() {
    let program = [
        short(Opcode::MovReg, 1, 2),
        short(Opcode::AddReg, 1, 2),
        short(Opcode::Sub, 1, 2),
        short(Opcode::CmpReg, 1, 2),
        short(Opcode::ShlReg, 1, 2),
        short(Opcode::ShrReg, 1, 2),
        short(Opcode::SarReg, 1, 2),
        short(Opcode::Mul, 1, 2),
        short(Opcode::MulU, 1, 2),
        short(Opcode::Or, 1, 2),
        short(Opcode::And, 1, 2),
        short(Opcode::Xor, 1, 2),
        short(Opcode::Not, 1, 2),
        short(Opcode::MovImm, 1, 2),
        short(Opcode::AddImm5, 1, 2),
        short(Opcode::Setf, 1, 2),
        short(Opcode::CmpImm, 1, 2),
        short(Opcode::ShlImm, 1, 2),
        short(Opcode::ShrImm, 1, 2),
        short(Opcode::SarImm, 1, 2),
        short(Opcode::Sei, 0, 0),
        short(Opcode::Cli, 0, 0),
        short(Opcode::Stsr, 5, 3),
        short(Opcode::Ldsr, 0, 3),
        short(Opcode::Nop, 0, 0),
        long(Opcode::Movea, 1, 2, 0x10),
        long(Opcode::AddImm16, 1, 2, 0x10),
        long(Opcode::OrI, 1, 2, 0x10),
        long(Opcode::AndI, 1, 2, 0x10),
        long(Opcode::XorI, 1, 2, 0x10),
        long(Opcode::Movhi, 0, 4, 0x0500),
        long(Opcode::Stw, 4, 2, 0),
        long(Opcode::Ldw, 4, 2, 0),
        long(Opcode::Inh, 4, 2, 0),
        long(Opcode::Outb, 4, 2, 0),
        long(Opcode::Extended, 1, 2, 0b001000 << 10),
        long(Opcode::Extended, 1, 2, 0b001001 << 10),
        long(Opcode::Extended, 1, 2, 0b001100 << 10),
    ];
    let (mut cpu, mut interconnect) = machine(&program);
    for instruction in &program {
        let before = cpu.reg_pc();
        cpu.step(&mut interconnect);
        assert_eq!(cpu.reg_pc(), before + 2 * instruction.len() as u32);
    }
}

#[test]
fn system_registers_are_read_and_written() {
    let (mut cpu, _) = run(&[
        long(Opcode::Movea, 0, 1, 0x1234),
        short(Opcode::Ldsr, 0, 1),
        short(Opcode::Ldsr, 1, 1),
        short(Opcode::Ldsr, 2, 1),
        short(Opcode::Ldsr, 3, 1),
        short(Opcode::Ldsr, 4, 1),
        short(Opcode::Ldsr, 24, 1),
        short(Opcode::Stsr, 0, 2),
        short(Opcode::Stsr, 1, 3),
        short(Opcode::Stsr, 2, 4),
        short(Opcode::Stsr, 3, 5),
        short(Opcode::Stsr, 4, 6),
        short(Opcode::Stsr, 24, 7),
        short(Opcode::Stsr, 5, 8),
    ]);
    assert_eq!(cpu.reg_eipc(), 0x1234);
    assert_eq!(cpu.reg_eipsw(), 0x1234);
    assert_eq!(cpu.reg_gpr(2), 0x1234);
    assert_eq!(cpu.reg_gpr(3), 0x1234);
    assert_eq!(cpu.reg_gpr(4), 0x1234);
    assert_eq!(cpu.reg_gpr(5), 0x1234);
    // the exception cause register cannot be written
    assert_eq!(cpu.reg_ecr(), 0);
    assert_eq!(cpu.reg_gpr(6), 0);
    assert_eq!(cpu.reg_gpr(7), 0x1234);
    assert_eq!(cpu.reg_gpr(8), 0x8000);
}

#[test]
fn the_status_word_keeps_the_bits_it_has() {
    let (mut cpu, _) = run(&[
        long(Opcode::Movhi, 0, 1, 0xffff),
        long(Opcode::OrI, 1, 1, 0xffff),
        short(Opcode::Ldsr, 5, 1),
        short(Opcode::Stsr, 5, 2),
    ]);
    assert_eq!(cpu.reg_psw(), 0x000f_f3ff);
    assert_eq!(cpu.reg_gpr(2), 0x000f_f3ff);
}

#[test]
fn reserved_system_registers_raise_the_invalid_opcode_exception() {
    for opcode in [Opcode::Ldsr, Opcode::Stsr] {
        for index in [6u16, 23, 25, 31] {
            let (mut cpu, _) = run(&[clear_psw(), short(opcode, index, 1)]);
            assert_eq!(cpu.reg_pc(), 0xffff_ff90);
            assert_eq!(cpu.reg_eipc(), ROM_BASE + 2);
            assert_eq!(cpu.reg_ecr(), 0xff90);
        }
    }
}

#[test]
fn undefined_opcodes_raise_the_invalid_opcode_exception() {
    for bits in [0b011000u16, 0b011011, 0b011111, 0b110010, 0b110110, 0b111010] {
        let (mut cpu, mut interconnect) = machine(&[clear_psw(), vec![bits << 10]]);
        cpu.step(&mut interconnect);
        assert_eq!(cpu.step(&mut interconnect), (1, false));
        assert_eq!(cpu.reg_pc(), 0xffff_ff90);
        assert_eq!(cpu.reg_eipc(), ROM_BASE + 2);
        assert_eq!(cpu.reg_ecr(), 0xff90);
    }
}

#[test]
fn extended_integer_operations() {
    let (mut cpu, _) = run(&[
        long(Opcode::Movhi, 0, 1, 0x1122),
        long(Opcode::OrI, 1, 1, 0x3344),
        short(Opcode::MovReg, 1, 2),
        short(Opcode::MovReg, 1, 3),
        long(Opcode::Extended, 0, 2, 0b001000 << 10),
        long(Opcode::Extended, 0, 3, 0b001001 << 10),
        short(Opcode::MovImm, 0x1d, 4),
        short(Opcode::MovImm, 7, 5),
        long(Opcode::Extended, 4, 5, 0b001100 << 10),
        // only seventeen bits of the factor count
        long(Opcode::Movhi, 0, 6, 0x0003),
        long(Opcode::OrI, 6, 6, 0x0005),
        short(Opcode::MovImm, 2, 7),
        long(Opcode::Extended, 6, 7, 0b001100 << 10),
    ]);
    assert_eq!(cpu.reg_gpr(2), 0x1122_4433);
    assert_eq!(cpu.reg_gpr(3), 0x3344_1122);
    assert_eq!(cpu.reg_gpr(5), (-21i32) as u32);
    assert_eq!(cpu.reg_gpr(7), ((0x0001_0005u32 as i32 | !0x1ffff) * 2) as u32);
}

#[test]
fn unknown_sub_opcodes_raise_the_invalid_opcode_exception() {
    for subop in [0b000001u16, 0b001010, 0b001101, 0b111111] {
        let (mut cpu, _) = run(&[clear_psw(), long(Opcode::Extended, 1, 2, subop << 10)]);
        assert_eq!(cpu.reg_pc(), 0xffff_ff90);
        assert_eq!(cpu.reg_eipc(), ROM_BASE + 2);
        assert_eq!(cpu.reg_ecr(), 0xff90);
        assert_eq!(cpu.float_request(), None);
    }
}

fn no_float_flags() -> FloatFlags {
    FloatFlags {
        precision_degradation: false,
        underflow: false,
        overflow: false,
        zero_division: false,
        invalid_operation: false,
        reserved_operand: false,
    }
}

/// The two instructions that load a word into a register.
fn load_word(reg: u16, value: u32) -> Vec<Vec<u16>> {
    let low = value as u16;
    let high = ((value >> 16) as u16).wrapping_add(low >> 15);
    vec![long(Opcode::Movhi, 0, reg, high), long(Opcode::Movea, reg, reg, low)]
}

const FLOAT_INSTRUCTION: u32 = ROM_BASE + 18;

/// A machine that has just executed the floating-point instruction, on r2
/// and r1, at `FLOAT_INSTRUCTION`, with a clear status word.
fn float_machine(subop: u16, destination: u32, source: u32) -> (Nvc, Interconnect) {
    let mut program = vec![clear_psw()];
    program.extend(load_word(1, source));
    program.extend(load_word(2, destination));
    program.push(long(Opcode::Extended, 1, 2, subop << 10));
    program.push(clear_psw());
    let (mut cpu, mut interconnect) = machine(&program);
    for _ in 0..5 {
        cpu.step(&mut interconnect);
    }
    assert_eq!(cpu.reg_gpr(1), source);
    assert_eq!(cpu.reg_gpr(2), destination);
    assert_eq!(cpu.reg_pc(), FLOAT_INSTRUCTION);
    assert_eq!(cpu.reg_psw(), 0);
    assert_eq!(cpu.float_request(), None);
    cpu.step(&mut interconnect);
    (cpu, interconnect)
}

const ONE: u32 = 0x3f80_0000;
const TWO: u32 = 0x4000_0000;
const THREE: u32 = 0x4040_0000;
const MINUS_ONE: u32 = 0xbf80_0000;
const INFINITY: u32 = 0x7f80_0000;
const NOT_A_NUMBER: u32 = 0x7fc0_0000;
const MINUS_ZERO: u32 = 0x8000_0000;

#[test]
fn a_floating_point_instruction_waits_for_the_float_unit() {
    let subops = [
        (0b000000u16, SubOp::CmpfS),
        (0b000010, SubOp::CvtWs),
        (0b000011, SubOp::CvtSw),
        (0b000100, SubOp::AddfS),
        (0b000101, SubOp::SubfS),
        (0b000110, SubOp::MulfS),
        (0b000111, SubOp::DivfS),
        (0b001011, SubOp::TrncSw),
    ];
    for (bits, subop) in subops {
        let (mut cpu, _) = float_machine(bits, TWO, ONE);
        assert_eq!(cpu.reg_pc(), FLOAT_INSTRUCTION + 4);
        assert_eq!(
            cpu.float_request(),
            Some(FloatRequest { subop, reg2: 2, destination: TWO, source: ONE })
        );
        assert_eq!(cpu.reg_gpr(2), TWO);
        assert_eq!(cpu.reg_psw(), 0);
        assert_eq!(cpu.reg_ecr(), 0);
    }
}

#[test]
fn the_answer_of_the_float_unit_goes_to_the_register() {
    let (mut cpu, mut interconnect) = float_machine(0b000100, TWO, ONE);
    cpu.answer_float(FloatOutcome { bits: THREE, flags: no_float_flags() });
    assert_eq!(cpu.float_request(), None);
    assert_eq!(cpu.reg_gpr(2), THREE);
    assert_eq!(cpu.reg_gpr(1), ONE);
    assert_eq!(cpu.reg_psw(), 0);
    assert_eq!(cpu.reg_pc(), FLOAT_INSTRUCTION + 4);
    // with nothing waiting, an answer changes nothing
    cpu.answer_float(FloatOutcome { bits: 7, flags: no_float_flags() });
    assert_eq!(cpu.reg_gpr(2), THREE);
    assert_eq!(cpu.reg_psw(), 0);
    // and the CPU goes on with the instruction that follows
    assert_eq!(cpu.step(&mut interconnect), (1, false));
    assert_eq!(cpu.reg_pc(), FLOAT_INSTRUCTION + 6);
}

#[test]
fn a_floating_point_result_sets_the_flags() {
    // negative: S and CY
    let (mut cpu, _) = float_machine(0b000101, ONE, TWO);
    cpu.answer_float(FloatOutcome { bits: MINUS_ONE, flags: no_float_flags() });
    assert_eq!(cpu.reg_gpr(2), MINUS_ONE);
    assert_eq!(cpu.reg_psw(), 0x0a);
    // zero: Z alone, whatever its sign
    let (mut cpu, _) = float_machine(0b000101, ONE, ONE);
    cpu.answer_float(FloatOutcome { bits: MINUS_ZERO, flags: no_float_flags() });
    assert_eq!(cpu.reg_gpr(2), MINUS_ZERO);
    assert_eq!(cpu.reg_psw(), 0x01);
    let (mut cpu, _) = float_machine(0b000110, ONE, 0);
    cpu.answer_float(FloatOutcome { bits: 0, flags: no_float_flags() });
    assert_eq!(cpu.reg_psw(), 0x01);
}

#[test]
fn a_comparison_keeps_its_result_to_itself() {
    let (mut cpu, _) = float_machine(0b000000, ONE, TWO);
    cpu.answer_float(FloatOutcome { bits: MINUS_ONE, flags: no_float_flags() });
    assert_eq!(cpu.reg_gpr(2), ONE);
    assert_eq!(cpu.reg_psw(), 0x0a);
    assert_eq!(cpu.float_request(), None);
}

#[test]
fn a_conversion_to_an_integer_keeps_the_carry() {
    for subop in [0b000011u16, 0b001011] {
        let mut program = vec![short(Opcode::MovImm, 8, 3), short(Opcode::Ldsr, 5, 3)];
        program.extend(load_word(1, MINUS_ONE));
        program.push(long(Opcode::Extended, 1, 2, subop << 10));
        let (mut cpu, _) = run(&program);
        assert_eq!(cpu.reg_psw(), 0x08);
        cpu.answer_float(FloatOutcome { bits: 0xffff_ffff, flags: no_float_flags() });
        assert_eq!(cpu.reg_gpr(2), 0xffff_ffff);
        assert_eq!(cpu.reg_psw(), 0x0a);

        let (mut cpu, _) = float_machine(subop, INFINITY, ONE);
        cpu.answer_float(FloatOutcome { bits: 1, flags: no_float_flags() });
        assert_eq!(cpu.reg_gpr(2), 1);
        assert_eq!(cpu.reg_psw(), 0);
        let (mut cpu, _) = float_machine(subop, 5, 0);
        cpu.answer_float(FloatOutcome { bits: 0, flags: no_float_flags() });
        assert_eq!(cpu.reg_gpr(2), 0);
        assert_eq!(cpu.reg_psw(), 0x01);
        // the sign of an integer is its top bit, zero or not
        let (mut cpu, _) = float_machine(subop, 5, MINUS_ONE);
        cpu.answer_float(FloatOutcome { bits: 0x8000_0000, flags: no_float_flags() });
        assert_eq!(cpu.reg_psw(), 0x02);
    }
}

#[test]
fn an_instruction_that_nobody_answers_is_refused() {
    let (mut cpu, mut interconnect) = float_machine(0b000110, TWO, ONE);
    // the handler holds zeros: MOV r0, r0
    assert_eq!(cpu.step(&mut interconnect), (1, false));
    assert_eq!(cpu.float_request(), None);
    assert_eq!(cpu.reg_pc(), 0xffff_ff92);
    assert_eq!(cpu.reg_eipc(), FLOAT_INSTRUCTION);
    assert_eq!(cpu.reg_ecr(), 0xff90);
    assert_eq!(cpu.reg_psw(), 0x5000);
    assert_eq!(cpu.reg_gpr(2), TWO);
}

#[test]
fn reserved_operands_raise_their_exception() {
    let refused = [
        (0b000000u16, INFINITY, ONE),
        (0b000100, ONE, INFINITY),
        (0b000101, NOT_A_NUMBER, ONE),
        (0b000110, ONE, 0xffc0_0000),
        (0b000111, 1, ONE),
        (0b000111, ONE, 0x807f_ffff),
        (0b000011, 0, 0x0000_0001),
        (0b001011, 0, 0xff80_0000),
    ];
    for (subop, destination, source) in refused {
        let (mut cpu, _) = float_machine(subop, destination, source);
        assert_eq!(cpu.float_request(), None);
        assert_eq!(cpu.reg_pc(), 0xffff_ff60);
        assert_eq!(cpu.reg_eipc(), FLOAT_INSTRUCTION);
        assert_eq!(cpu.reg_eipsw(), 0x0200);
        assert_eq!(cpu.reg_ecr(), 0xff60);
        assert_eq!(cpu.reg_psw(), 0x5200);
        assert_eq!(cpu.reg_gpr(2), destination);
    }
    // an integer operand is never reserved, nor a register that is only written
    for (subop, destination, source) in [
        (0b000010u16, ONE, INFINITY),
        (0b000010, NOT_A_NUMBER, 1),
        (0b000011, INFINITY, ONE),
        (0b001011, 1, TWO),
    ] {
        let (cpu, _) = float_machine(subop, destination, source);
        assert!(cpu.float_request().is_some());
    }
    // the smallest and the largest normal numbers are taken
    let (cpu, _) = float_machine(0b000100, 0x0080_0000, 0xff7f_ffff);
    assert!(cpu.float_request().is_some());
}

#[test]
fn a_division_by_zero_raises_its_exception() {
    for source in [0, MINUS_ZERO] {
        let (mut cpu, _) = float_machine(0b000111, ONE, source);
        assert_eq!(cpu.float_request(), None);
        assert_eq!(cpu.reg_pc(), 0xffff_ff60);
        assert_eq!(cpu.reg_eipc(), FLOAT_INSTRUCTION);
        assert_eq!(cpu.reg_ecr(), 0xff68);
        assert_eq!(cpu.reg_psw(), 0x5080);
        assert_eq!(cpu.reg_gpr(2), ONE);

        // zero divided by zero is an invalid operation
        let (mut cpu, _) = float_machine(0b000111, MINUS_ZERO, source);
        assert_eq!(cpu.float_request(), None);
        assert_eq!(cpu.reg_pc(), 0xffff_ff60);
        assert_eq!(cpu.reg_ecr(), 0xff70);
        assert_eq!(cpu.reg_psw(), 0x5100);
    }
    // zero is divided like any number, and only a division minds a zero
    let (cpu, _) = float_machine(0b000111, 0, ONE);
    assert!(cpu.float_request().is_some());
    let (cpu, _) = float_machine(0b000110, ONE, 0);
    assert!(cpu.float_request().is_some());
}

#[test]
fn an_answer_with_an_exception_gives_no_result() {
    let cases = [
        (FloatFlags { overflow: true, ..no_float_flags() }, 0xff64u32, 0x5040u32),
        (FloatFlags { invalid_operation: true, ..no_float_flags() }, 0xff70, 0x5100),
        (FloatFlags { zero_division: true, ..no_float_flags() }, 0xff68, 0x5080),
        (FloatFlags { reserved_operand: true, overflow: true, ..no_float_flags() }, 0xff60, 0x5240),
        (
            FloatFlags { overflow: true, precision_degradation: true, ..no_float_flags() },
            0xff64,
            0x5050,
        ),
    ];
    for (flags, code, psw) in cases {
        let (mut cpu, _) = float_machine(0b000110, TWO, ONE);
        cpu.answer_float(FloatOutcome { bits: INFINITY, flags });
        assert_eq!(cpu.float_request(), None);
        assert_eq!(cpu.reg_gpr(2), TWO);
        assert_eq!(cpu.reg_pc(), 0xffff_ff60);
        assert_eq!(cpu.reg_eipc(), FLOAT_INSTRUCTION);
        assert_eq!(cpu.reg_eipsw(), psw & 0x03f0);
        assert_eq!(cpu.reg_ecr(), code);
        assert_eq!(cpu.reg_psw(), psw);
    }
}

#[test]
fn floating_point_flags_stay_until_they_are_cleared() {
    let (mut cpu, mut interconnect) = float_machine(0b000110, TWO, ONE);
    cpu.answer_float(FloatOutcome {
        bits: 0,
        flags: FloatFlags { underflow: true, precision_degradation: true, ..no_float_flags() },
    });
    // neither raises an exception
    assert_eq!(cpu.reg_pc(), FLOAT_INSTRUCTION + 4);
    assert_eq!(cpu.reg_gpr(2), 0);
    assert_eq!(cpu.reg_psw(), 0x31);
    assert_eq!(cpu.reg_ecr(), 0);
    // LDSR clears them
    cpu.step(&mut interconnect);
    assert_eq!(cpu.reg_psw(), 0);

    // a second operation adds its flags to the first's
    let mut program = vec![clear_psw()];
    program.extend(load_word(1, ONE));
    program.extend(load_word(2, TWO));
    program.push(long(Opcode::Extended, 1, 2, 0b000100 << 10));
    program.push(short(Opcode::AddImm5, 1, 4));
    program.push(long(Opcode::Extended, 1, 2, 0b000110 << 10));
    let (mut cpu, mut interconnect) = machine(&program);
    for _ in 0..6 {
        cpu.step(&mut interconnect);
    }
    cpu.answer_float(FloatOutcome {
        bits: THREE,
        flags: FloatFlags { precision_degradation: true, ..no_float_flags() },
    });
    assert_eq!(cpu.reg_psw(), 0x10);
    cpu.step(&mut interconnect);
    assert_eq!(cpu.reg_gpr(4), 1);
    assert_eq!(cpu.reg_psw(), 0x10);
    cpu.step(&mut interconnect);
    assert_eq!(cpu.float_request().unwrap().destination, THREE);
    cpu.answer_float(FloatOutcome {
        bits: MINUS_ONE,
        flags: FloatFlags { underflow: true, ..no_float_flags() },
    });
    assert_eq!(cpu.reg_psw(), 0x3a);
}

#[test]
fn the_core_reads_operands_as_bit_patterns() {
    for bits in [0, MINUS_ZERO, ONE, MINUS_ONE, 0x0080_0000, 0x7f7f_ffff, 0xff7f_ffff] {
        assert!(!reserved_operand(bits));
    }
    for bits in [1, 0x007f_ffff, 0x8000_0001, INFINITY, 0xff80_0000, NOT_A_NUMBER, 0xffff_ffff] {
        assert!(reserved_operand(bits));
    }
    for subop in [SubOp::Xb, SubOp::Xh, SubOp::Mpyhw] {
        assert!(!for_float_unit(subop));
        assert_eq!(check_operands(subop, INFINITY, 1), no_float_flags());
    }
    for subop in [SubOp::CmpfS, SubOp::CvtWs, SubOp::CvtSw, SubOp::AddfS, SubOp::SubfS,
        SubOp::MulfS, SubOp::DivfS, SubOp::TrncSw]
    {
        assert!(for_float_unit(subop));
        assert_eq!(check_operands(subop, ONE, TWO), no_float_flags());
    }
    assert_eq!(
        check_operands(SubOp::DivfS, INFINITY, 0),
        FloatFlags { reserved_operand: true, ..no_float_flags() }
    );
    assert_eq!(
        check_operands(SubOp::DivfS, TWO, 0),
        FloatFlags { zero_division: true, ..no_float_flags() }
    );
    assert_eq!(
        check_operands(SubOp::DivfS, 0, 0),
        FloatFlags { invalid_operation: true, ..no_float_flags() }
    );
    assert_eq!(exception_of(no_float_flags()), None);
    assert_eq!(
        exception_of(FloatFlags { underflow: true, precision_degradation: true, ..no_float_flags() }),
        None
    );
    assert_eq!(
        exception_of(FloatFlags {
            precision_degradation: true,
            underflow: true,
            overflow: true,
            zero_division: true,
            invalid_operation: true,
            reserved_operand: true,
        }),
        Some(0xff60)
    );
    assert_eq!(
        exception_of(FloatFlags {
            overflow: true,
            zero_division: true,
            invalid_operation: true,
            ..no_float_flags()
        }),
        Some(0xff70)
    );
    assert_eq!(
        exception_of(FloatFlags { overflow: true, zero_division: true, ..no_float_flags() }),
        Some(0xff68)
    );
    assert_eq!(exception_of(FloatFlags { overflow: true, ..no_float_flags() }), Some(0xff64));
}

#[test]
fn an_answer_is_made_of_the_outcome() {
    let flags = FloatFlags { precision_degradation: true, ..no_float_flags() };
    assert_eq!(
        answer_of(SubOp::AddfS, true, FloatOutcome { bits: THREE, flags }),
        FloatAnswer {
            result: Some(THREE),
            flags: Flags { zero: false, sign: false, overflow: false, carry: false },
            float_flags: flags,
            exception: None,
        }
    );
    assert_eq!(
        answer_of(SubOp::CmpfS, false, FloatOutcome { bits: MINUS_ONE, flags: no_float_flags() }),
        FloatAnswer {
            result: None,
            flags: Flags { zero: false, sign: true, overflow: false, carry: true },
            float_flags: no_float_flags(),
            exception: None,
        }
    );
    assert_eq!(
        answer_of(SubOp::CvtWs, true, FloatOutcome { bits: MINUS_ZERO, flags: no_float_flags() }),
        FloatAnswer {
            result: Some(MINUS_ZERO),
            flags: Flags { zero: true, sign: false, overflow: false, carry: false },
            float_flags: no_float_flags(),
            exception: None,
        }
    );
    assert_eq!(
        answer_of(SubOp::TrncSw, true, FloatOutcome { bits: MINUS_ZERO, flags: no_float_flags() }),
        FloatAnswer {
            result: Some(MINUS_ZERO),
            flags: Flags { zero: false, sign: true, overflow: false, carry: true },
            float_flags: no_float_flags(),
            exception: None,
        }
    );
    let invalid = FloatFlags { invalid_operation: true, ..no_float_flags() };
    assert_eq!(
        answer_of(SubOp::CvtSw, false, FloatOutcome { bits: 0, flags: invalid }),
        FloatAnswer {
            result: Some(0),
            flags: Flags { zero: true, sign: false, overflow: false, carry: false },
            float_flags: invalid,
            exception: Some(0xff70),
        }
    );
}

#[test]
fn a_refused_access_raises_the_address_trap() {
    for opcode in [Opcode::Ldb, Opcode::Ldh, Opcode::Ldw, Opcode::Inb, Opcode::Stb, Opcode::Sth,
        Opcode::Stw, Opcode::Outw]
    {
        let (mut cpu, mut interconnect) = machine(&[
            clear_psw(),
            long(Opcode::Movhi, 0, 1, 0x0300),
            short(Opcode::MovImm, 9, 2),
            long(opcode, 1, 2, 0),
        ]);
        cpu.step(&mut interconnect);
        cpu.step(&mut interconnect);
        cpu.step(&mut interconnect);
        assert_eq!(cpu.step(&mut interconnect), (4, false));
        assert_eq!(cpu.reg_pc(), 0xffff_ffc0);
        assert_eq!(cpu.reg_eipc(), ROM_BASE + 8);
        assert_eq!(cpu.reg_ecr(), 0xffc0);
        assert_eq!(cpu.reg_gpr(2), 9);
    }
}

#[test]
fn a_refused_fetch_raises_the_address_trap() {
    let (mut cpu, mut interconnect) = machine(&[
        clear_psw(),
        long(Opcode::Movhi, 0, 1, 0x0300),
        short(Opcode::Jmp, 1, 0),
    ]);
    cpu.step(&mut interconnect);
    cpu.step(&mut interconnect);
    cpu.step(&mut interconnect);
    assert_eq!(cpu.reg_pc(), 0x0300_0000);
    assert_eq!(cpu.step(&mut interconnect), (1, false));
    assert_eq!(cpu.reg_pc(), 0xffff_ffc0);
    assert_eq!(cpu.reg_eipc(), 0x0300_0000);
}

#[test]
fn halt_stops_the_cpu_until_an_interrupt_is_accepted() {
    let (mut cpu, mut interconnect) = machine(&[clear_psw(), short(Opcode::Halt, 0, 0)]);
    cpu.step(&mut interconnect);
    assert_eq!(cpu.step(&mut interconnect), (1, false));
    assert!(cpu.is_halted());
    let pc = cpu.reg_pc();
    assert_eq!(pc, ROM_BASE + 4);
    for _ in 0..5 {
        assert_eq!(cpu.step(&mut interconnect), (1, false));
        assert!(cpu.is_halted());
        assert_eq!(cpu.reg_pc(), pc);
    }
    cpu.request_interrupt(0xfe10);
    assert!(!cpu.is_halted());
    assert_eq!(cpu.reg_pc(), 0xffff_fe10);
    assert_eq!(cpu.reg_eipc(), pc);
}

#[test]
fn an_accepted_interrupt_enters_its_handler() {
    let (mut cpu, mut interconnect) = machine(&[
        clear_psw(),
        short(Opcode::CmpImm, 0, 0),
        short(Opcode::MovImm, 1, 1),
    ]);
    cpu.step(&mut interconnect);
    cpu.step(&mut interconnect);
    cpu.request_interrupt(0xfe40);
    assert_eq!(cpu.reg_pc(), 0xffff_fe40);
    assert_eq!(cpu.reg_eipc(), ROM_BASE + 4);
    // the zero flag of the comparison is saved
    assert_eq!(cpu.reg_eipsw(), 0x0000_0001);
    assert_eq!(cpu.reg_ecr(), 0xfe40);
    // zero, EP and ID
    assert_eq!(cpu.reg_psw(), 0x0000_5001);
}

#[test]
fn a_masked_interrupt_is_kept_pending_until_it_can_be_accepted() {
    // after the reset NP is set: nothing is accepted
    let (mut cpu, mut interconnect) = machine(&[
        short(Opcode::MovImm, 1, 1),
        clear_psw(),
        short(Opcode::MovImm, 2, 2),
    ]);
    cpu.request_interrupt(0xfe10);
    assert_eq!(cpu.reg_pc(), ROM_BASE);
    cpu.step(&mut interconnect);
    assert_eq!(cpu.reg_gpr(1), 1);
    // the status word is cleared: the next step accepts the interrupt first
    cpu.step(&mut interconnect);
    assert_eq!(cpu.reg_pc(), ROM_BASE + 4);
    cpu.step(&mut interconnect);
    assert_eq!(cpu.reg_eipc(), ROM_BASE + 4);
    assert_eq!(cpu.reg_ecr(), 0xfe10);
    assert_eq!(cpu.reg_gpr(2), 0);
}

#[test]
fn interrupts_are_masked_by_id_and_by_the_level() {
    let (mut cpu, mut interconnect) = machine(&[clear_psw(), short(Opcode::Sei, 0, 0)]);
    cpu.step(&mut interconnect);
    cpu.step(&mut interconnect);
    let pc = cpu.reg_pc();
    cpu.request_interrupt(0xfe40);
    assert_eq!(cpu.reg_pc(), pc);

    // mask level 2: level 1 is refused, level 4 accepted
    let (mut cpu, mut interconnect) = machine(&[
        long(Opcode::Movhi, 0, 1, 0x0002),
        short(Opcode::Ldsr, 5, 1),
    ]);
    cpu.step(&mut interconnect);
    cpu.step(&mut interconnect);
    let pc = cpu.reg_pc();
    cpu.request_interrupt(0xfe10);
    assert_eq!(cpu.reg_pc(), pc);
    cpu.request_interrupt(0xfe40);
    assert_eq!(cpu.reg_pc(), 0xffff_fe40);
    assert_eq!(cpu.reg_eipc(), pc);
}

#[test]
fn reti_returns_from_the_handler() {
    // EIPC and EIPSW as an interrupt at ROM_BASE + 0x20 would have left them
    let (mut cpu, _) = run(&[
        long(Opcode::Movhi, 0, 1, 0x0700),
        long(Opcode::Movea, 1, 1, 0x0021),
        short(Opcode::Ldsr, 0, 1),
        short(Opcode::MovImm, 0x0b, 2),
        short(Opcode::Ldsr, 1, 2),
        long(Opcode::Movea, 0, 3, 0x5000),
        short(Opcode::Ldsr, 5, 3),
        short(Opcode::Reti, 0, 0),
    ]);
    assert_eq!(cpu.reg_pc(), 0x0700_0020);
    assert_eq!(cpu.reg_psw(), 0x0000_000b);
}

#[test]
fn reti_with_np_set_returns_through_fepc() {
    let (mut cpu, _) = run(&[
        long(Opcode::Movhi, 0, 1, 0x0700),
        long(Opcode::Movea, 1, 1, 0x0040),
        short(Opcode::Ldsr, 2, 1),
        short(Opcode::MovImm, 0x02, 2),
        short(Opcode::Ldsr, 3, 2),
        short(Opcode::Reti, 0, 0),
    ]);
    assert_eq!(cpu.reg_pc(), 0x0700_0040);
    assert_eq!(cpu.reg_psw(), 0x0000_0002);
}

#[test]
fn watchpoints() {
    let (mut cpu, mut interconnect) = machine(&[
        long(Opcode::Movhi, 0, 1, 0x0500),
        long(Opcode::Stw, 1, 2, 0x10),
        long(Opcode::Ldw, 1, 2, 0x14),
        long(Opcode::Ldb, 1, 2, 0x10),
        long(Opcode::Movea, 1, 3, 0x10),
        long(Opcode::Ldb, 1, 2, 0x10),
    ]);
    assert!(!cpu.has_watchpoint(0x0500_0010));
    cpu.add_watchpoint(0x0500_0010);
    cpu.add_watchpoint(0x0500_0010);
    cpu.add_watchpoint(0x0500_0020);
    assert!(cpu.has_watchpoint(0x0500_0010));
    assert!(cpu.has_watchpoint(0x0500_0020));
    assert_eq!(cpu.step(&mut interconnect), (1, false));
    assert_eq!(cpu.step(&mut interconnect), (4, true));
    assert_eq!(cpu.step(&mut interconnect), (4, false));
    assert_eq!(cpu.step(&mut interconnect), (4, true));
    // only loads and stores hit
    assert_eq!(cpu.step(&mut interconnect), (1, false));
    assert!(cpu.remove_watchpoint(0x0500_0010));
    assert!(!cpu.remove_watchpoint(0x0500_0010));
    assert!(!cpu.has_watchpoint(0x0500_0010));
    assert!(cpu.has_watchpoint(0x0500_0020));
    assert_eq!(cpu.step(&mut interconnect), (4, false));
    // a reset keeps the watchpoints
    cpu.reset();
    assert!(cpu.has_watchpoint(0x0500_0020));
}

#[test]
fn a_saved_state_comes_back() {
    let (mut cpu, mut interconnect) = machine(&[
        clear_psw(),
        long(Opcode::Movhi, 0, 1, 0x1234),
        long(Opcode::Movea, 1, 2, 0x8000),
        short(Opcode::CmpReg, 2, 1),
        short(Opcode::Sei, 0, 0),
        short(Opcode::Div, 0, 3),
        short(Opcode::Halt, 0, 0),
    ]);
    for _ in 0..6 {
        cpu.step(&mut interconnect);
    }
    cpu.request_interrupt(0xfe40);
    cpu.add_watchpoint(0x0500_0000);
    let saved = cpu.save_state();
    assert_eq!(saved.len(), 244);

    let mut other = Nvc::new();
    other.add_watchpoint(0x0600_0000);
    assert!(other.restore_state(&saved));
    assert_eq!(other.reg_pc(), cpu.reg_pc());
    assert_eq!(other.reg_pc(), 0xffff_ff80);
    assert_eq!(other.reg_psw(), cpu.reg_psw());
    assert_eq!(other.reg_eipc(), cpu.reg_eipc());
    assert_eq!(other.reg_eipsw(), cpu.reg_eipsw());
    assert_eq!(other.reg_ecr(), cpu.reg_ecr());
    assert_eq!(other.is_halted(), cpu.is_halted());
    for index in 0..32 {
        assert_eq!(other.reg_gpr(index), cpu.reg_gpr(index));
    }
    assert_eq!(other.reg_gpr(1), 0x1234_0000);
    // the watchpoints are not kept
    assert!(other.has_watchpoint(0x0600_0000));
    assert!(!other.has_watchpoint(0x0500_0000));
    assert_eq!(other.save_state(), saved);

    // both go on alike: the pending interrupt waits for RETI
    let mut other_interconnect = machine(&[]).1;
    for _ in 0..3 {
        assert_eq!(cpu.step(&mut interconnect), other.step(&mut other_interconnect));
        assert_eq!(cpu.reg_pc(), other.reg_pc());
    }
}

#[test]
fn a_halted_state_and_a_pending_interrupt_are_saved() {
    let (mut cpu, mut interconnect) = machine(&[short(Opcode::Halt, 0, 0)]);
    cpu.step(&mut interconnect);
    cpu.request_interrupt(0xfe10);
    assert!(cpu.is_halted());
    let saved = cpu.save_state();
    // halted, and the vector with bit 16 set
    assert_eq!(&saved[216..220], &[1, 0, 0, 0]);
    assert_eq!(&saved[220..224], &[0x10, 0xfe, 0x01, 0x00]);
    // the program counter, lowest byte first
    assert_eq!(&saved[128..132], &[0x02, 0xf8, 0xff, 0xff]);
    // NP is flag 13
    assert_eq!(&saved[156 + 13 * 4..156 + 14 * 4], &[1, 0, 0, 0]);
    let mut other = Nvc::new();
    assert!(other.restore_state(&saved));
    assert!(other.is_halted());
    assert_eq!(other.save_state(), saved);
}

#[test]
fn a_waiting_instruction_is_saved() {
    let (mut cpu, mut interconnect) = float_machine(0b000111, THREE, TWO);
    let saved = cpu.save_state();
    assert_eq!(saved.len(), 244);
    assert_eq!(&saved[224..228], &[1, 0, 0, 0]);
    assert_eq!(&saved[228..232], &[0b000111, 0, 0, 0]);
    assert_eq!(&saved[232..236], &[2, 0, 0, 0]);
    assert_eq!(&saved[236..240], &[0x00, 0x00, 0x40, 0x40]);
    assert_eq!(&saved[240..244], &[0x00, 0x00, 0x00, 0x40]);
    let mut other = Nvc::new();
    assert_eq!(&other.save_state()[224..244], &[0u8; 20]);
    assert!(other.restore_state(&saved));
    assert_eq!(
        other.float_request(),
        Some(FloatRequest { subop: SubOp::DivfS, reg2: 2, destination: THREE, source: TWO })
    );
    assert_eq!(other.save_state(), saved);
    // both take the answer alike
    let outcome = FloatOutcome { bits: 0x3fc0_0000, flags: no_float_flags() };
    cpu.answer_float(outcome);
    other.answer_float(outcome);
    assert_eq!(other.reg_gpr(2), 0x3fc0_0000);
    assert_eq!(other.save_state(), cpu.save_state());
    assert_eq!(&cpu.save_state()[224..244], &[0u8; 20]);
    assert_eq!(cpu.step(&mut interconnect), (1, false));
    // a waiting instruction with the same registers, but another operation
    let mut bytes = saved.clone();
    bytes[228] = 0b001011;
    bytes[232] = 31;
    assert!(other.restore_state(&bytes));
    assert_eq!(
        other.float_request(),
        Some(FloatRequest { subop: SubOp::TrncSw, reg2: 31, destination: THREE, source: TWO })
    );
    // a reset forgets it
    other.reset();
    assert_eq!(other.float_request(), None);
}

#[test]
fn bytes_that_are_no_state_are_refused() {
    let good = Nvc::new().save_state();
    let mut cpu = Nvc::new();
    cpu.add_watchpoint(1);
    let before = cpu.save_state();

    let mut refused = Vec::new();
    refused.push(good[..243].to_vec());
    refused.push(good[..224].to_vec());
    refused.push([good.clone(), vec![0]].concat());
    refused.push(Vec::new());
    // r0 not 0
    let mut bytes = good.clone();
    bytes[0] = 1;
    refused.push(bytes);
    // an odd program counter
    let mut bytes = good.clone();
    bytes[128] |= 1;
    refused.push(bytes);
    // a flag that is neither 0 nor 1
    let mut bytes = good.clone();
    bytes[156] = 2;
    refused.push(bytes);
    let mut bytes = good.clone();
    bytes[156 + 13 * 4 + 3] = 0x80;
    refused.push(bytes);
    // a mask level above 15
    let mut bytes = good.clone();
    bytes[212] = 16;
    refused.push(bytes);
    // halted neither 0 nor 1
    let mut bytes = good.clone();
    bytes[216] = 2;
    refused.push(bytes);
    // a pending word without its flag, or beyond it
    let mut bytes = good.clone();
    bytes[220] = 1;
    refused.push(bytes);
    let mut bytes = good.clone();
    bytes[222] = 2;
    refused.push(bytes);
    // whether an instruction waits, neither 0 nor 1
    let mut bytes = good.clone();
    bytes[224] = 2;
    refused.push(bytes);
    // a waiting instruction that is none for the float unit, or none at all
    for subop in [0b001000u8, 0b001001, 0b001100, 0b000001, 0b111111] {
        let mut bytes = good.clone();
        bytes[224] = 1;
        bytes[228] = subop;
        refused.push(bytes);
    }
    let mut bytes = good.clone();
    bytes[224] = 1;
    bytes[229] = 1;
    refused.push(bytes);
    // a waiting instruction without a register
    let mut bytes = good.clone();
    bytes[224] = 1;
    bytes[232] = 32;
    refused.push(bytes);

    for bytes in refused {
        assert!(!cpu.restore_state(&bytes));
        assert_eq!(cpu.save_state(), before);
        assert!(cpu.has_watchpoint(1));
    }
    assert!(cpu.restore_state(&good));
}
