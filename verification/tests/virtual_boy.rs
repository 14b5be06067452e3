use rustual_boy::instruction::Opcode;
use rustual_boy::rom::Rom;
use rustual_boy::sinks::{AudioFrame, Recorded, VecSink, VideoFrame};
use rustual_boy::sram::Sram;
use rustual_boy::virtual_boy::VirtualBoy;

fn console(program: &[u16]) -> VirtualBoy {
    let mut bytes = vec![0u8; 1024];
    // the reset vector jumps to the start of the ROM
    let reset = [Opcode::Jr.encode(0x03ff), 0xfc10];
    for (i, halfword) in reset.iter().enumerate() {
        bytes[0x3f0 + 2 * i] = *halfword as u8;
        bytes[0x3f1 + 2 * i] = (*halfword >> 8) as u8;
    }
    for (i, halfword) in program.iter().enumerate() {
        bytes[2 * i] = *halfword as u8;
        bytes[2 * i + 1] = (*halfword >> 8) as u8;
    }
    VirtualBoy::new(Rom::new(bytes).unwrap(), Sram::new())
}

fn reg(opcode: Opcode, reg1: u16, reg2: u16) -> u16 {
    opcode.encode((reg2 << 5) | reg1)
}

#[test]
fn a_step_advances_everything_by_the_cycles_of_the_instruction() {
    let mut console = console(&[reg(Opcode::Mul, 1, 2), reg(Opcode::MovImm, 1, 1)]);
    let mut video = Recorded::new(VecSink::<VideoFrame>::new());
    let mut audio = Recorded::new(VecSink::<AudioFrame>::new());
    assert_eq!(console.step(&mut video, &mut audio), (3, false));
    assert_eq!(console.cpu.reg_pc(), 0xffff_fc00);
    assert_eq!(console.step(&mut video, &mut audio), (13, false));
    assert_eq!(console.step(&mut video, &mut audio), (1, false));
    // 17 cycles so far: 462 more to the first audio frame
    let mut cycles = 17;
    while audio.sink().len() == 0 {
        cycles += console.step(&mut video, &mut audio).0;
    }
    assert_eq!(cycles, 479);
}

#[test]
fn a_halted_console_still_produces_frames() {
    let mut console = console(&[reg(Opcode::Halt, 0, 0)]);
    let mut video = Recorded::new(VecSink::<VideoFrame>::new());
    let mut audio = Recorded::new(VecSink::<AudioFrame>::new());
    console.step(&mut video, &mut audio);
    console.step(&mut video, &mut audio);
    assert!(console.cpu.is_halted());
    let mut cycles = 4;
    while cycles < 400_000 {
        cycles += console.step(&mut video, &mut audio).0;
    }
    assert_eq!(video.sink().len(), 1);
    assert_eq!(audio.sink().len(), 400_000 / 479);
    assert!(console.cpu.is_halted());
}

#[test]
fn the_timer_interrupt_reaches_the_cpu() {
    // r1 = 0x02000000; timer reload 1; control 0x19; psw = 0; halt
    let program = [
        reg(Opcode::Movhi, 0, 1), 0x0200,
        reg(Opcode::MovImm, 1, 2),
        reg(Opcode::Stb, 1, 2), 0x0018,
        reg(Opcode::Movea, 0, 3), 0x0019,
        reg(Opcode::Stb, 1, 3), 0x0020,
        reg(Opcode::Ldsr, 5, 0),
        reg(Opcode::Halt, 0, 0),
    ];
    let mut console = console(&program);
    let mut video = Recorded::new(VecSink::<VideoFrame>::new());
    let mut audio = Recorded::new(VecSink::<AudioFrame>::new());
    for _ in 0..8 {
        console.step(&mut video, &mut audio);
    }
    assert!(console.cpu.is_halted());
    let halted_at = console.cpu.reg_pc();
    let mut steps = 0;
    while console.cpu.is_halted() {
        console.step(&mut video, &mut audio);
        steps += 1;
        assert!(steps < 1000);
    }
    // the CPU sees the interrupt after the step in which it was raised
    assert_eq!(console.cpu.reg_pc(), 0xffff_fe10);
    assert_eq!(console.cpu.reg_eipc(), halted_at);
    assert_eq!(console.cpu.reg_ecr(), 0xfe10);
    assert_eq!(console.interconnect.read_byte(0x0200_0018), Ok(1));
    assert_eq!(console.interconnect.read_byte(0x0200_0020), Ok(0x1b));
}

#[test]
fn an_interrupt_that_cannot_be_accepted_waits_for_the_status_word() {
    // the start-of-frame interrupt is enabled while NP is still set
    let program = [
        reg(Opcode::Movea, 0, 2), 0x0010,
        reg(Opcode::Movhi, 0, 1), 0x0006,
        reg(Opcode::Sth, 1, 2), 0xf802,
        reg(Opcode::Br, 0, 0),
    ];
    let mut console = console(&program);
    let mut video = Recorded::new(VecSink::<VideoFrame>::new());
    let mut audio = Recorded::new(VecSink::<AudioFrame>::new());
    let mut cycles = 0;
    while cycles < 400_010 {
        cycles += console.step(&mut video, &mut audio).0;
    }
    assert_eq!(console.interconnect.read_halfword(0x0005_f802), Ok(0x0010));
    assert_eq!(console.interconnect.read_halfword(0x0005_f800), Ok(0x401e));
    // still in the loop: the interrupt is pending, not accepted
    assert_eq!(console.cpu.reg_pc(), 0xffff_fc0c);
    assert_eq!(console.cpu.reg_ecr(), 0);
}

#[test]
fn a_new_console_is_at_power_on() {
    let mut sram = vec![0u8; 8192];
    sram[3] = 0x5a;
    let mut console = VirtualBoy::new(Rom::new(vec![0x11u8; 2048]).unwrap(), Sram::from_bytes(sram).unwrap());
    // the CPU after a reset
    assert_eq!(console.cpu.reg_pc(), 0xffff_fff0);
    assert_eq!(console.cpu.reg_psw(), 0x8000);
    assert!(!console.cpu.is_halted());
    assert_eq!(console.cpu.float_request(), None);
    assert!(!console.cpu.has_watchpoint(0x0500_0000));
    // the cartridge as it was put in
    assert_eq!(console.interconnect.read_byte(0x0700_0000), Ok(0x11));
    assert_eq!(console.interconnect.read_byte(0x0600_0003), Ok(0x5a));
    // work RAM all ones
    assert_eq!(console.interconnect.read_word(0x0500_0000), Ok(0xffff_ffff));
    assert_eq!(console.interconnect.read_byte(0x0500_ffff), Ok(0xff));
    // the timer stopped, with nothing to count
    assert_eq!(console.interconnect.read_byte(0x0200_0018), Ok(0));
    assert_eq!(console.interconnect.read_byte(0x0200_001c), Ok(0));
    assert_eq!(console.interconnect.read_byte(0x0200_0020), Ok(0));
    // no button latched, the link port idle
    assert_eq!(console.interconnect.read_byte(0x0200_0010), Ok(0));
    assert_eq!(console.interconnect.read_byte(0x0200_0014), Ok(0));
    assert_eq!(console.interconnect.read_byte(0x0200_0000), Ok(0));
    // no interrupt pending or enabled in the video processor
    assert_eq!(console.interconnect.read_halfword(0x0005_f800), Ok(0));
    assert_eq!(console.interconnect.read_halfword(0x0005_f802), Ok(0));
}
