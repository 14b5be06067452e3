use std::collections::HashSet;

use rustual_boy::emulator::{
    anaglyph, audio_frames_to_render, cycles_to_run, is_breakpoint, run_batch,
};
use rustual_boy::instruction::{Opcode, SubOp};
use rustual_boy::nvc::float::{FloatOutcome, FloatRequest};
use rustual_boy::nvc::psw::FloatFlags;
use rustual_boy::rom::Rom;
use rustual_boy::sinks::{AudioFrame, Recorded, VecSink, VideoFrame};
use rustual_boy::sram::Sram;
use rustual_boy::virtual_boy::VirtualBoy;

fn console(program: &[u16]) -> VirtualBoy {
    let mut bytes = vec![0u8; 1024];
    let reset = [Opcode::Jr.encode(0x03ff), 0xfc10];
    for (i, halfword) in reset.iter().enumerate() {
        bytes[0x3f0 + 2 * i] = *halfword as u8;
        bytes[0x3f1 + 2 * i] = (*halfword >> 8) as u8;
    }
    for (i, halfword) in program.iter().enumerate() {
        bytes[2 * i] = *halfword as u8;
        bytes[2 * i + 1] = (*halfword >> 8) as u8;
    }
    VirtualBoy::new(Rom::new(bytes).unwrap(), Sram::new())
}

fn reg(opcode: Opcode, reg1: u16, reg2: u16) -> u16 {
    opcode.encode((reg2 << 5) | reg1)
}

#[test]
fn room_in_the_audio_ring_buffer() {
    assert_eq!(audio_frames_to_render(0, 0, 1000), 0);
    assert_eq!(audio_frames_to_render(500, 200, 1000), 300);
    assert_eq!(audio_frames_to_render(200, 500, 1000), 700);
    assert_eq!(audio_frames_to_render(0, 1000, 1000), 0);
    assert_eq!(audio_frames_to_render(1000, 0, 1000), 1000);
    assert_eq!(audio_frames_to_render(999, 1000, 1000), 999);
}

#[test]
fn cycles_for_audio_frames() {
    assert_eq!(cycles_to_run(0), 0);
    assert_eq!(cycles_to_run(99), 0);
    assert_eq!(cycles_to_run(100), 47_900);
    assert_eq!(cycles_to_run(1000), 479_000);
    assert_eq!(cycles_to_run(usize::MAX), usize::MAX);
    assert_eq!(cycles_to_run(usize::MAX / 479), usize::MAX / 479 * 479);
    assert_eq!(cycles_to_run(usize::MAX / 479 + 1), usize::MAX);
}

#[test]
fn anaglyph_pixels() {
    let left = vec![0x00, 0xff, 0x12, 0x00];
    let right = vec![0x00, 0xff, 0x34, 0x80];
    assert_eq!(anaglyph(&left, &right), vec![0x0000_0000, 0x00ff_ffff, 0x0034_1212, 0x0080_0000]);
    assert_eq!(anaglyph(&Vec::new(), &Vec::new()), Vec::<u32>::new());
}

#[test]
fn breakpoints() {
    let breakpoints = HashSet::from([0x0700_0000u32, 0xffff_fff0]);
    assert!(is_breakpoint(&breakpoints, 0x0700_0000));
    assert!(is_breakpoint(&breakpoints, 0xffff_fff0));
    assert!(!is_breakpoint(&breakpoints, 0x0700_0002));
    assert!(!is_breakpoint(&HashSet::new(), 0));
}

#[test]
fn a_batch_runs_at_least_the_cycles_asked_for() {
    let mut console = console(&[reg(Opcode::Br, 0, 0)]);
    let mut video = Recorded::new(VecSink::<VideoFrame>::new());
    let mut audio = Recorded::new(VecSink::<AudioFrame>::new());
    // the jump of the reset vector takes 3 cycles, every branch after it 3
    assert!(!run_batch(&mut console, 1, &HashSet::new(), &mut video, &mut audio).start_debugger);
    assert_eq!(console.cpu.reg_pc(), 0xffff_fc00);
    assert!(!run_batch(&mut console, 476, &HashSet::new(), &mut video, &mut audio).start_debugger);
    // 159 branches are 477 cycles: 480 in all
    assert_eq!(audio.sink().len(), 1);
    assert!(!run_batch(&mut console, 0, &HashSet::new(), &mut video, &mut audio).start_debugger);
    assert_eq!(audio.sink().len(), 1);
    assert!(!run_batch(&mut console, 479 * 100, &HashSet::new(), &mut video, &mut audio).start_debugger);
    assert_eq!(audio.sink().len(), 101);
}

#[test]
fn a_batch_stops_at_a_breakpoint() {
    let program = [
        reg(Opcode::MovImm, 1, 1),
        reg(Opcode::MovImm, 2, 2),
        reg(Opcode::MovImm, 3, 3),
        reg(Opcode::MovImm, 4, 4),
    ];
    let mut console = console(&program);
    let mut video = Recorded::new(VecSink::<VideoFrame>::new());
    let mut audio = Recorded::new(VecSink::<AudioFrame>::new());
    let breakpoints = HashSet::from([0xffff_fc04u32]);
    let end = run_batch(&mut console, 1000, &breakpoints, &mut video, &mut audio);
    assert!(end.start_debugger);
    // the jump of the reset vector took 3 cycles, the two instructions 1 each
    assert_eq!(end.cycles_left, 995);
    assert_eq!(console.cpu.reg_pc(), 0xffff_fc04);
    assert_eq!(console.cpu.reg_gpr(2), 2);
    assert_eq!(console.cpu.reg_gpr(3), 0);
    // the batch that follows starts with a step
    assert!(!run_batch(&mut console, 2, &breakpoints, &mut video, &mut audio).start_debugger);
    assert_eq!(console.cpu.reg_gpr(3), 3);
    assert_eq!(console.cpu.reg_gpr(4), 4);
}

#[test]
fn a_batch_stops_for_the_float_unit() {
    let program = [
        reg(Opcode::MovImm, 1, 3),
        reg(Opcode::Extended, 1, 2),
        0b000100 << 10,
        reg(Opcode::MovImm, 2, 4),
        reg(Opcode::Extended, 1, 2),
        0b000110 << 10,
    ];
    let mut console = console(&program);
    let mut video = Recorded::new(VecSink::<VideoFrame>::new());
    let mut audio = Recorded::new(VecSink::<AudioFrame>::new());
    let no_flags = FloatFlags {
        precision_degradation: false,
        underflow: false,
        overflow: false,
        zero_division: false,
        invalid_operation: false,
        reserved_operand: false,
    };
    let end = run_batch(&mut console, 1000, &HashSet::new(), &mut video, &mut audio);
    assert!(!end.start_debugger);
    assert_eq!(end.cycles_left, 995);
    assert_eq!(
        console.cpu.float_request(),
        Some(FloatRequest { subop: SubOp::AddfS, reg2: 2, destination: 0, source: 0 })
    );
    assert_eq!(console.cpu.reg_gpr(3), 1);
    assert_eq!(console.cpu.reg_gpr(4), 0);
    console.cpu.answer_float(FloatOutcome { bits: 0x3f80_0000, flags: no_flags });
    assert_eq!(console.cpu.reg_gpr(2), 0x3f80_0000);

    // the cycles that are left go on; at the breakpoint both are wanted
    let breakpoints = HashSet::from([0xffff_fc0cu32]);
    let end = run_batch(&mut console, end.cycles_left, &breakpoints, &mut video, &mut audio);
    assert!(end.start_debugger);
    assert_eq!(end.cycles_left, 993);
    assert_eq!(console.cpu.reg_gpr(4), 2);
    assert_eq!(
        console.cpu.float_request(),
        Some(FloatRequest { subop: SubOp::MulfS, reg2: 2, destination: 0x3f80_0000, source: 0 })
    );
    console.cpu.answer_float(FloatOutcome { bits: 0, flags: no_flags });
    assert_eq!(console.cpu.reg_gpr(2), 0);
    assert_eq!(console.cpu.reg_pc(), 0xffff_fc0c);

    // a batch that ends with its last cycle leaves none
    let mut console = self::console(&program);
    let end = run_batch(&mut console, 5, &HashSet::new(), &mut video, &mut audio);
    assert!(!end.start_debugger);
    assert_eq!(end.cycles_left, 0);
    assert!(console.cpu.float_request().is_some());
    let end = run_batch(&mut console, 3, &HashSet::new(), &mut video, &mut audio);
    assert_eq!(end.cycles_left, 0);
    // nobody answered: the instruction was refused, which is fatal while NP
    // is still set after the reset
    assert_eq!(console.cpu.float_request(), None);
    assert!(console.cpu.is_halted());
    assert_eq!(console.cpu.reg_pc(), 0xffff_fc02);
}

#[test]
fn a_batch_stops_at_a_watchpoint() {
    let program = [
        reg(Opcode::Movhi, 0, 1), 0x0500,
        reg(Opcode::Stw, 1, 2), 0x0040,
        reg(Opcode::MovImm, 3, 3),
    ];
    let mut console = console(&program);
    console.cpu.add_watchpoint(0x0500_0040);
    let mut video = Recorded::new(VecSink::<VideoFrame>::new());
    let mut audio = Recorded::new(VecSink::<AudioFrame>::new());
    assert!(run_batch(&mut console, 1000, &HashSet::new(), &mut video, &mut audio).start_debugger);
    assert_eq!(console.cpu.reg_pc(), 0xffff_fc08);
    assert_eq!(console.cpu.reg_gpr(3), 0);
}
