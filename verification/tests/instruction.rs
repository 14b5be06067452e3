use rustual_boy::instruction::{
    Condition, DecodeError, InstructionFormat, Opcode, SubOp, SystemRegister,
};

const ALL_OPCODES: [Opcode; 66] = [
    Opcode::MovReg, Opcode::AddReg, Opcode::Sub, Opcode::CmpReg, Opcode::ShlReg, Opcode::ShrReg,
    Opcode::Jmp, Opcode::SarReg, Opcode::Mul, Opcode::Div, Opcode::MulU, Opcode::DivU,
    Opcode::Or, Opcode::And, Opcode::Xor, Opcode::Not, Opcode::MovImm, Opcode::AddImm5,
    Opcode::Setf, Opcode::CmpImm, Opcode::ShlImm, Opcode::ShrImm, Opcode::Cli, Opcode::SarImm,
    Opcode::Reti, Opcode::Halt, Opcode::Ldsr, Opcode::Stsr, Opcode::Sei, Opcode::Bv, Opcode::Bc,
    Opcode::Bz, Opcode::Bnh, Opcode::Bn, Opcode::Br, Opcode::Blt, Opcode::Ble, Opcode::Bnv,
    Opcode::Bnc, Opcode::Bnz, Opcode::Bh, Opcode::Bp, Opcode::Nop, Opcode::Bge, Opcode::Bgt,
    Opcode::Movea, Opcode::AddImm16, Opcode::Jr, Opcode::Jal, Opcode::OrI, Opcode::AndI,
    Opcode::XorI, Opcode::Movhi, Opcode::Ldb, Opcode::Ldh, Opcode::Ldw, Opcode::Stb, Opcode::Sth,
    Opcode::Stw, Opcode::Inb, Opcode::Inh, Opcode::Inw, Opcode::Outb, Opcode::Outh,
    Opcode::Extended, Opcode::Outw,
];

#[test]
fn decodes_register_instructions() {
    assert_eq!(Opcode::from_halfword(0x0000), Ok(Opcode::MovReg));
    assert_eq!(Opcode::from_halfword(0x0400), Ok(Opcode::AddReg));
    assert_eq!(Opcode::from_halfword(0x0800), Ok(Opcode::Sub));
    assert_eq!(Opcode::from_halfword(0x0c00), Ok(Opcode::CmpReg));
    assert_eq!(Opcode::from_halfword(0x1800), Ok(Opcode::Jmp));
    assert_eq!(Opcode::from_halfword(0x2000), Ok(Opcode::Mul));
    assert_eq!(Opcode::from_halfword(0x2400), Ok(Opcode::Div));
    assert_eq!(Opcode::from_halfword(0x3c00), Ok(Opcode::Not));
    // the operand bits do not matter
    assert_eq!(Opcode::from_halfword(0x03ff), Ok(Opcode::MovReg));
    assert_eq!(Opcode::from_halfword(0x27ff), Ok(Opcode::Div));
}

#[test]
fn decodes_immediate_and_memory_instructions() {
    assert_eq!(Opcode::from_halfword(0x4000), Ok(Opcode::MovImm));
    assert_eq!(Opcode::from_halfword(0x4025), Ok(Opcode::MovImm));
    assert_eq!(Opcode::from_halfword(0x6400), Ok(Opcode::Reti));
    assert_eq!(Opcode::from_halfword(0x6800), Ok(Opcode::Halt));
    assert_eq!(Opcode::from_halfword(0x7000), Ok(Opcode::Ldsr));
    assert_eq!(Opcode::from_halfword(0x7400), Ok(Opcode::Stsr));
    assert_eq!(Opcode::from_halfword(0xa000), Ok(Opcode::Movea));
    assert_eq!(Opcode::from_halfword(0xa400), Ok(Opcode::AddImm16));
    assert_eq!(Opcode::from_halfword(0xa800), Ok(Opcode::Jr));
    assert_eq!(Opcode::from_halfword(0xac00), Ok(Opcode::Jal));
    assert_eq!(Opcode::from_halfword(0xbc00), Ok(Opcode::Movhi));
    assert_eq!(Opcode::from_halfword(0xc000), Ok(Opcode::Ldb));
    assert_eq!(Opcode::from_halfword(0xc400), Ok(Opcode::Ldh));
    assert_eq!(Opcode::from_halfword(0xcc00), Ok(Opcode::Ldw));
    assert_eq!(Opcode::from_halfword(0xd400), Ok(Opcode::Sth));
    assert_eq!(Opcode::from_halfword(0xf800), Ok(Opcode::Extended));
    assert_eq!(Opcode::from_halfword(0xfc00), Ok(Opcode::Outw));
}

#[test]
fn decodes_conditional_branches_by_their_condition() {
    assert_eq!(Opcode::from_halfword(0x8000), Ok(Opcode::Bv));
    assert_eq!(Opcode::from_halfword(0x8200), Ok(Opcode::Bc));
    assert_eq!(Opcode::from_halfword(0x8400), Ok(Opcode::Bz));
    assert_eq!(Opcode::from_halfword(0x8a00), Ok(Opcode::Br));
    assert_eq!(Opcode::from_halfword(0x9400), Ok(Opcode::Bnz));
    assert_eq!(Opcode::from_halfword(0x9a00), Ok(Opcode::Nop));
    assert_eq!(Opcode::from_halfword(0x9e00), Ok(Opcode::Bgt));
    // the displacement does not matter
    assert_eq!(Opcode::from_halfword(0x85fe), Ok(Opcode::Bz));
    assert_eq!(Opcode::from_halfword(0x9fff), Ok(Opcode::Bgt));
}

#[test]
fn rejects_halfwords_that_name_no_instruction() {
    for bits in [0b011000u16, 0b011011, 0b011111, 0b110010, 0b110110, 0b111010] {
        assert_eq!(Opcode::from_halfword(bits << 10), Err(DecodeError::InvalidOpcode));
        assert_eq!(Opcode::from_halfword((bits << 10) | 0x03ff), Err(DecodeError::InvalidOpcode));
    }
}

#[test]
fn every_halfword_decodes_or_is_rejected_by_its_top_bits_alone() {
    for high in 0u16..64 {
        let first = Opcode::from_halfword(high << 10);
        for low in [0x0001u16, 0x0155, 0x03ff] {
            let other = Opcode::from_halfword((high << 10) | low);
            if high >> 3 == 0b100 {
                // a branch: bit 9 belongs to the condition
                assert!(other.is_ok());
            } else {
                assert_eq!(first, other);
            }
        }
    }
}

#[test]
fn encode_then_decode_is_the_identity_for_every_opcode() {
    for opcode in ALL_OPCODES {
        for operands in [0x0000u16, 0x0001, 0x00aa, 0x0155, 0x01ff, 0x03ff, 0xffff] {
            let halfword = opcode.encode(operands);
            assert_eq!(Opcode::from_halfword(halfword), Ok(opcode));
            let kept = match opcode.instruction_format() {
                InstructionFormat::III => 0x01ff,
                _ => 0x03ff,
            };
            assert_eq!(halfword & kept, operands & kept);
        }
    }
}

#[test]
fn encode_gives_the_documented_halfwords() {
    assert_eq!(Opcode::MovReg.encode(0), 0x0000);
    assert_eq!(Opcode::MovImm.encode((1 << 5) | 5), 0x4025);
    assert_eq!(Opcode::AddImm16.encode((2 << 5) | 1), 0xa441);
    assert_eq!(Opcode::Bz.encode(0x1fe), 0x85fe);
    assert_eq!(Opcode::Outw.encode(0x3ff), 0xffff);
}

#[test]
fn instruction_formats() {
    assert_eq!(Opcode::MovReg.instruction_format(), InstructionFormat::I);
    assert_eq!(Opcode::Not.instruction_format(), InstructionFormat::I);
    assert_eq!(Opcode::MovImm.instruction_format(), InstructionFormat::II);
    assert_eq!(Opcode::Halt.instruction_format(), InstructionFormat::II);
    assert_eq!(Opcode::Sei.instruction_format(), InstructionFormat::II);
    assert_eq!(Opcode::Bv.instruction_format(), InstructionFormat::III);
    assert_eq!(Opcode::Nop.instruction_format(), InstructionFormat::III);
    assert_eq!(Opcode::Jr.instruction_format(), InstructionFormat::IV);
    assert_eq!(Opcode::Jal.instruction_format(), InstructionFormat::IV);
    assert_eq!(Opcode::Movea.instruction_format(), InstructionFormat::V);
    assert_eq!(Opcode::Movhi.instruction_format(), InstructionFormat::V);
    assert_eq!(Opcode::Ldb.instruction_format(), InstructionFormat::VI);
    assert_eq!(Opcode::Outw.instruction_format(), InstructionFormat::VI);
    assert_eq!(Opcode::Extended.instruction_format(), InstructionFormat::VII);
}

#[test]
fn only_formats_four_to_seven_have_a_second_halfword() {
    assert!(!InstructionFormat::I.has_second_halfword());
    assert!(!InstructionFormat::II.has_second_halfword());
    assert!(!InstructionFormat::III.has_second_halfword());
    assert!(InstructionFormat::IV.has_second_halfword());
    assert!(InstructionFormat::V.has_second_halfword());
    assert!(InstructionFormat::VI.has_second_halfword());
    assert!(InstructionFormat::VII.has_second_halfword());
}

#[test]
fn cycle_costs() {
    assert_eq!(Opcode::Mul.num_cycles(false), 13);
    assert_eq!(Opcode::MulU.num_cycles(false), 13);
    assert_eq!(Opcode::Div.num_cycles(false), 38);
    assert_eq!(Opcode::DivU.num_cycles(false), 36);
    assert_eq!(Opcode::Jmp.num_cycles(false), 3);
    assert_eq!(Opcode::Jr.num_cycles(false), 3);
    assert_eq!(Opcode::Jal.num_cycles(false), 3);
    for opcode in [
        Opcode::Ldb, Opcode::Ldh, Opcode::Ldw, Opcode::Stb, Opcode::Sth, Opcode::Stw,
        Opcode::Inb, Opcode::Inh, Opcode::Inw, Opcode::Outb, Opcode::Outh, Opcode::Outw,
    ] {
        assert_eq!(opcode.num_cycles(false), 4);
        assert_eq!(opcode.num_cycles(true), 4);
    }
    for opcode in [Opcode::MovReg, Opcode::AddReg, Opcode::MovImm, Opcode::Movea, Opcode::Reti,
        Opcode::Halt, Opcode::Ldsr, Opcode::Extended]
    {
        assert_eq!(opcode.num_cycles(false), 1);
        assert_eq!(opcode.num_cycles(true), 1);
    }
}

#[test]
fn branches_cost_three_cycles_taken_and_one_not_taken() {
    for opcode in ALL_OPCODES {
        if opcode.instruction_format() == InstructionFormat::III {
            assert_eq!(opcode.num_cycles(true), 3);
            assert_eq!(opcode.num_cycles(false), 1);
        }
    }
}

#[test]
fn mnemonics() {
    assert_eq!(Opcode::MovReg.mnemonic(), "mov");
    assert_eq!(Opcode::MovImm.mnemonic(), "mov");
    assert_eq!(Opcode::AddImm16.mnemonic(), "addi");
    assert_eq!(Opcode::CmpReg.mnemonic(), "cmp");
    assert_eq!(Opcode::Ldb.mnemonic(), "ld.b");
    assert_eq!(Opcode::Sth.mnemonic(), "st.h");
    assert_eq!(Opcode::Inw.mnemonic(), "in.w");
    assert_eq!(Opcode::Outb.mnemonic(), "out.b");
    assert_eq!(Opcode::Halt.mnemonic(), "halt");
    assert_eq!(Opcode::Nop.mnemonic(), "nop");
    assert_eq!(Opcode::Bnh.mnemonic(), "bnh");
    assert_eq!(SubOp::CmpfS.mnemonic(), "cmpf.s");
    assert_eq!(SubOp::TrncSw.mnemonic(), "trnc.sw");
    assert_eq!(SubOp::Mpyhw.mnemonic(), "mpyhw");
    assert_eq!(SystemRegister::Eipc.mnemonic(), "eipc");
    assert_eq!(SystemRegister::Chcw.mnemonic(), "chcw");
    assert_eq!(Condition::V.mnemonic(), "v");
    assert_eq!(Condition::Nh.mnemonic(), "nh");
    assert_eq!(Condition::Gt.mnemonic(), "gt");
}

#[test]
fn sub_opcodes() {
    let op = Opcode::Extended;
    assert_eq!(op.subop(0b000000), Ok(SubOp::CmpfS));
    assert_eq!(op.subop(0b000010), Ok(SubOp::CvtWs));
    assert_eq!(op.subop(0b000011), Ok(SubOp::CvtSw));
    assert_eq!(op.subop(0b000100), Ok(SubOp::AddfS));
    assert_eq!(op.subop(0b000101), Ok(SubOp::SubfS));
    assert_eq!(op.subop(0b000110), Ok(SubOp::MulfS));
    assert_eq!(op.subop(0b000111), Ok(SubOp::DivfS));
    assert_eq!(op.subop(0b001000), Ok(SubOp::Xb));
    assert_eq!(op.subop(0b001001), Ok(SubOp::Xh));
    assert_eq!(op.subop(0b001011), Ok(SubOp::TrncSw));
    assert_eq!(op.subop(0b001100), Ok(SubOp::Mpyhw));
    assert_eq!(op.subop(0b000001), Err(DecodeError::InvalidOpcode));
    assert_eq!(op.subop(0b001010), Err(DecodeError::InvalidOpcode));
    assert_eq!(op.subop(0b111111), Err(DecodeError::InvalidOpcode));
    assert_eq!(op.subop(64), Err(DecodeError::InvalidOpcode));
}

#[test]
fn system_registers() {
    let op = Opcode::Ldsr;
    assert_eq!(op.system_register(0), Ok(SystemRegister::Eipc));
    assert_eq!(op.system_register(1), Ok(SystemRegister::Eipsw));
    assert_eq!(op.system_register(2), Ok(SystemRegister::Fepc));
    assert_eq!(op.system_register(3), Ok(SystemRegister::Fepsw));
    assert_eq!(op.system_register(4), Ok(SystemRegister::Ecr));
    assert_eq!(op.system_register(5), Ok(SystemRegister::Psw));
    assert_eq!(op.system_register(24), Ok(SystemRegister::Chcw));
    for reserved in [6usize, 7, 8, 23, 25, 31, 32, 1000] {
        assert_eq!(op.system_register(reserved), Err(DecodeError::InvalidSystemRegister));
    }
}

#[test]
fn conditions() {
    let op = Opcode::Setf;
    let expected = [
        Condition::V, Condition::C, Condition::Z, Condition::Nh, Condition::N, Condition::T,
        Condition::Lt, Condition::Le, Condition::Nv, Condition::Nc, Condition::Nz, Condition::H,
        Condition::P, Condition::F, Condition::Ge, Condition::Gt,
    ];
    for (index, condition) in expected.iter().enumerate() {
        assert_eq!(op.condition(index), *condition);
    }
}
