use gbemu::instruction::{
    instruction_name, ArithmeticTarget, IncDecTarget, Instruction, JumpTarget, JumpTest, LoadByteSource,
    LoadByteTarget, LoadType, PrefixTarget, RestartTarget, StackTarget,
};

#[test]
fn decodes_common_opcodes() {
    assert_eq!(Instruction::from_byte(0x00, false), Some(Instruction::NOP()));
    assert_eq!(
        Instruction::from_byte(0x3E, false),
        Some(Instruction::LD(LoadType::Byte(LoadByteTarget::A, LoadByteSource::D8)))
    );
    assert_eq!(Instruction::from_byte(0xC3, false), Some(Instruction::JP(JumpTest::Always, JumpTarget::A16)));
    assert_eq!(Instruction::from_byte(0xCD, false), Some(Instruction::CALL(JumpTest::Always)));
    assert_eq!(Instruction::from_byte(0xC9, false), Some(Instruction::RET(JumpTest::Always)));
    assert_eq!(Instruction::from_byte(0xC5, false), Some(Instruction::PUSH(StackTarget::BC)));
    assert_eq!(Instruction::from_byte(0xF1, false), Some(Instruction::POP(StackTarget::AF)));
    assert_eq!(Instruction::from_byte(0xFF, false), Some(Instruction::RST(RestartTarget::H38)));
    assert_eq!(Instruction::from_byte(0x76, false), Some(Instruction::HALT()));
    assert_eq!(Instruction::from_byte(0x3C, false), Some(Instruction::INC(IncDecTarget::A)));
    assert_eq!(Instruction::from_byte(0x87, false), Some(Instruction::ADD(ArithmeticTarget::A)));
    assert_eq!(
        Instruction::from_byte(0xE0, false),
        Some(Instruction::LDH(LoadType::Byte(LoadByteTarget::A8, LoadByteSource::A)))
    );
}

#[test]
fn decodes_table_quirks() {
    // 0x81 is listed twice and 0x80 not at all: ADD A,B sits on 0x81.
    assert_eq!(Instruction::from_byte(0x80, false), None);
    assert_eq!(Instruction::from_byte(0x81, false), Some(Instruction::ADD(ArithmeticTarget::B)));
    // 0x02 is missing from the table.
    assert_eq!(Instruction::from_byte(0x02, false), None);
    // XOR and OR swap (HL) and L on 0xAD/0xAE and 0xB5/0xB6; CP on 0xBD/0xBE.
    assert_eq!(Instruction::from_byte(0xAD, false), Some(Instruction::XOR(ArithmeticTarget::HL)));
    assert_eq!(Instruction::from_byte(0xB6, false), Some(Instruction::OR(ArithmeticTarget::L)));
    assert_eq!(Instruction::from_byte(0xBE, false), Some(Instruction::CP(ArithmeticTarget::L)));
    // 0x05 decrements BC.
    assert_eq!(Instruction::from_byte(0x05, false), Some(Instruction::DEC(IncDecTarget::BC)));
}

#[test]
fn undefined_opcodes_decode_to_none() {
    for b in [0xD3u8, 0xDB, 0xDD, 0xE3, 0xE4, 0xEB, 0xEC, 0xED, 0xF4, 0xFC, 0xFD] {
        assert_eq!(Instruction::from_byte(b, false), None);
        assert_eq!(Instruction::from_byte_not_prefixed(b), None);
    }
    let mut defined = 0;
    for b in 0..=255u8 {
        if Instruction::from_byte(b, false).is_some() {
            defined += 1;
        }
    }
    assert_eq!(defined, 256 - 13);
}

#[test]
fn decodes_prefixed_opcodes() {
    assert_eq!(Instruction::from_byte(0x06, true), Some(Instruction::RLC(PrefixTarget::HL)));
    assert_eq!(Instruction::from_byte(0x18, true), Some(Instruction::RR(PrefixTarget::B)));
    assert_eq!(Instruction::from_byte(0x31, true), Some(Instruction::SWAP(PrefixTarget::C)));
    assert_eq!(Instruction::from_byte(0x77, true), Some(Instruction::BIT(6, PrefixTarget::A)));
    assert_eq!(Instruction::from_byte(0xC7, true), Some(Instruction::SET(0, PrefixTarget::A)));
    assert_eq!(Instruction::from_byte(0xFE, true), Some(Instruction::SET(7, PrefixTarget::HL)));
    assert_eq!(Instruction::from_byte(0x81, true), Some(Instruction::RES(0, PrefixTarget::B)));
    assert_eq!(Instruction::from_byte(0x80, true), None);
    for b in 0..=255u8 {
        assert_eq!(Instruction::from_byte(b, true).is_none(), b == 0x80);
    }
}

#[test]
fn names_instructions() {
    assert_eq!(instruction_name(&Instruction::NOP()), "NOP");
    assert_eq!(instruction_name(&Instruction::ADD(ArithmeticTarget::B)), "ADD A,B");
    assert_eq!(instruction_name(&Instruction::ADD(ArithmeticTarget::SP)), "ADD  SP,r8");
    assert_eq!(instruction_name(&Instruction::SUB(ArithmeticTarget::D8)), "SUB d8");
    assert_eq!(instruction_name(&Instruction::JP(JumpTest::NotZero, JumpTarget::A16)), "JP NZ,a16");
    assert_eq!(instruction_name(&Instruction::JP(JumpTest::Always, JumpTarget::HL)), "JP (HL)");
    assert_eq!(instruction_name(&Instruction::JR(JumpTest::Carry)), "JR C,r8");
    assert_eq!(instruction_name(&Instruction::RET(JumpTest::Always)), "RET ");
    assert_eq!(instruction_name(&Instruction::RET(JumpTest::Zero)), "RET Z");
    assert_eq!(instruction_name(&Instruction::BIT(6, PrefixTarget::A)), "BIT 6A");
    assert_eq!(instruction_name(&Instruction::RES(0, PrefixTarget::HL)), "RES 0(HL)");
    assert_eq!(instruction_name(&Instruction::PUSH(StackTarget::AF)), "PUSH AF");
    assert_eq!(instruction_name(&Instruction::RST(RestartTarget::H18)), "RST");
    assert_eq!(
        instruction_name(&Instruction::LD(LoadType::Byte(LoadByteTarget::A, LoadByteSource::D8))),
        "LD A,d8"
    );
    assert_eq!(
        instruction_name(&Instruction::LD(LoadType::Byte(LoadByteTarget::HLD, LoadByteSource::A))),
        "LD (HL-),A"
    );
    assert_eq!(
        instruction_name(&Instruction::LD(LoadType::Byte(LoadByteTarget::A, LoadByteSource::A8))),
        "LDH A,(a8)"
    );
    assert_eq!(
        instruction_name(&Instruction::LDH(LoadType::Byte(LoadByteTarget::A8, LoadByteSource::A))),
        "LDH (a8),A"
    );
}
