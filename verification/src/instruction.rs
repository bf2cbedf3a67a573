//! The instruction set: the decoded form of an opcode and the decoders of
//! the plain and 0xCB-prefixed opcode tables.

use vstd::prelude::*;

verus! {

#[derive(Clone, Copy, Debug, PartialEq, Eq, Structural)]
pub enum Instruction {
    // ALU instructions
    ADD(ArithmeticTarget),
    ADC(ArithmeticTarget),
    SUB(ArithmeticTarget),
    SBC(ArithmeticTarget),
    AND(ArithmeticTarget),
    OR(ArithmeticTarget),
    XOR(ArithmeticTarget),
    CP(ArithmeticTarget),
    // 16-bit ALU instructions
    ADDHL(ArithmeticTarget),
    // INC and DEC instructions
    INC(IncDecTarget),
    DEC(IncDecTarget),
    // Rotate and shift instructions
    RLC(PrefixTarget),
    RRC(PrefixTarget),
    RL(PrefixTarget),
    RR(PrefixTarget),
    SLA(PrefixTarget),
    SRA(PrefixTarget),
    SWAP(PrefixTarget),
    SRL(PrefixTarget),
    // Jump instructions
    JP(JumpTest, JumpTarget),
    JR(JumpTest),
    CALL(JumpTest),
    RET(JumpTest),
    // Load instructions
    LD(LoadType),
    LDH(LoadType),
    // Stack instructions
    PUSH(StackTarget),
    POP(StackTarget),
    // Miscellaneous instructions
    NOP(),
    BIT(u8, PrefixTarget),
    RES(u8, PrefixTarget),
    SET(u8, PrefixTarget),
    RLCA(),
    RRCA(),
    RLA(),
    RRA(),
    DAA(),
    CPL(),
    SCF(),
    CCF(),
    RETI(),
    // Halt and stop instructions
    HALT(),
    STOP(),
    // Interrupt instructions
    DI(),
    EI(),
    // Prefix CB instruction
    PREFIX(),
    // Restart (RST) instructions
    RST(RestartTarget),
}

#[derive(Clone, Copy, Debug, PartialEq, Eq, Structural)]
pub enum RestartTarget {
    H00,
    H08,
    H10,
    H18,
    H20,
    H28,
    H30,
    H38,
}

#[derive(Clone, Copy, Debug, PartialEq, Eq, Structural)]
pub enum ArithmeticTarget {
    A,
    B,
    C,
    D,
    E,
    H,
    L,
    HL,
    D8,
    DE,
    BC,
    SP,
}

#[derive(Clone, Copy, Debug, PartialEq, Eq, Structural)]
pub enum JumpTarget {
    A16,
    HL,
}

/// Operands of INC and DEC: 8-bit registers, the byte at (HL), and the
/// 16-bit register pairs.
#[derive(Clone, Copy, Debug, PartialEq, Eq, Structural)]
pub enum IncDecTarget {
    A,
    B,
    C,
    D,
    E,
    H,
    L,
    HLP,
    BC,
    DE,
    SP,
    HL,
}

#[derive(Clone, Copy, Debug, PartialEq, Eq, Structural)]
pub enum PrefixTarget {
    A,
    B,
    C,
    D,
    E,
    H,
    L,
    HL,
}

#[derive(Clone, Copy, Debug, PartialEq, Eq, Structural)]
pub enum StackTarget {
    BC,
    DE,
    HL,
    AF,
}

#[derive(Clone, Copy, Debug, PartialEq, Eq, Structural)]
pub enum LoadByteTarget {
    A,
    B,
    C,
    D,
    E,
    H,
    L,
    HLI,
    HLD,
    BC,
    A16,
    DE,
    HL,
    SP,
    FF00C,
    A8,
}

#[derive(Clone, Copy, Debug, PartialEq, Eq, Structural)]
pub enum LoadByteSource {
    A,
    B,
    C,
    D,
    E,
    H,
    L,
    D8,
    HLI,
    HLD,
    BC,
    SP,
    DE,
    D16,
    HL,
    FF00C,
    A8,
    A16,
}

#[derive(Clone, Copy, Debug, PartialEq, Eq, Structural)]
pub enum LoadType {
    Byte(LoadByteTarget, LoadByteSource),
}

#[derive(Clone, Copy, Debug, PartialEq, Eq, Structural)]
pub enum JumpTest {
    NotZero,
    Zero,
    NotCarry,
    Carry,
    Always,
}

/// The register operands of the regular opcode blocks, in encoding order
/// (bits 0-2 of the opcode): B, C, D, E, H, L, (HL), A.
pub open spec fn prefix_target_of(n: int) -> PrefixTarget {
    if n == 0 {
        PrefixTarget::B
    } else if n == 1 {
        PrefixTarget::C
    } else if n == 2 {
        PrefixTarget::D
    } else if n == 3 {
        PrefixTarget::E
    } else if n == 4 {
        PrefixTarget::H
    } else if n == 5 {
        PrefixTarget::L
    } else if n == 6 {
        PrefixTarget::HL
    } else {
        PrefixTarget::A
    }
}

pub open spec fn ld_target_of(n: int) -> LoadByteTarget {
    if n == 0 {
        LoadByteTarget::B
    } else if n == 1 {
        LoadByteTarget::C
    } else if n == 2 {
        LoadByteTarget::D
    } else if n == 3 {
        LoadByteTarget::E
    } else if n == 4 {
        LoadByteTarget::H
    } else if n == 5 {
        LoadByteTarget::L
    } else if n == 6 {
        LoadByteTarget::HL
    } else {
        LoadByteTarget::A
    }
}

pub open spec fn ld_source_of(n: int) -> LoadByteSource {
    if n == 0 {
        LoadByteSource::B
    } else if n == 1 {
        LoadByteSource::C
    } else if n == 2 {
        LoadByteSource::D
    } else if n == 3 {
        LoadByteSource::E
    } else if n == 4 {
        LoadByteSource::H
    } else if n == 5 {
        LoadByteSource::L
    } else if n == 6 {
        LoadByteSource::HL
    } else {
        LoadByteSource::A
    }
}

pub open spec fn alu_target_of(n: int) -> ArithmeticTarget {
    if n == 0 {
        ArithmeticTarget::B
    } else if n == 1 {
        ArithmeticTarget::C
    } else if n == 2 {
        ArithmeticTarget::D
    } else if n == 3 {
        ArithmeticTarget::E
    } else if n == 4 {
        ArithmeticTarget::H
    } else if n == 5 {
        ArithmeticTarget::L
    } else if n == 6 {
        ArithmeticTarget::HL
    } else {
        ArithmeticTarget::A
    }
}

/// The 8-bit ALU operations in encoding order (bits 3-5 of 0x80-0xBF).
pub open spec fn alu_op_of(op: int, t: ArithmeticTarget) -> Instruction {
    if op == 0 {
        Instruction::ADD(t)
    } else if op == 1 {
        Instruction::ADC(t)
    } else if op == 2 {
        Instruction::SUB(t)
    } else if op == 3 {
        Instruction::SBC(t)
    } else if op == 4 {
        Instruction::AND(t)
    } else if op == 5 {
        Instruction::XOR(t)
    } else if op == 6 {
        Instruction::OR(t)
    } else {
        Instruction::CP(t)
    }
}

/// The 0xCB-prefixed table: rotates and shifts in 0x00-0x3F, then BIT,
/// RES and SET with the bit number in bits 3-5. 0x80 decodes to nothing
/// and 0x81 to RES 0,B.
pub open spec fn decode_prefixed(byte: u8) -> Option<Instruction> {
    let t = prefix_target_of(byte as int % 8);
    let op = byte as int / 8;
    if byte < 0x40 {
        Some(
            if op == 0 {
                Instruction::RLC(t)
            } else if op == 1 {
                Instruction::RRC(t)
            } else if op == 2 {
                Instruction::RL(t)
            } else if op == 3 {
                Instruction::RR(t)
            } else if op == 4 {
                Instruction::SLA(t)
            } else if op == 5 {
                Instruction::SRA(t)
            } else if op == 6 {
                Instruction::SWAP(t)
            } else {
                Instruction::SRL(t)
            },
        )
    } else if byte < 0x80 {
        Some(Instruction::BIT((op - 8) as u8, t))
    } else if byte == 0x80 {
        None
    } else if byte == 0x81 {
        Some(Instruction::RES(0, PrefixTarget::B))
    } else if byte < 0xC0 {
        Some(Instruction::RES((op - 16) as u8, t))
    } else {
        Some(Instruction::SET((op - 24) as u8, t))
    }
}

/// The irregular part of the plain opcode table: 0x00-0x3F and 0xC0-0xFF.
pub open spec fn decode_unprefixed_table(byte: u8) -> Option<Instruction> {
    match byte {
        0x00 => Some(Instruction::NOP()),
        0x01 => Some(Instruction::LD(LoadType::Byte(LoadByteTarget::BC, LoadByteSource::D16))),
        0x03 => Some(Instruction::INC(IncDecTarget::BC)),
        0x04 => Some(Instruction::INC(IncDecTarget::B)),
        0x05 => Some(Instruction::DEC(IncDecTarget::BC)),
        0x06 => Some(Instruction::LD(LoadType::Byte(LoadByteTarget::B, LoadByteSource::D8))),
        0x07 => Some(Instruction::RLCA()),
        0x08 => Some(Instruction::LD(LoadType::Byte(LoadByteTarget::A16, LoadByteSource::SP))),
        0x09 => Some(Instruction::ADDHL(ArithmeticTarget::BC)),
        0x0A => Some(Instruction::LD(LoadType::Byte(LoadByteTarget::A, LoadByteSource::BC))),
        0x0B => Some(Instruction::DEC(IncDecTarget::BC)),
        0x0C => Some(Instruction::INC(IncDecTarget::C)),
        0x0D => Some(Instruction::DEC(IncDecTarget::C)),
        0x0E => Some(Instruction::LD(LoadType::Byte(LoadByteTarget::C, LoadByteSource::D8))),
        0x0F => Some(Instruction::RRCA()),
        0x10 => Some(Instruction::STOP()),
        0x11 => Some(Instruction::LD(LoadType::Byte(LoadByteTarget::DE, LoadByteSource::D16))),
        0x12 => Some(Instruction::LD(LoadType::Byte(LoadByteTarget::DE, LoadByteSource::A))),
        0x13 => Some(Instruction::INC(IncDecTarget::DE)),
        0x14 => Some(Instruction::INC(IncDecTarget::D)),
        0x15 => Some(Instruction::DEC(IncDecTarget::D)),
        0x16 => Some(Instruction::LD(LoadType::Byte(LoadByteTarget::D, LoadByteSource::D8))),
        0x17 => Some(Instruction::RLA()),
        0x18 => Some(Instruction::JR(JumpTest::Always)),
        0x19 => Some(Instruction::ADDHL(ArithmeticTarget::DE)),
        0x1A => Some(Instruction::LD(LoadType::Byte(LoadByteTarget::A, LoadByteSource::DE))),
        0x1B => Some(Instruction::DEC(IncDecTarget::DE)),
        0x1C => Some(Instruction::INC(IncDecTarget::E)),
        0x1D => Some(Instruction::DEC(IncDecTarget::E)),
        0x1E => Some(Instruction::LD(LoadType::Byte(LoadByteTarget::E, LoadByteSource::D8))),
        0x1F => Some(Instruction::RRA()),
        0x20 => Some(Instruction::JR(JumpTest::NotZero)),
        0x21 => Some(Instruction::LD(LoadType::Byte(LoadByteTarget::HL, LoadByteSource::D16))),
        0x22 => Some(Instruction::LD(LoadType::Byte(LoadByteTarget::HLI, LoadByteSource::D8))),
        0x23 => Some(Instruction::INC(IncDecTarget::HL)),
        0x24 => Some(Instruction::INC(IncDecTarget::H)),
        0x25 => Some(Instruction::DEC(IncDecTarget::H)),
        0x26 => Some(Instruction::LD(LoadType::Byte(LoadByteTarget::H, LoadByteSource::D8))),
        0x27 => Some(Instruction::DAA()),
        0x28 => Some(Instruction::JR(JumpTest::Zero)),
        0x29 => Some(Instruction::ADDHL(ArithmeticTarget::HL)),
        0x2A => Some(Instruction::LD(LoadType::Byte(LoadByteTarget::A, LoadByteSource::HLI))),
        0x2B => Some(Instruction::DEC(IncDecTarget::HL)),
        0x2C => Some(Instruction::INC(IncDecTarget::L)),
        0x2D => Some(Instruction::DEC(IncDecTarget::L)),
        0x2E => Some(Instruction::LD(LoadType::Byte(LoadByteTarget::L, LoadByteSource::D8))),
        0x2F => Some(Instruction::CPL()),
        0x30 => Some(Instruction::JR(JumpTest::NotCarry)),
        0x31 => Some(Instruction::LD(LoadType::Byte(LoadByteTarget::SP, LoadByteSource::D16))),
        0x32 => Some(Instruction::LD(LoadType::Byte(LoadByteTarget::HLD, LoadByteSource::A))),
        0x33 => Some(Instruction::INC(IncDecTarget::SP)),
        0x34 => Some(Instruction::INC(IncDecTarget::HL)),
        0x35 => Some(Instruction::DEC(IncDecTarget::HL)),
        0x36 => Some(Instruction::LD(LoadType::Byte(LoadByteTarget::HL, LoadByteSource::D8))),
        0x37 => Some(Instruction::SCF()),
        0x38 => Some(Instruction::JR(JumpTest::Carry)),
        0x39 => Some(Instruction::ADDHL(ArithmeticTarget::SP)),
        0x3A => Some(Instruction::LD(LoadType::Byte(LoadByteTarget::A, LoadByteSource::HLD))),
        0x3B => Some(Instruction::DEC(IncDecTarget::SP)),
        0x3C => Some(Instruction::INC(IncDecTarget::A)),
        0x3D => Some(Instruction::DEC(IncDecTarget::A)),
        0x3E => Some(Instruction::LD(LoadType::Byte(LoadByteTarget::A, LoadByteSource::D8))),
        0x3F => Some(Instruction::CCF()),
        0xC0 => Some(Instruction::RET(JumpTest::NotZero)),
        0xC1 => Some(Instruction::POP(StackTarget::BC)),
        0xC2 => Some(Instruction::JP(JumpTest::NotZero,JumpTarget::A16)),
        0xC3 => Some(Instruction::JP(JumpTest::Always,JumpTarget::A16)),
        0xC4 => Some(Instruction::CALL(JumpTest::NotZero)),
        0xC5 => Some(Instruction::PUSH(StackTarget::BC)),
        0xC6 => Some(Instruction::ADD(ArithmeticTarget::D8)),
        0xC7 => Some(Instruction::RST(RestartTarget::H00)),
        0xC8 => Some(Instruction::RET(JumpTest::Zero)),
        0xC9 => Some(Instruction::RET(JumpTest::Always)),
        0xCA => Some(Instruction::JP(JumpTest::Zero,JumpTarget::A16)),
        0xCB => Some(Instruction::PREFIX()),
        0xCC => Some(Instruction::CALL(JumpTest::Zero)),
        0xCD => Some(Instruction::CALL(JumpTest::Always)),
        0xCE => Some(Instruction::ADC(ArithmeticTarget::D8)),
        0xCF => Some(Instruction::RST(RestartTarget::H08)),
        0xD0 => Some(Instruction::RET(JumpTest::NotCarry)),
        0xD1 => Some(Instruction::POP(StackTarget::DE)),
        0xD2 => Some(Instruction::JP(JumpTest::NotCarry,JumpTarget::A16)),
        0xD3 => None,
        0xD4 => Some(Instruction::CALL(JumpTest::NotCarry)),
        0xD5 => Some(Instruction::PUSH(StackTarget::DE)),
        0xD6 => Some(Instruction::SUB(ArithmeticTarget::D8)),
        0xD7 => Some(Instruction::RST(RestartTarget::H10)),
        0xD8 => Some(Instruction::RET(JumpTest::Carry)),
        0xD9 => Some(Instruction::RETI()),
        0xDA => Some(Instruction::JP(JumpTest::Carry,JumpTarget::A16)),
        0xDB => None,
        0xDC => Some(Instruction::CALL(JumpTest::Carry)),
        0xDD => None,
        0xDE => Some(Instruction::SBC(ArithmeticTarget::D8)),
        0xDF => Some(Instruction::RST(RestartTarget::H18)),
        0xE0 => Some(Instruction::LDH(LoadType::Byte(LoadByteTarget::A8, LoadByteSource::A))),
        0xE1 => Some(Instruction::POP(StackTarget::HL)),
        0xE2 => Some(Instruction::LD(LoadType::Byte(LoadByteTarget::FF00C, LoadByteSource::A))),
        0xE3 => None,
        0xE4 => None,
        0xE5 => Some(Instruction::PUSH(StackTarget::HL)),
        0xE6 => Some(Instruction::AND(ArithmeticTarget::D8)),
        0xE7 => Some(Instruction::RST(RestartTarget::H20)),
        0xE8 => Some(Instruction::ADD(ArithmeticTarget::SP)),
        0xE9 => Some(Instruction::JP(JumpTest::Always,JumpTarget::HL)),
        0xEA => Some(Instruction::LD(LoadType::Byte(LoadByteTarget::A16, LoadByteSource::A))),
        0xEB => None,
        0xEC => None,
        0xED => None,
        0xEE => Some(Instruction::XOR(ArithmeticTarget::D8)),
        0xEF => Some(Instruction::RST(RestartTarget::H28)),
        0xF0 => Some(Instruction::LDH(LoadType::Byte(LoadByteTarget::A, LoadByteSource::A8))),
        0xF1 => Some(Instruction::POP(StackTarget::AF)),
        0xF2 => Some(Instruction::LD(LoadType::Byte(LoadByteTarget::A, LoadByteSource::FF00C))),
        0xF3 => Some(Instruction::DI()),
        0xF4 => None,
        0xF5 => Some(Instruction::PUSH(StackTarget::AF)),
        0xF6 => Some(Instruction::OR(ArithmeticTarget::D8)),
        0xF7 => Some(Instruction::RST(RestartTarget::H30)),
        0xF8 => Some(Instruction::LD(LoadType::Byte(LoadByteTarget::HL, LoadByteSource::SP))),
        0xF9 => Some(Instruction::LD(LoadType::Byte(LoadByteTarget::SP, LoadByteSource::HL))),
        0xFA => Some(Instruction::LD(LoadType::Byte(LoadByteTarget::A, LoadByteSource::A16))),
        0xFB => Some(Instruction::EI()),
        0xFC => None,
        0xFD => None,
        0xFE => Some(Instruction::CP(ArithmeticTarget::D8)),
        0xFF => Some(Instruction::RST(RestartTarget::H38)),
        _ => None,
    }
}

/// The plain opcode table. 0x40-0x7F load register to register (0x76 is
/// HALT); 0x80-0xBF are the ALU operations on a register, where 0x80
/// decodes to nothing, 0x81 to ADD A,B, and XOR, OR and CP swap the
/// encodings of (HL) and L.
pub open spec fn decode_unprefixed(byte: u8) -> Option<Instruction> {
    if 0x40 <= byte < 0x80 {
        if byte == 0x76 {
            Some(Instruction::HALT())
        } else {
            Some(
                Instruction::LD(
                    LoadType::Byte(ld_target_of((byte - 0x40) / 8), ld_source_of(byte as int % 8)),
                ),
            )
        }
    } else if 0x80 <= byte < 0xC0 {
        if byte == 0x80 {
            None
        } else if byte == 0x81 {
            Some(Instruction::ADD(ArithmeticTarget::B))
        } else {
            let op = (byte - 0x80) / 8;
            let n = byte as int % 8;
            let n2 = if op >= 5 && n == 5 {
                6
            } else if op >= 5 && n == 6 {
                5
            } else {
                n
            };
            Some(alu_op_of(op, alu_target_of(n2)))
        }
    } else {
        decode_unprefixed_table(byte)
    }
}

pub open spec fn decode(byte: u8, prefixed: bool) -> Option<Instruction> {
    if prefixed {
        decode_prefixed(byte)
    } else {
        decode_unprefixed(byte)
    }
}

/// INC r is opcode 00 rrr 100 and DEC r is 00 rrr 101, with the register
/// field r naming B, C, D, E, H, L, (HL), A in turn; field (HL) gives the
/// 16-bit HL here, and 0x05 decrements BC. LD r,d8 is 00 rrr 110. No
/// opcode 00 rrr 101 increments anything.
pub proof fn lemma_incdec_opcodes(field: u8)
    requires
        field < 8,
    ensures
        decode(0x04, false) == Some(Instruction::INC(IncDecTarget::B)),
        decode(0x0C, false) == Some(Instruction::INC(IncDecTarget::C)),
        decode(0x14, false) == Some(Instruction::INC(IncDecTarget::D)),
        decode(0x1C, false) == Some(Instruction::INC(IncDecTarget::E)),
        decode(0x24, false) == Some(Instruction::INC(IncDecTarget::H)),
        decode(0x2C, false) == Some(Instruction::INC(IncDecTarget::L)),
        decode(0x34, false) == Some(Instruction::INC(IncDecTarget::HL)),
        decode(0x3C, false) == Some(Instruction::INC(IncDecTarget::A)),
        decode(0x05, false) == Some(Instruction::DEC(IncDecTarget::BC)),
        decode(0x0D, false) == Some(Instruction::DEC(IncDecTarget::C)),
        decode(0x15, false) == Some(Instruction::DEC(IncDecTarget::D)),
        decode(0x1D, false) == Some(Instruction::DEC(IncDecTarget::E)),
        decode(0x25, false) == Some(Instruction::DEC(IncDecTarget::H)),
        decode(0x2D, false) == Some(Instruction::DEC(IncDecTarget::L)),
        decode(0x35, false) == Some(Instruction::DEC(IncDecTarget::HL)),
        decode(0x3D, false) == Some(Instruction::DEC(IncDecTarget::A)),
        decode((0x04 + 8 * field) as u8, false) matches Some(Instruction::INC(_)),
        decode((0x05 + 8 * field) as u8, false) matches Some(Instruction::DEC(_)),
        decode((0x06 + 8 * field) as u8, false) matches Some(
            Instruction::LD(LoadType::Byte(_, LoadByteSource::D8)),
        ),
{
}

/// The operand that a 3-bit register field names, in the order of the
/// processor's encoding: B, C, D, E, H, L, (HL), A.
pub open spec fn operand_of_field(field: u8) -> PrefixTarget {
    match field {
        0 => PrefixTarget::B,
        1 => PrefixTarget::C,
        2 => PrefixTarget::D,
        3 => PrefixTarget::E,
        4 => PrefixTarget::H,
        5 => PrefixTarget::L,
        6 => PrefixTarget::HL,
        _ => PrefixTarget::A,
    }
}

/// A register, or the byte at (HL), as the destination of a load.
pub open spec fn as_load_target(o: PrefixTarget) -> LoadByteTarget {
    match o {
        PrefixTarget::A => LoadByteTarget::A,
        PrefixTarget::B => LoadByteTarget::B,
        PrefixTarget::C => LoadByteTarget::C,
        PrefixTarget::D => LoadByteTarget::D,
        PrefixTarget::E => LoadByteTarget::E,
        PrefixTarget::H => LoadByteTarget::H,
        PrefixTarget::L => LoadByteTarget::L,
        PrefixTarget::HL => LoadByteTarget::HL,
    }
}

/// A register, or the byte at (HL), as the source of a load.
pub open spec fn as_load_source(o: PrefixTarget) -> LoadByteSource {
    match o {
        PrefixTarget::A => LoadByteSource::A,
        PrefixTarget::B => LoadByteSource::B,
        PrefixTarget::C => LoadByteSource::C,
        PrefixTarget::D => LoadByteSource::D,
        PrefixTarget::E => LoadByteSource::E,
        PrefixTarget::H => LoadByteSource::H,
        PrefixTarget::L => LoadByteSource::L,
        PrefixTarget::HL => LoadByteSource::HL,
    }
}

/// A register, or the byte at (HL), as the operand of an ALU instruction.
pub open spec fn as_alu_operand(o: PrefixTarget) -> ArithmeticTarget {
    match o {
        PrefixTarget::A => ArithmeticTarget::A,
        PrefixTarget::B => ArithmeticTarget::B,
        PrefixTarget::C => ArithmeticTarget::C,
        PrefixTarget::D => ArithmeticTarget::D,
        PrefixTarget::E => ArithmeticTarget::E,
        PrefixTarget::H => ArithmeticTarget::H,
        PrefixTarget::L => ArithmeticTarget::L,
        PrefixTarget::HL => ArithmeticTarget::HL,
    }
}

/// Opcodes 0x40-0x7F, HALT (0x76) aside, load the operand that bits 2-0
/// name into the one that bits 5-3 name.
pub proof fn lemma_load_block_fields(byte: u8)
    requires
        0x40 <= byte < 0x80,
        byte != 0x76,
    ensures
        decode(byte, false) == Some(
            Instruction::LD(
                LoadType::Byte(
                    as_load_target(operand_of_field((byte >> 3) & 7)),
                    as_load_source(operand_of_field(byte & 7)),
                ),
            ),
        ),
{
    lemma_opcode_fields(byte);
}

/// Opcodes 0x80-0xBF apply the operation that bits 5-3 name (ADD, ADC,
/// SUB, SBC, AND, XOR, OR, CP) to A and the operand that bits 2-0 name;
/// XOR, OR and CP take (HL) for field 5 and L for field 6. 0x80 decodes to
/// nothing and 0x81 to ADD A,B.
pub proof fn lemma_alu_block_fields(byte: u8)
    requires
        0x81 < byte < 0xC0,
    ensures
        ({
            let op = (byte >> 3) & 7;
            let f = byte & 7;
            let t = as_alu_operand(operand_of_field(f));
            let swapped = as_alu_operand(operand_of_field(if f == 5 { 6u8 } else if f == 6 { 5u8 } else { f }));
            &&& op == 0 ==> decode(byte, false) == Some(Instruction::ADD(t))
            &&& op == 1 ==> decode(byte, false) == Some(Instruction::ADC(t))
            &&& op == 2 ==> decode(byte, false) == Some(Instruction::SUB(t))
            &&& op == 3 ==> decode(byte, false) == Some(Instruction::SBC(t))
            &&& op == 4 ==> decode(byte, false) == Some(Instruction::AND(t))
            &&& op == 5 ==> decode(byte, false) == Some(Instruction::XOR(swapped))
            &&& op == 6 ==> decode(byte, false) == Some(Instruction::OR(swapped))
            &&& op == 7 ==> decode(byte, false) == Some(Instruction::CP(swapped))
        }),
{
    lemma_opcode_fields(byte);
}

proof fn lemma_opcode_fields(byte: u8)
    ensures
        byte & 7 == byte % 8,
        (byte >> 3) & 7 == (byte / 8) % 8,
{
    assert(byte & 7 == byte % 8 && (byte >> 3) & 7 == (byte / 8) % 8) by (bit_vector);
}

/// After the 0xCB prefix, bits 2-0 name the operand and bits 5-3 the bit
/// number (or, below 0x40, the rotate or shift: RLC, RRC, RL, RR, SLA, SRA,
/// SWAP, SRL); bits 7-6 choose the rotates and shifts, BIT, RES or SET.
/// 0x80 decodes to nothing and 0x81 to RES 0,B.
pub proof fn lemma_prefixed_fields(byte: u8)
    ensures
        ({
            let t = operand_of_field(byte & 7);
            let n = (byte >> 3) & 7;
            &&& byte < 0x40 && n == 0 ==> decode(byte, true) == Some(Instruction::RLC(t))
            &&& byte < 0x40 && n == 1 ==> decode(byte, true) == Some(Instruction::RRC(t))
            &&& byte < 0x40 && n == 2 ==> decode(byte, true) == Some(Instruction::RL(t))
            &&& byte < 0x40 && n == 3 ==> decode(byte, true) == Some(Instruction::RR(t))
            &&& byte < 0x40 && n == 4 ==> decode(byte, true) == Some(Instruction::SLA(t))
            &&& byte < 0x40 && n == 5 ==> decode(byte, true) == Some(Instruction::SRA(t))
            &&& byte < 0x40 && n == 6 ==> decode(byte, true) == Some(Instruction::SWAP(t))
            &&& byte < 0x40 && n == 7 ==> decode(byte, true) == Some(Instruction::SRL(t))
            &&& 0x40 <= byte < 0x80 ==> decode(byte, true) == Some(Instruction::BIT(n, t))
            &&& 0x81 < byte < 0xC0 ==> decode(byte, true) == Some(Instruction::RES(n, t))
            &&& 0xC0 <= byte ==> decode(byte, true) == Some(Instruction::SET(n, t))
        }),
{
    lemma_opcode_fields(byte);
    assert(operand_of_field(byte & 7) == prefix_target_of(byte as int % 8));
}

/// Every byte after the 0xCB prefix is an instruction but 0x80, which the
/// table leaves out.
pub proof fn lemma_prefixed_gaps(byte: u8)
    ensures
        decode(byte, true) is None <==> byte == 0x80,
{
}

/// The opcodes without an instruction: 0x02 and 0x80, which the table
/// leaves out, and those the processor does not define.
pub proof fn lemma_unprefixed_gaps(byte: u8)
    ensures
        decode(byte, false) is None <==> (byte == 0x02 || byte == 0x80 || byte == 0xD3 || byte == 0xDB
            || byte == 0xDD || byte == 0xE3 || byte == 0xE4 || byte == 0xEB || byte == 0xEC || byte
            == 0xED || byte == 0xF4 || byte == 0xFC || byte == 0xFD),
{
}

impl Instruction {
    pub fn from_byte(byte: u8, prefixed: bool) -> (r: Option<Instruction>)
        ensures
            r == decode(byte, prefixed),
    {
        if prefixed {
            Instruction::from_byte_prefixed(byte)
        } else {
            Instruction::from_byte_not_prefixed(byte)
        }
    }

    fn from_byte_prefixed(byte: u8) -> (r: Option<Instruction>)
        ensures
            r == decode_prefixed(byte),
    {
        match byte {
            0x00 => Some(Instruction::RLC(PrefixTarget::B)),
            0x01 => Some(Instruction::RLC(PrefixTarget::C)),
            0x02 => Some(Instruction::RLC(PrefixTarget::D)),
            0x03 => Some(Instruction::RLC(PrefixTarget::E)),
            0x04 => Some(Instruction::RLC(PrefixTarget::H)),
            0x05 => Some(Instruction::RLC(PrefixTarget::L)),
            0x06 => Some(Instruction::RLC(PrefixTarget::HL)),
            0x07 => Some(Instruction::RLC(PrefixTarget::A)),
            0x08 => Some(Instruction::RRC(PrefixTarget::B)),
            0x09 => Some(Instruction::RRC(PrefixTarget::C)),
            0x0A => Some(Instruction::RRC(PrefixTarget::D)),
            0x0B => Some(Instruction::RRC(PrefixTarget::E)),
            0x0C => Some(Instruction::RRC(PrefixTarget::H)),
            0x0D => Some(Instruction::RRC(PrefixTarget::L)),
            0x0E => Some(Instruction::RRC(PrefixTarget::HL)),
            0x0F => Some(Instruction::RRC(PrefixTarget::A)),
            0x10 => Some(Instruction::RL(PrefixTarget::B)),
            0x11 => Some(Instruction::RL(PrefixTarget::C)),
            0x12 => Some(Instruction::RL(PrefixTarget::D)),
            0x13 => Some(Instruction::RL(PrefixTarget::E)),
            0x14 => Some(Instruction::RL(PrefixTarget::H)),
            0x15 => Some(Instruction::RL(PrefixTarget::L)),
            0x16 => Some(Instruction::RL(PrefixTarget::HL)),
            0x17 => Some(Instruction::RL(PrefixTarget::A)),
            0x18 => Some(Instruction::RR(PrefixTarget::B)),
            0x19 => Some(Instruction::RR(PrefixTarget::C)),
            0x1A => Some(Instruction::RR(PrefixTarget::D)),
            0x1B => Some(Instruction::RR(PrefixTarget::E)),
            0x1C => Some(Instruction::RR(PrefixTarget::H)),
            0x1D => Some(Instruction::RR(PrefixTarget::L)),
            0x1E => Some(Instruction::RR(PrefixTarget::HL)),
            0x1F => Some(Instruction::RR(PrefixTarget::A)),
            0x20 => Some(Instruction::SLA(PrefixTarget::B)),
            0x21 => Some(Instruction::SLA(PrefixTarget::C)),
            0x22 => Some(Instruction::SLA(PrefixTarget::D)),
            0x23 => Some(Instruction::SLA(PrefixTarget::E)),
            0x24 => Some(Instruction::SLA(PrefixTarget::H)),
            0x25 => Some(Instruction::SLA(PrefixTarget::L)),
            0x26 => Some(Instruction::SLA(PrefixTarget::HL)),
            0x27 => Some(Instruction::SLA(PrefixTarget::A)),
            0x28 => Some(Instruction::SRA(PrefixTarget::B)),
            0x29 => Some(Instruction::SRA(PrefixTarget::C)),
            0x2A => Some(Instruction::SRA(PrefixTarget::D)),
            0x2B => Some(Instruction::SRA(PrefixTarget::E)),
            0x2C => Some(Instruction::SRA(PrefixTarget::H)),
            0x2D => Some(Instruction::SRA(PrefixTarget::L)),
            0x2E => Some(Instruction::SRA(PrefixTarget::HL)),
            0x2F => Some(Instruction::SRA(PrefixTarget::A)),
            0x30 => Some(Instruction::SWAP(PrefixTarget::B)),
            0x31 => Some(Instruction::SWAP(PrefixTarget::C)),
            0x32 => Some(Instruction::SWAP(PrefixTarget::D)),
            0x33 => Some(Instruction::SWAP(PrefixTarget::E)),
            0x34 => Some(Instruction::SWAP(PrefixTarget::H)),
            0x35 => Some(Instruction::SWAP(PrefixTarget::L)),
            0x36 => Some(Instruction::SWAP(PrefixTarget::HL)),
            0x37 => Some(Instruction::SWAP(PrefixTarget::A)),
            0x38 => Some(Instruction::SRL(PrefixTarget::B)),
            0x39 => Some(Instruction::SRL(PrefixTarget::C)),
            0x3A => Some(Instruction::SRL(PrefixTarget::D)),
            0x3B => Some(Instruction::SRL(PrefixTarget::E)),
            0x3C => Some(Instruction::SRL(PrefixTarget::H)),
            0x3D => Some(Instruction::SRL(PrefixTarget::L)),
            0x3E => Some(Instruction::SRL(PrefixTarget::HL)),
            0x3F => Some(Instruction::SRL(PrefixTarget::A)),
            0x40 => Some(Instruction::BIT(0,PrefixTarget::B)),
            0x41 => Some(Instruction::BIT(0,PrefixTarget::C)),
            0x42 => Some(Instruction::BIT(0,PrefixTarget::D)),
            0x43 => Some(Instruction::BIT(0,PrefixTarget::E)),
            0x44 => Some(Instruction::BIT(0,PrefixTarget::H)),
            0x45 => Some(Instruction::BIT(0,PrefixTarget::L)),
            0x46 => Some(Instruction::BIT(0,PrefixTarget::HL)),
            0x47 => Some(Instruction::BIT(0,PrefixTarget::A)),
            0x48 => Some(Instruction::BIT(1,PrefixTarget::B)),
            0x49 => Some(Instruction::BIT(1,PrefixTarget::C)),
            0x4A => Some(Instruction::BIT(1,PrefixTarget::D)),
            0x4B => Some(Instruction::BIT(1,PrefixTarget::E)),
            0x4C => Some(Instruction::BIT(1,PrefixTarget::H)),
            0x4D => Some(Instruction::BIT(1,PrefixTarget::L)),
            0x4E => Some(Instruction::BIT(1,PrefixTarget::HL)),
            0x4F => Some(Instruction::BIT(1,PrefixTarget::A)),
            0x50 => Some(Instruction::BIT(2,PrefixTarget::B)),
            0x51 => Some(Instruction::BIT(2,PrefixTarget::C)),
            0x52 => Some(Instruction::BIT(2,PrefixTarget::D)),
            0x53 => Some(Instruction::BIT(2,PrefixTarget::E)),
            0x54 => Some(Instruction::BIT(2,PrefixTarget::H)),
            0x55 => Some(Instruction::BIT(2,PrefixTarget::L)),
            0x56 => Some(Instruction::BIT(2,PrefixTarget::HL)),
            0x57 => Some(Instruction::BIT(2,PrefixTarget::A)),
            0x58 => Some(Instruction::BIT(3,PrefixTarget::B)),
            0x59 => Some(Instruction::BIT(3,PrefixTarget::C)),
            0x5A => Some(Instruction::BIT(3,PrefixTarget::D)),
            0x5B => Some(Instruction::BIT(3,PrefixTarget::E)),
            0x5C => Some(Instruction::BIT(3,PrefixTarget::H)),
            0x5D => Some(Instruction::BIT(3,PrefixTarget::L)),
            0x5E => Some(Instruction::BIT(3,PrefixTarget::HL)),
            0x5F => Some(Instruction::BIT(3,PrefixTarget::A)),
            0x60 => Some(Instruction::BIT(4,PrefixTarget::B)),
            0x61 => Some(Instruction::BIT(4,PrefixTarget::C)),
            0x62 => Some(Instruction::BIT(4,PrefixTarget::D)),
            0x63 => Some(Instruction::BIT(4,PrefixTarget::E)),
            0x64 => Some(Instruction::BIT(4,PrefixTarget::H)),
            0x65 => Some(Instruction::BIT(4,PrefixTarget::L)),
            0x66 => Some(Instruction::BIT(4,PrefixTarget::HL)),
            0x67 => Some(Instruction::BIT(4,PrefixTarget::A)),
            0x68 => Some(Instruction::BIT(5,PrefixTarget::B)),
            0x69 => Some(Instruction::BIT(5,PrefixTarget::C)),
            0x6A => Some(Instruction::BIT(5,PrefixTarget::D)),
            0x6B => Some(Instruction::BIT(5,PrefixTarget::E)),
            0x6C => Some(Instruction::BIT(5,PrefixTarget::H)),
            0x6D => Some(Instruction::BIT(5,PrefixTarget::L)),
            0x6E => Some(Instruction::BIT(5,PrefixTarget::HL)),
            0x6F => Some(Instruction::BIT(5,PrefixTarget::A)),
            0x70 => Some(Instruction::BIT(6,PrefixTarget::B)),
            0x71 => Some(Instruction::BIT(6,PrefixTarget::C)),
            0x72 => Some(Instruction::BIT(6,PrefixTarget::D)),
            0x73 => Some(Instruction::BIT(6,PrefixTarget::E)),
            0x74 => Some(Instruction::BIT(6,PrefixTarget::H)),
            0x75 => Some(Instruction::BIT(6,PrefixTarget::L)),
            0x76 => Some(Instruction::BIT(6,PrefixTarget::HL)),
            0x77 => Some(Instruction::BIT(6,PrefixTarget::A)),
            0x78 => Some(Instruction::BIT(7,PrefixTarget::B)),
            0x79 => Some(Instruction::BIT(7,PrefixTarget::C)),
            0x7A => Some(Instruction::BIT(7,PrefixTarget::D)),
            0x7B => Some(Instruction::BIT(7,PrefixTarget::E)),
            0x7C => Some(Instruction::BIT(7,PrefixTarget::H)),
            0x7D => Some(Instruction::BIT(7,PrefixTarget::L)),
            0x7E => Some(Instruction::BIT(7,PrefixTarget::HL)),
            0x7F => Some(Instruction::BIT(7,PrefixTarget::A)),
            0x81 => Some(Instruction::RES(0,PrefixTarget::B)),
            0x82 => Some(Instruction::RES(0,PrefixTarget::D)),
            0x83 => Some(Instruction::RES(0,PrefixTarget::E)),
            0x84 => Some(Instruction::RES(0,PrefixTarget::H)),
            0x85 => Some(Instruction::RES(0,PrefixTarget::L)),
            0x86 => Some(Instruction::RES(0,PrefixTarget::HL)),
            0x87 => Some(Instruction::RES(0,PrefixTarget::A)),
            0x88 => Some(Instruction::RES(1,PrefixTarget::B)),
            0x89 => Some(Instruction::RES(1,PrefixTarget::C)),
            0x8A => Some(Instruction::RES(1,PrefixTarget::D)),
            0x8B => Some(Instruction::RES(1,PrefixTarget::E)),
            0x8C => Some(Instruction::RES(1,PrefixTarget::H)),
            0x8D => Some(Instruction::RES(1,PrefixTarget::L)),
            0x8E => Some(Instruction::RES(1,PrefixTarget::HL)),
            0x8F => Some(Instruction::RES(1,PrefixTarget::A)),
            0x90 => Some(Instruction::RES(2,PrefixTarget::B)),
            0x91 => Some(Instruction::RES(2,PrefixTarget::C)),
            0x92 => Some(Instruction::RES(2,PrefixTarget::D)),
            0x93 => Some(Instruction::RES(2,PrefixTarget::E)),
            0x94 => Some(Instruction::RES(2,PrefixTarget::H)),
            0x95 => Some(Instruction::RES(2,PrefixTarget::L)),
            0x96 => Some(Instruction::RES(2,PrefixTarget::HL)),
            0x97 => Some(Instruction::RES(2,PrefixTarget::A)),
            0x98 => Some(Instruction::RES(3,PrefixTarget::B)),
            0x99 => Some(Instruction::RES(3,PrefixTarget::C)),
            0x9A => Some(Instruction::RES(3,PrefixTarget::D)),
            0x9B => Some(Instruction::RES(3,PrefixTarget::E)),
            0x9C => Some(Instruction::RES(3,PrefixTarget::H)),
            0x9D => Some(Instruction::RES(3,PrefixTarget::L)),
            0x9E => Some(Instruction::RES(3,PrefixTarget::HL)),
            0x9F => Some(Instruction::RES(3,PrefixTarget::A)),
            0xA0 => Some(Instruction::RES(4,PrefixTarget::B)),
            0xA1 => Some(Instruction::RES(4,PrefixTarget::C)),
            0xA2 => Some(Instruction::RES(4,PrefixTarget::D)),
            0xA3 => Some(Instruction::RES(4,PrefixTarget::E)),
            0xA4 => Some(Instruction::RES(4,PrefixTarget::H)),
            0xA5 => Some(Instruction::RES(4,PrefixTarget::L)),
            0xA6 => Some(Instruction::RES(4,PrefixTarget::HL)),
            0xA7 => Some(Instruction::RES(4,PrefixTarget::A)),
            0xA8 => Some(Instruction::RES(5,PrefixTarget::B)),
            0xA9 => Some(Instruction::RES(5,PrefixTarget::C)),
            0xAA => Some(Instruction::RES(5,PrefixTarget::D)),
            0xAB => Some(Instruction::RES(5,PrefixTarget::E)),
            0xAC => Some(Instruction::RES(5,PrefixTarget::H)),
            0xAD => Some(Instruction::RES(5,PrefixTarget::L)),
            0xAE => Some(Instruction::RES(5,PrefixTarget::HL)),
            0xAF => Some(Instruction::RES(5,PrefixTarget::A)),
            0xB0 => Some(Instruction::RES(6,PrefixTarget::B)),
            0xB1 => Some(Instruction::RES(6,PrefixTarget::C)),
            0xB2 => Some(Instruction::RES(6,PrefixTarget::D)),
            0xB3 => Some(Instruction::RES(6,PrefixTarget::E)),
            0xB4 => Some(Instruction::RES(6,PrefixTarget::H)),
            0xB5 => Some(Instruction::RES(6,PrefixTarget::L)),
            0xB6 => Some(Instruction::RES(6,PrefixTarget::HL)),
            0xB7 => Some(Instruction::RES(6,PrefixTarget::A)),
            0xB8 => Some(Instruction::RES(7,PrefixTarget::B)),
            0xB9 => Some(Instruction::RES(7,PrefixTarget::C)),
            0xBA => Some(Instruction::RES(7,PrefixTarget::D)),
            0xBB => Some(Instruction::RES(7,PrefixTarget::E)),
            0xBC => Some(Instruction::RES(7,PrefixTarget::H)),
            0xBD => Some(Instruction::RES(7,PrefixTarget::L)),
            0xBE => Some(Instruction::RES(7,PrefixTarget::HL)),
            0xBF => Some(Instruction::RES(7,PrefixTarget::A)),
            0xC0 => Some(Instruction::SET(0,PrefixTarget::B)),
            0xC1 => Some(Instruction::SET(0,PrefixTarget::C)),
            0xC2 => Some(Instruction::SET(0,PrefixTarget::D)),
            0xC3 => Some(Instruction::SET(0,PrefixTarget::E)),
            0xC4 => Some(Instruction::SET(0,PrefixTarget::H)),
            0xC5 => Some(Instruction::SET(0,PrefixTarget::L)),
            0xC6 => Some(Instruction::SET(0,PrefixTarget::HL)),
            0xC7 => Some(Instruction::SET(0,PrefixTarget::A)),
            0xC8 => Some(Instruction::SET(1,PrefixTarget::B)),
            0xC9 => Some(Instruction::SET(1,PrefixTarget::C)),
            0xCA => Some(Instruction::SET(1,PrefixTarget::D)),
            0xCB => Some(Instruction::SET(1,PrefixTarget::E)),
            0xCC => Some(Instruction::SET(1,PrefixTarget::H)),
            0xCD => Some(Instruction::SET(1,PrefixTarget::L)),
            0xCE => Some(Instruction::SET(1,PrefixTarget::HL)),
            0xCF => Some(Instruction::SET(1,PrefixTarget::A)),
            0xD0 => Some(Instruction::SET(2,PrefixTarget::B)),
            0xD1 => Some(Instruction::SET(2,PrefixTarget::C)),
            0xD2 => Some(Instruction::SET(2,PrefixTarget::D)),
            0xD3 => Some(Instruction::SET(2,PrefixTarget::E)),
            0xD4 => Some(Instruction::SET(2,PrefixTarget::H)),
            0xD5 => Some(Instruction::SET(2,PrefixTarget::L)),
            0xD6 => Some(Instruction::SET(2,PrefixTarget::HL)),
            0xD7 => Some(Instruction::SET(2,PrefixTarget::A)),
            0xD8 => Some(Instruction::SET(3,PrefixTarget::B)),
            0xD9 => Some(Instruction::SET(3,PrefixTarget::C)),
            0xDA => Some(Instruction::SET(3,PrefixTarget::D)),
            0xDB => Some(Instruction::SET(3,PrefixTarget::E)),
            0xDC => Some(Instruction::SET(3,PrefixTarget::H)),
            0xDD => Some(Instruction::SET(3,PrefixTarget::L)),
            0xDE => Some(Instruction::SET(3,PrefixTarget::HL)),
            0xDF => Some(Instruction::SET(3,PrefixTarget::A)),
            0xE0 => Some(Instruction::SET(4,PrefixTarget::B)),
            0xE1 => Some(Instruction::SET(4,PrefixTarget::C)),
            0xE2 => Some(Instruction::SET(4,PrefixTarget::D)),
            0xE3 => Some(Instruction::SET(4,PrefixTarget::E)),
            0xE4 => Some(Instruction::SET(4,PrefixTarget::H)),
            0xE5 => Some(Instruction::SET(4,PrefixTarget::L)),
            0xE6 => Some(Instruction::SET(4,PrefixTarget::HL)),
            0xE7 => Some(Instruction::SET(4,PrefixTarget::A)),
            0xE8 => Some(Instruction::SET(5,PrefixTarget::B)),
            0xE9 => Some(Instruction::SET(5,PrefixTarget::C)),
            0xEA => Some(Instruction::SET(5,PrefixTarget::D)),
            0xEB => Some(Instruction::SET(5,PrefixTarget::E)),
            0xEC => Some(Instruction::SET(5,PrefixTarget::H)),
            0xED => Some(Instruction::SET(5,PrefixTarget::L)),
            0xEE => Some(Instruction::SET(5,PrefixTarget::HL)),
            0xEF => Some(Instruction::SET(5,PrefixTarget::A)),
            0xF0 => Some(Instruction::SET(6,PrefixTarget::B)),
            0xF1 => Some(Instruction::SET(6,PrefixTarget::C)),
            0xF2 => Some(Instruction::SET(6,PrefixTarget::D)),
            0xF3 => Some(Instruction::SET(6,PrefixTarget::E)),
            0xF4 => Some(Instruction::SET(6,PrefixTarget::H)),
            0xF5 => Some(Instruction::SET(6,PrefixTarget::L)),
            0xF6 => Some(Instruction::SET(6,PrefixTarget::HL)),
            0xF7 => Some(Instruction::SET(6,PrefixTarget::A)),
            0xF8 => Some(Instruction::SET(7,PrefixTarget::B)),
            0xF9 => Some(Instruction::SET(7,PrefixTarget::C)),
            0xFA => Some(Instruction::SET(7,PrefixTarget::D)),
            0xFB => Some(Instruction::SET(7,PrefixTarget::E)),
            0xFC => Some(Instruction::SET(7,PrefixTarget::H)),
            0xFD => Some(Instruction::SET(7,PrefixTarget::L)),
            0xFE => Some(Instruction::SET(7,PrefixTarget::HL)),
            0xFF => Some(Instruction::SET(7,PrefixTarget::A)),
            _ => None,
        }
    }

    pub fn from_byte_not_prefixed(byte: u8) -> (r: Option<Instruction>)
        ensures
            r == decode_unprefixed(byte),
    {
        match byte {
            0x00 => Some(Instruction::NOP()),
            0x01 => Some(Instruction::LD(LoadType::Byte(LoadByteTarget::BC, LoadByteSource::D16))),
            0x03 => Some(Instruction::INC(IncDecTarget::BC)),
            0x04 => Some(Instruction::INC(IncDecTarget::B)),
            0x05 => Some(Instruction::DEC(IncDecTarget::BC)),
            0x06 => Some(Instruction::LD(LoadType::Byte(LoadByteTarget::B, LoadByteSource::D8))),
            0x07 => Some(Instruction::RLCA()),
            0x08 => Some(Instruction::LD(LoadType::Byte(LoadByteTarget::A16, LoadByteSource::SP))),
            0x09 => Some(Instruction::ADDHL(ArithmeticTarget::BC)),
            0x0A => Some(Instruction::LD(LoadType::Byte(LoadByteTarget::A, LoadByteSource::BC))),
            0x0B => Some(Instruction::DEC(IncDecTarget::BC)),
            0x0C => Some(Instruction::INC(IncDecTarget::C)),
            0x0D => Some(Instruction::DEC(IncDecTarget::C)),
            0x0E => Some(Instruction::LD(LoadType::Byte(LoadByteTarget::C, LoadByteSource::D8))),
            0x0F => Some(Instruction::RRCA()),
            0x10 => Some(Instruction::STOP()),
            0x11 => Some(Instruction::LD(LoadType::Byte(LoadByteTarget::DE, LoadByteSource::D16))),
            0x12 => Some(Instruction::LD(LoadType::Byte(LoadByteTarget::DE, LoadByteSource::A))),
            0x13 => Some(Instruction::INC(IncDecTarget::DE)),
            0x14 => Some(Instruction::INC(IncDecTarget::D)),
            0x15 => Some(Instruction::DEC(IncDecTarget::D)),
            0x16 => Some(Instruction::LD(LoadType::Byte(LoadByteTarget::D, LoadByteSource::D8))),
            0x17 => Some(Instruction::RLA()),
            0x18 => Some(Instruction::JR(JumpTest::Always)),
            0x19 => Some(Instruction::ADDHL(ArithmeticTarget::DE)),
            0x1A => Some(Instruction::LD(LoadType::Byte(LoadByteTarget::A, LoadByteSource::DE))),
            0x1B => Some(Instruction::DEC(IncDecTarget::DE)),
            0x1C => Some(Instruction::INC(IncDecTarget::E)),
            0x1D => Some(Instruction::DEC(IncDecTarget::E)),
            0x1E => Some(Instruction::LD(LoadType::Byte(LoadByteTarget::E, LoadByteSource::D8))),
            0x1F => Some(Instruction::RRA()),
            0x20 => Some(Instruction::JR(JumpTest::NotZero)),
            0x21 => Some(Instruction::LD(LoadType::Byte(LoadByteTarget::HL, LoadByteSource::D16))),
            0x22 => Some(Instruction::LD(LoadType::Byte(LoadByteTarget::HLI, LoadByteSource::D8))),
            0x23 => Some(Instruction::INC(IncDecTarget::HL)),
            0x24 => Some(Instruction::INC(IncDecTarget::H)),
            0x25 => Some(Instruction::DEC(IncDecTarget::H)),
            0x26 => Some(Instruction::LD(LoadType::Byte(LoadByteTarget::H, LoadByteSource::D8))),
            0x27 => Some(Instruction::DAA()),
            0x28 => Some(Instruction::JR(JumpTest::Zero)),
            0x29 => Some(Instruction::ADDHL(ArithmeticTarget::HL)),
            0x2A => Some(Instruction::LD(LoadType::Byte(LoadByteTarget::A, LoadByteSource::HLI))),
            0x2B => Some(Instruction::DEC(IncDecTarget::HL)),
            0x2C => Some(Instruction::INC(IncDecTarget::L)),
            0x2D => Some(Instruction::DEC(IncDecTarget::L)),
            0x2E => Some(Instruction::LD(LoadType::Byte(LoadByteTarget::L, LoadByteSource::D8))),
            0x2F => Some(Instruction::CPL()),
            0x30 => Some(Instruction::JR(JumpTest::NotCarry)),
            0x31 => Some(Instruction::LD(LoadType::Byte(LoadByteTarget::SP, LoadByteSource::D16))),
            0x32 => Some(Instruction::LD(LoadType::Byte(LoadByteTarget::HLD, LoadByteSource::A))),
            0x33 => Some(Instruction::INC(IncDecTarget::SP)),
            0x34 => Some(Instruction::INC(IncDecTarget::HL)),
            0x35 => Some(Instruction::DEC(IncDecTarget::HL)),
            0x36 => Some(Instruction::LD(LoadType::Byte(LoadByteTarget::HL, LoadByteSource::D8))),
            0x37 => Some(Instruction::SCF()),
            0x38 => Some(Instruction::JR(JumpTest::Carry)),
            0x39 => Some(Instruction::ADDHL(ArithmeticTarget::SP)),
            0x3A => Some(Instruction::LD(LoadType::Byte(LoadByteTarget::A, LoadByteSource::HLD))),
            0x3B => Some(Instruction::DEC(IncDecTarget::SP)),
            0x3C => Some(Instruction::INC(IncDecTarget::A)),
            0x3D => Some(Instruction::DEC(IncDecTarget::A)),
            0x3E => Some(Instruction::LD(LoadType::Byte(LoadByteTarget::A, LoadByteSource::D8))),
            0x3F => Some(Instruction::CCF()),
            0x40 => Some(Instruction::LD(LoadType::Byte(LoadByteTarget::B, LoadByteSource::B))),
            0x41 => Some(Instruction::LD(LoadType::Byte(LoadByteTarget::B, LoadByteSource::C))),
            0x42 => Some(Instruction::LD(LoadType::Byte(LoadByteTarget::B, LoadByteSource::D))),
            0x43 => Some(Instruction::LD(LoadType::Byte(LoadByteTarget::B, LoadByteSource::E))),
            0x44 => Some(Instruction::LD(LoadType::Byte(LoadByteTarget::B, LoadByteSource::H))),
            0x45 => Some(Instruction::LD(LoadType::Byte(LoadByteTarget::B, LoadByteSource::L))),
            0x46 => Some(Instruction::LD(LoadType::Byte(LoadByteTarget::B, LoadByteSource::HL))),
            0x47 => Some(Instruction::LD(LoadType::Byte(LoadByteTarget::B, LoadByteSource::A))),
            0x48 => Some(Instruction::LD(LoadType::Byte(LoadByteTarget::C, LoadByteSource::B))),
            0x49 => Some(Instruction::LD(LoadType::Byte(LoadByteTarget::C, LoadByteSource::C))),
            0x4A => Some(Instruction::LD(LoadType::Byte(LoadByteTarget::C, LoadByteSource::D))),
            0x4B => Some(Instruction::LD(LoadType::Byte(LoadByteTarget::C, LoadByteSource::E))),
            0x4C => Some(Instruction::LD(LoadType::Byte(LoadByteTarget::C, LoadByteSource::H))),
            0x4D => Some(Instruction::LD(LoadType::Byte(LoadByteTarget::C, LoadByteSource::L))),
            0x4E => Some(Instruction::LD(LoadType::Byte(LoadByteTarget::C, LoadByteSource::HL))),
            0x4F => Some(Instruction::LD(LoadType::Byte(LoadByteTarget::C, LoadByteSource::A))),
            0x50 => Some(Instruction::LD(LoadType::Byte(LoadByteTarget::D, LoadByteSource::B))),
            0x51 => Some(Instruction::LD(LoadType::Byte(LoadByteTarget::D, LoadByteSource::C))),
            0x52 => Some(Instruction::LD(LoadType::Byte(LoadByteTarget::D, LoadByteSource::D))),
            0x53 => Some(Instruction::LD(LoadType::Byte(LoadByteTarget::D, LoadByteSource::E))),
            0x54 => Some(Instruction::LD(LoadType::Byte(LoadByteTarget::D, LoadByteSource::H))),
            0x55 => Some(Instruction::LD(LoadType::Byte(LoadByteTarget::D, LoadByteSource::L))),
            0x56 => Some(Instruction::LD(LoadType::Byte(LoadByteTarget::D, LoadByteSource::HL))),
            0x57 => Some(Instruction::LD(LoadType::Byte(LoadByteTarget::D, LoadByteSource::A))),
            0x58 => Some(Instruction::LD(LoadType::Byte(LoadByteTarget::E, LoadByteSource::B))),
            0x59 => Some(Instruction::LD(LoadType::Byte(LoadByteTarget::E, LoadByteSource::C))),
            0x5A => Some(Instruction::LD(LoadType::Byte(LoadByteTarget::E, LoadByteSource::D))),
            0x5B => Some(Instruction::LD(LoadType::Byte(LoadByteTarget::E, LoadByteSource::E))),
            0x5C => Some(Instruction::LD(LoadType::Byte(LoadByteTarget::E, LoadByteSource::H))),
            0x5D => Some(Instruction::LD(LoadType::Byte(LoadByteTarget::E, LoadByteSource::L))),
            0x5E => Some(Instruction::LD(LoadType::Byte(LoadByteTarget::E, LoadByteSource::HL))),
            0x5F => Some(Instruction::LD(LoadType::Byte(LoadByteTarget::E, LoadByteSource::A))),
            0x60 => Some(Instruction::LD(LoadType::Byte(LoadByteTarget::H, LoadByteSource::B))),
            0x61 => Some(Instruction::LD(LoadType::Byte(LoadByteTarget::H, LoadByteSource::C))),
            0x62 => Some(Instruction::LD(LoadType::Byte(LoadByteTarget::H, LoadByteSource::D))),
            0x63 => Some(Instruction::LD(LoadType::Byte(LoadByteTarget::H, LoadByteSource::E))),
            0x64 => Some(Instruction::LD(LoadType::Byte(LoadByteTarget::H, LoadByteSource::H))),
            0x65 => Some(Instruction::LD(LoadType::Byte(LoadByteTarget::H, LoadByteSource::L))),
            0x66 => Some(Instruction::LD(LoadType::Byte(LoadByteTarget::H, LoadByteSource::HL))),
            0x67 => Some(Instruction::LD(LoadType::Byte(LoadByteTarget::H, LoadByteSource::A))),
            0x68 => Some(Instruction::LD(LoadType::Byte(LoadByteTarget::L, LoadByteSource::B))),
            0x69 => Some(Instruction::LD(LoadType::Byte(LoadByteTarget::L, LoadByteSource::C))),
            0x6A => Some(Instruction::LD(LoadType::Byte(LoadByteTarget::L, LoadByteSource::D))),
            0x6B => Some(Instruction::LD(LoadType::Byte(LoadByteTarget::L, LoadByteSource::E))),
            0x6C => Some(Instruction::LD(LoadType::Byte(LoadByteTarget::L, LoadByteSource::H))),
            0x6D => Some(Instruction::LD(LoadType::Byte(LoadByteTarget::L, LoadByteSource::L))),
            0x6E => Some(Instruction::LD(LoadType::Byte(LoadByteTarget::L, LoadByteSource::HL))),
            0x6F => Some(Instruction::LD(LoadType::Byte(LoadByteTarget::L, LoadByteSource::A))),
            0x70 => Some(Instruction::LD(LoadType::Byte(LoadByteTarget::HL, LoadByteSource::B))),
            0x71 => Some(Instruction::LD(LoadType::Byte(LoadByteTarget::HL, LoadByteSource::C))),
            0x72 => Some(Instruction::LD(LoadType::Byte(LoadByteTarget::HL, LoadByteSource::D))),
            0x73 => Some(Instruction::LD(LoadType::Byte(LoadByteTarget::HL, LoadByteSource::E))),
            0x74 => Some(Instruction::LD(LoadType::Byte(LoadByteTarget::HL, LoadByteSource::H))),
            0x75 => Some(Instruction::LD(LoadType::Byte(LoadByteTarget::HL, LoadByteSource::L))),
            0x76 => Some(Instruction::HALT()),
            0x77 => Some(Instruction::LD(LoadType::Byte(LoadByteTarget::HL, LoadByteSource::A))),
            0x78 => Some(Instruction::LD(LoadType::Byte(LoadByteTarget::A, LoadByteSource::B))),
            0x79 => Some(Instruction::LD(LoadType::Byte(LoadByteTarget::A, LoadByteSource::C))),
            0x7A => Some(Instruction::LD(LoadType::Byte(LoadByteTarget::A, LoadByteSource::D))),
            0x7B => Some(Instruction::LD(LoadType::Byte(LoadByteTarget::A, LoadByteSource::E))),
            0x7C => Some(Instruction::LD(LoadType::Byte(LoadByteTarget::A, LoadByteSource::H))),
            0x7D => Some(Instruction::LD(LoadType::Byte(LoadByteTarget::A, LoadByteSource::L))),
            0x7E => Some(Instruction::LD(LoadType::Byte(LoadByteTarget::A, LoadByteSource::HL))),
            0x7F => Some(Instruction::LD(LoadType::Byte(LoadByteTarget::A, LoadByteSource::A))),
            0x81 => Some(Instruction::ADD(ArithmeticTarget::B)),
            0x82 => Some(Instruction::ADD(ArithmeticTarget::D)),
            0x83 => Some(Instruction::ADD(ArithmeticTarget::E)),
            0x84 => Some(Instruction::ADD(ArithmeticTarget::H)),
            0x85 => Some(Instruction::ADD(ArithmeticTarget::L)),
            0x86 => Some(Instruction::ADD(ArithmeticTarget::HL)),
            0x87 => Some(Instruction::ADD(ArithmeticTarget::A)),
            0x88 => Some(Instruction::ADC(ArithmeticTarget::B)),
            0x89 => Some(Instruction::ADC(ArithmeticTarget::C)),
            0x8A => Some(Instruction::ADC(ArithmeticTarget::D)),
            0x8B => Some(Instruction::ADC(ArithmeticTarget::E)),
            0x8C => Some(Instruction::ADC(ArithmeticTarget::H)),
            0x8D => Some(Instruction::ADC(ArithmeticTarget::L)),
            0x8E => Some(Instruction::ADC(ArithmeticTarget::HL)),
            0x8F => Some(Instruction::ADC(ArithmeticTarget::A)),
            0x90 => Some(Instruction::SUB(ArithmeticTarget::B)),
            0x91 => Some(Instruction::SUB(ArithmeticTarget::C)),
            0x92 => Some(Instruction::SUB(ArithmeticTarget::D)),
            0x93 => Some(Instruction::SUB(ArithmeticTarget::E)),
            0x94 => Some(Instruction::SUB(ArithmeticTarget::H)),
            0x95 => Some(Instruction::SUB(ArithmeticTarget::L)),
            0x96 => Some(Instruction::SUB(ArithmeticTarget::HL)),
            0x97 => Some(Instruction::SUB(ArithmeticTarget::A)),
            0x98 => Some(Instruction::SBC(ArithmeticTarget::B)),
            0x99 => Some(Instruction::SBC(ArithmeticTarget::C)),
            0x9A => Some(Instruction::SBC(ArithmeticTarget::D)),
            0x9B => Some(Instruction::SBC(ArithmeticTarget::E)),
            0x9C => Some(Instruction::SBC(ArithmeticTarget::H)),
            0x9D => Some(Instruction::SBC(ArithmeticTarget::L)),
            0x9E => Some(Instruction::SBC(ArithmeticTarget::HL)),
            0x9F => Some(Instruction::SBC(ArithmeticTarget::A)),
            0xA0 => Some(Instruction::AND(ArithmeticTarget::B)),
            0xA1 => Some(Instruction::AND(ArithmeticTarget::C)),
            0xA2 => Some(Instruction::AND(ArithmeticTarget::D)),
            0xA3 => Some(Instruction::AND(ArithmeticTarget::E)),
            0xA4 => Some(Instruction::AND(ArithmeticTarget::H)),
            0xA5 => Some(Instruction::AND(ArithmeticTarget::L)),
            0xA6 => Some(Instruction::AND(ArithmeticTarget::HL)),
            0xA7 => Some(Instruction::AND(ArithmeticTarget::A)),
            0xA8 => Some(Instruction::XOR(ArithmeticTarget::B)),
            0xA9 => Some(Instruction::XOR(ArithmeticTarget::C)),
            0xAA => Some(Instruction::XOR(ArithmeticTarget::D)),
            0xAB => Some(Instruction::XOR(ArithmeticTarget::E)),
            0xAC => Some(Instruction::XOR(ArithmeticTarget::H)),
            0xAD => Some(Instruction::XOR(ArithmeticTarget::HL)),
            0xAE => Some(Instruction::XOR(ArithmeticTarget::L)),
            0xAF => Some(Instruction::XOR(ArithmeticTarget::A)),
            0xB0 => Some(Instruction::OR(ArithmeticTarget::B)),
            0xB1 => Some(Instruction::OR(ArithmeticTarget::C)),
            0xB2 => Some(Instruction::OR(ArithmeticTarget::D)),
            0xB3 => Some(Instruction::OR(ArithmeticTarget::E)),
            0xB4 => Some(Instruction::OR(ArithmeticTarget::H)),
            0xB5 => Some(Instruction::OR(ArithmeticTarget::HL)),
            0xB6 => Some(Instruction::OR(ArithmeticTarget::L)),
            0xB7 => Some(Instruction::OR(ArithmeticTarget::A)),
            0xB8 => Some(Instruction::CP(ArithmeticTarget::B)),
            0xB9 => Some(Instruction::CP(ArithmeticTarget::C)),
            0xBA => Some(Instruction::CP(ArithmeticTarget::D)),
            0xBB => Some(Instruction::CP(ArithmeticTarget::E)),
            0xBC => Some(Instruction::CP(ArithmeticTarget::H)),
            0xBD => Some(Instruction::CP(ArithmeticTarget::HL)),
            0xBE => Some(Instruction::CP(ArithmeticTarget::L)),
            0xBF => Some(Instruction::CP(ArithmeticTarget::A)),
            0xC0 => Some(Instruction::RET(JumpTest::NotZero)),
            0xC1 => Some(Instruction::POP(StackTarget::BC)),
            0xC2 => Some(Instruction::JP(JumpTest::NotZero,JumpTarget::A16)),
            0xC3 => Some(Instruction::JP(JumpTest::Always,JumpTarget::A16)),
            0xC4 => Some(Instruction::CALL(JumpTest::NotZero)),
            0xC5 => Some(Instruction::PUSH(StackTarget::BC)),
            0xC6 => Some(Instruction::ADD(ArithmeticTarget::D8)),
            0xC7 => Some(Instruction::RST(RestartTarget::H00)),
            0xC8 => Some(Instruction::RET(JumpTest::Zero)),
            0xC9 => Some(Instruction::RET(JumpTest::Always)),
            0xCA => Some(Instruction::JP(JumpTest::Zero,JumpTarget::A16)),
            0xCB => Some(Instruction::PREFIX()),
            0xCC => Some(Instruction::CALL(JumpTest::Zero)),
            0xCD => Some(Instruction::CALL(JumpTest::Always)),
            0xCE => Some(Instruction::ADC(ArithmeticTarget::D8)),
            0xCF => Some(Instruction::RST(RestartTarget::H08)),
            0xD0 => Some(Instruction::RET(JumpTest::NotCarry)),
            0xD1 => Some(Instruction::POP(StackTarget::DE)),
            0xD2 => Some(Instruction::JP(JumpTest::NotCarry,JumpTarget::A16)),
            0xD3 => None,
            0xD4 => Some(Instruction::CALL(JumpTest::NotCarry)),
            0xD5 => Some(Instruction::PUSH(StackTarget::DE)),
            0xD6 => Some(Instruction::SUB(ArithmeticTarget::D8)),
            0xD7 => Some(Instruction::RST(RestartTarget::H10)),
            0xD8 => Some(Instruction::RET(JumpTest::Carry)),
            0xD9 => Some(Instruction::RETI()),
            0xDA => Some(Instruction::JP(JumpTest::Carry,JumpTarget::A16)),
            0xDB => None,
            0xDC => Some(Instruction::CALL(JumpTest::Carry)),
            0xDD => None,
            0xDE => Some(Instruction::SBC(ArithmeticTarget::D8)),
            0xDF => Some(Instruction::RST(RestartTarget::H18)),
            0xE0 => Some(Instruction::LDH(LoadType::Byte(LoadByteTarget::A8, LoadByteSource::A))),
            0xE1 => Some(Instruction::POP(StackTarget::HL)),
            0xE2 => Some(Instruction::LD(LoadType::Byte(LoadByteTarget::FF00C, LoadByteSource::A))),
            0xE3 => None,
            0xE4 => None,
            0xE5 => Some(Instruction::PUSH(StackTarget::HL)),
            0xE6 => Some(Instruction::AND(ArithmeticTarget::D8)),
            0xE7 => Some(Instruction::RST(RestartTarget::H20)),
            0xE8 => Some(Instruction::ADD(ArithmeticTarget::SP)),
            0xE9 => Some(Instruction::JP(JumpTest::Always,JumpTarget::HL)),
            0xEA => Some(Instruction::LD(LoadType::Byte(LoadByteTarget::A16, LoadByteSource::A))),
            0xEB => None,
            0xEC => None,
            0xED => None,
            0xEE => Some(Instruction::XOR(ArithmeticTarget::D8)),
            0xEF => Some(Instruction::RST(RestartTarget::H28)),
            0xF0 => Some(Instruction::LDH(LoadType::Byte(LoadByteTarget::A, LoadByteSource::A8))),
            0xF1 => Some(Instruction::POP(StackTarget::AF)),
            0xF2 => Some(Instruction::LD(LoadType::Byte(LoadByteTarget::A, LoadByteSource::FF00C))),
            0xF3 => Some(Instruction::DI()),
            0xF4 => None,
            0xF5 => Some(Instruction::PUSH(StackTarget::AF)),
            0xF6 => Some(Instruction::OR(ArithmeticTarget::D8)),
            0xF7 => Some(Instruction::RST(RestartTarget::H30)),
            0xF8 => Some(Instruction::LD(LoadType::Byte(LoadByteTarget::HL, LoadByteSource::SP))),
            0xF9 => Some(Instruction::LD(LoadType::Byte(LoadByteTarget::SP, LoadByteSource::HL))),
            0xFA => Some(Instruction::LD(LoadType::Byte(LoadByteTarget::A, LoadByteSource::A16))),
            0xFB => Some(Instruction::EI()),
            0xFC => None,
            0xFD => None,
            0xFE => Some(Instruction::CP(ArithmeticTarget::D8)),
            0xFF => Some(Instruction::RST(RestartTarget::H38)),
            _ => None,
        }
    }
}


/// The name of a register operand.
pub open spec fn reg_name(t: PrefixTarget) -> Seq<char> {
    match t {
        PrefixTarget::A => "A"@,
        PrefixTarget::B => "B"@,
        PrefixTarget::C => "C"@,
        PrefixTarget::D => "D"@,
        PrefixTarget::E => "E"@,
        PrefixTarget::H => "H"@,
        PrefixTarget::L => "L"@,
        PrefixTarget::HL => "(HL)"@,
    }
}

fn reg_str(t: PrefixTarget) -> (r: &'static str)
    ensures
        r@ == reg_name(t),
{
    match t {
        PrefixTarget::A => "A",
        PrefixTarget::B => "B",
        PrefixTarget::C => "C",
        PrefixTarget::D => "D",
        PrefixTarget::E => "E",
        PrefixTarget::H => "H",
        PrefixTarget::L => "L",
        PrefixTarget::HL => "(HL)",
    }
}

/// The name of an 8-bit ALU operand, if the mnemonic tables name it.
pub open spec fn alu_operand_name(t: ArithmeticTarget) -> Option<Seq<char>> {
    match t {
        ArithmeticTarget::A => Some("A"@),
        ArithmeticTarget::B => Some("B"@),
        ArithmeticTarget::C => Some("C"@),
        ArithmeticTarget::D => Some("D"@),
        ArithmeticTarget::E => Some("E"@),
        ArithmeticTarget::H => Some("H"@),
        ArithmeticTarget::L => Some("L"@),
        ArithmeticTarget::HL => Some("(HL)"@),
        ArithmeticTarget::D8 => Some("d8"@),
        _ => None,
    }
}

fn alu_operand_str(t: ArithmeticTarget) -> (r: Option<&'static str>)
    ensures
        alu_operand_name(t) is Some <==> r is Some,
        r is Some ==> r->0@ == alu_operand_name(t)->0,
{
    match t {
        ArithmeticTarget::A => Some("A"),
        ArithmeticTarget::B => Some("B"),
        ArithmeticTarget::C => Some("C"),
        ArithmeticTarget::D => Some("D"),
        ArithmeticTarget::E => Some("E"),
        ArithmeticTarget::H => Some("H"),
        ArithmeticTarget::L => Some("L"),
        ArithmeticTarget::HL => Some("(HL)"),
        ArithmeticTarget::D8 => Some("d8"),
        _ => None,
    }
}

/// The name of an INC/DEC operand.
pub open spec fn incdec_name(t: IncDecTarget) -> Seq<char> {
    match t {
        IncDecTarget::A => "A"@,
        IncDecTarget::B => "B"@,
        IncDecTarget::C => "C"@,
        IncDecTarget::D => "D"@,
        IncDecTarget::E => "E"@,
        IncDecTarget::H => "H"@,
        IncDecTarget::L => "L"@,
        IncDecTarget::HLP => "(HL)"@,
        IncDecTarget::BC => "BC"@,
        IncDecTarget::DE => "DE"@,
        IncDecTarget::HL => "HL"@,
        IncDecTarget::SP => "SP"@,
    }
}

fn incdec_str(t: IncDecTarget) -> (r: &'static str)
    ensures
        r@ == incdec_name(t),
{
    match t {
        IncDecTarget::A => "A",
        IncDecTarget::B => "B",
        IncDecTarget::C => "C",
        IncDecTarget::D => "D",
        IncDecTarget::E => "E",
        IncDecTarget::H => "H",
        IncDecTarget::L => "L",
        IncDecTarget::HLP => "(HL)",
        IncDecTarget::BC => "BC",
        IncDecTarget::DE => "DE",
        IncDecTarget::HL => "HL",
        IncDecTarget::SP => "SP",
    }
}

/// The condition of a jump as it prefixes the operand: "" for always, then
/// "C,", "NC,", "NZ,", "Z,".
pub open spec fn cond_name(test: JumpTest) -> Seq<char> {
    match test {
        JumpTest::Always => ""@,
        JumpTest::Carry => "C,"@,
        JumpTest::NotCarry => "NC,"@,
        JumpTest::NotZero => "NZ,"@,
        JumpTest::Zero => "Z,"@,
    }
}

fn cond_str(test: JumpTest) -> (r: &'static str)
    ensures
        r@ == cond_name(test),
{
    match test {
        JumpTest::Always => "",
        JumpTest::Carry => "C,",
        JumpTest::NotCarry => "NC,",
        JumpTest::NotZero => "NZ,",
        JumpTest::Zero => "Z,",
    }
}

/// The condition of a return: none for always, else C, NC, NZ, Z.
pub open spec fn ret_cond_name(test: JumpTest) -> Seq<char> {
    match test {
        JumpTest::Always => ""@,
        JumpTest::Carry => "C"@,
        JumpTest::NotCarry => "NC"@,
        JumpTest::NotZero => "NZ"@,
        JumpTest::Zero => "Z"@,
    }
}

fn ret_cond_str(test: JumpTest) -> (r: &'static str)
    ensures
        r@ == ret_cond_name(test),
{
    match test {
        JumpTest::Always => "",
        JumpTest::Carry => "C",
        JumpTest::NotCarry => "NC",
        JumpTest::NotZero => "NZ",
        JumpTest::Zero => "Z",
    }
}

pub open spec fn ld_target_name(t: LoadByteTarget) -> Seq<char> {
    match t {
        LoadByteTarget::A => "A,"@,
        LoadByteTarget::A16 => "(a16),"@,
        LoadByteTarget::A8 => "(a8),"@,
        LoadByteTarget::B => "B,"@,
        LoadByteTarget::C => "C,"@,
        LoadByteTarget::D => "D,"@,
        LoadByteTarget::E => "E,"@,
        LoadByteTarget::H => "H,"@,
        LoadByteTarget::L => "L,"@,
        LoadByteTarget::HLI => "(HL+),"@,
        LoadByteTarget::HLD => "(HL-),"@,
        LoadByteTarget::BC => "(BC),"@,
        LoadByteTarget::DE => "(DE),"@,
        LoadByteTarget::HL => "HL,"@,
        LoadByteTarget::SP => "SP,"@,
        LoadByteTarget::FF00C => "(C),"@,
    }
}

fn ld_target_str(t: LoadByteTarget) -> (r: &'static str)
    ensures
        r@ == ld_target_name(t),
{
    match t {
        LoadByteTarget::A => "A,",
        LoadByteTarget::A16 => "(a16),",
        LoadByteTarget::A8 => "(a8),",
        LoadByteTarget::B => "B,",
        LoadByteTarget::C => "C,",
        LoadByteTarget::D => "D,",
        LoadByteTarget::E => "E,",
        LoadByteTarget::H => "H,",
        LoadByteTarget::L => "L,",
        LoadByteTarget::HLI => "(HL+),",
        LoadByteTarget::HLD => "(HL-),",
        LoadByteTarget::BC => "(BC),",
        LoadByteTarget::DE => "(DE),",
        LoadByteTarget::HL => "HL,",
        LoadByteTarget::SP => "SP,",
        LoadByteTarget::FF00C => "(C),",
    }
}

pub open spec fn ld_source_name(src: LoadByteSource) -> Seq<char> {
    match src {
        LoadByteSource::A => "A"@,
        LoadByteSource::A16 => "(a16)"@,
        LoadByteSource::A8 => "(a8)"@,
        LoadByteSource::B => "B"@,
        LoadByteSource::C => "C"@,
        LoadByteSource::D => "D"@,
        LoadByteSource::E => "E"@,
        LoadByteSource::H => "H"@,
        LoadByteSource::L => "L"@,
        LoadByteSource::HLI => "(HL+)"@,
        LoadByteSource::HLD => "(HL-)"@,
        LoadByteSource::BC => "(BC)"@,
        LoadByteSource::DE => "(DE)"@,
        LoadByteSource::HL => "(HL)"@,
        LoadByteSource::SP => "SP"@,
        LoadByteSource::FF00C => "(C)"@,
        LoadByteSource::D8 => "d8"@,
        LoadByteSource::D16 => "d16"@,
    }
}

fn ld_source_str(src: LoadByteSource) -> (r: &'static str)
    ensures
        r@ == ld_source_name(src),
{
    match src {
        LoadByteSource::A => "A",
        LoadByteSource::A16 => "(a16)",
        LoadByteSource::A8 => "(a8)",
        LoadByteSource::B => "B",
        LoadByteSource::C => "C",
        LoadByteSource::D => "D",
        LoadByteSource::E => "E",
        LoadByteSource::H => "H",
        LoadByteSource::L => "L",
        LoadByteSource::HLI => "(HL+)",
        LoadByteSource::HLD => "(HL-)",
        LoadByteSource::BC => "(BC)",
        LoadByteSource::DE => "(DE)",
        LoadByteSource::HL => "(HL)",
        LoadByteSource::SP => "SP",
        LoadByteSource::FF00C => "(C)",
        LoadByteSource::D8 => "d8",
        LoadByteSource::D16 => "d16",
    }
}

pub open spec fn stack_name(t: StackTarget) -> Seq<char> {
    match t {
        StackTarget::AF => "AF"@,
        StackTarget::BC => "BC"@,
        StackTarget::DE => "DE"@,
        StackTarget::HL => "HL"@,
    }
}

fn stack_str(t: StackTarget) -> (r: &'static str)
    ensures
        r@ == stack_name(t),
{
    match t {
        StackTarget::AF => "AF",
        StackTarget::BC => "BC",
        StackTarget::DE => "DE",
        StackTarget::HL => "HL",
    }
}

/// The decimal digit `d` (0 to 9).
pub open spec fn digit_name(d: int) -> Seq<char> {
    if d == 0 {
        "0"@
    } else if d == 1 {
        "1"@
    } else if d == 2 {
        "2"@
    } else if d == 3 {
        "3"@
    } else if d == 4 {
        "4"@
    } else if d == 5 {
        "5"@
    } else if d == 6 {
        "6"@
    } else if d == 7 {
        "7"@
    } else if d == 8 {
        "8"@
    } else {
        "9"@
    }
}

/// A number written in decimal, without leading zeros.
pub open spec fn decimal_name(n: nat) -> Seq<char>
    decreases n,
{
    if n < 10 {
        digit_name(n as int)
    } else {
        decimal_name(n / 10) + digit_name((n % 10) as int)
    }
}

fn digit_str(d: u8) -> (r: &'static str)
    requires
        d < 10,
    ensures
        r@ == digit_name(d as int),
{
    match d {
        0 => "0",
        1 => "1",
        2 => "2",
        3 => "3",
        4 => "4",
        5 => "5",
        6 => "6",
        7 => "7",
        8 => "8",
        _ => "9",
    }
}

/// A byte in decimal.
fn decimal(n: u8) -> (r: String)
    ensures
        r@ == decimal_name(n as nat),
{
    if n < 10 {
        String::from_str(digit_str(n))
    } else if n < 100 {
        proof {
            assert(decimal_name((n / 10) as nat) == digit_name((n / 10) as int));
        }
        String::from_str(digit_str(n / 10)).concat(digit_str(n % 10))
    } else {
        proof {
            assert(decimal_name((n / 100) as nat) == digit_name((n / 100) as int));
            assert((n / 10) / 10 == n / 100);
            assert(decimal_name((n / 10) as nat) == digit_name((n / 100) as int) + digit_name(((n / 10) % 10) as int));
        }
        String::from_str(digit_str(n / 100)).concat(digit_str((n / 10) % 10)).concat(digit_str(n % 10))
    }
}

/// The mnemonic of an instruction, as a trace shows it.
pub open spec fn instruction_name_spec(i: Instruction) -> Seq<char> {
    match i {
        Instruction::ADD(t) => if t == ArithmeticTarget::SP {
            "ADD "@ + " SP,r8"@
        } else {
            match alu_operand_name(t) {
                Some(o) => "ADD "@ + "A,"@ + o,
                None => "Err"@,
            }
        },
        Instruction::ADC(t) => match alu_operand_name(t) {
            Some(o) => "ADC "@ + "A,"@ + o,
            None => "Err"@,
        },
        Instruction::SBC(t) => match alu_operand_name(t) {
            Some(o) => "SBC "@ + "A,"@ + o,
            None => "Err"@,
        },
        Instruction::SUB(t) => match alu_operand_name(t) {
            Some(o) => "SUB "@ + o,
            None => "Err"@,
        },
        Instruction::AND(t) => match alu_operand_name(t) {
            Some(o) => "AND "@ + o,
            None => "Err"@,
        },
        Instruction::OR(t) => match alu_operand_name(t) {
            Some(o) => "OR "@ + o,
            None => "Err"@,
        },
        Instruction::XOR(t) => match alu_operand_name(t) {
            Some(o) => "XOR "@ + o,
            None => "Err"@,
        },
        Instruction::CP(t) => match alu_operand_name(t) {
            Some(o) => "CP "@ + o,
            None => "Err"@,
        },
        Instruction::ADDHL(t) => match t {
            ArithmeticTarget::BC => "ADD "@ + "HL,BC"@,
            ArithmeticTarget::DE => "ADD "@ + "HL,DE"@,
            ArithmeticTarget::HL => "ADD "@ + "HL,HL"@,
            ArithmeticTarget::SP => "ADD "@ + "HL,SP"@,
            _ => "Err"@,
        },
        Instruction::INC(t) => "INC "@ + incdec_name(t),
        Instruction::DEC(t) => "DEC "@ + incdec_name(t),
        Instruction::RLC(t) => "RLC "@ + reg_name(t),
        Instruction::RRC(t) => "RRC "@ + reg_name(t),
        Instruction::RL(t) => "RL "@ + reg_name(t),
        Instruction::RR(t) => "RR "@ + reg_name(t),
        Instruction::SLA(t) => "SLA "@ + reg_name(t),
        Instruction::SRA(t) => "SRA "@ + reg_name(t),
        Instruction::SWAP(t) => "SWAP "@ + reg_name(t),
        Instruction::SRL(t) => "SRL "@ + reg_name(t),
        Instruction::JP(test, JumpTarget::A16) => "JP "@ + cond_name(test) + "a16"@,
        Instruction::JP(_, JumpTarget::HL) => "JP "@ + "(HL)"@,
        Instruction::JR(test) => "JR "@ + cond_name(test) + "r8"@,
        Instruction::CALL(test) => "CALL "@ + cond_name(test) + "a16"@,
        Instruction::RET(test) => "RET "@ + ret_cond_name(test),
        Instruction::LD(LoadType::Byte(t, src)) | Instruction::LDH(LoadType::Byte(t, src)) => if src
            == LoadByteSource::A8 {
            "LDH A,(a8)"@
        } else if t == LoadByteTarget::A8 {
            "LDH (a8),"@ + ld_source_name(src)
        } else {
            "LD "@ + ld_target_name(t) + ld_source_name(src)
        },
        Instruction::PUSH(t) => "PUSH "@ + stack_name(t),
        Instruction::POP(t) => "POP "@ + stack_name(t),
        Instruction::NOP() => "NOP"@,
        Instruction::BIT(b, t) => "BIT "@ + decimal_name(b as nat) + reg_name(t),
        Instruction::RES(b, t) => "RES "@ + decimal_name(b as nat) + reg_name(t),
        Instruction::SET(b, t) => "SET "@ + decimal_name(b as nat) + reg_name(t),
        Instruction::RLCA() => "RLCA"@,
        Instruction::RRCA() => "RRCA"@,
        Instruction::RLA() => "RLA"@,
        Instruction::RRA() => "RRA"@,
        Instruction::DAA() => "DAA"@,
        Instruction::CPL() => "CPL"@,
        Instruction::SCF() => "SCF"@,
        Instruction::CCF() => "CCF"@,
        Instruction::RETI() => "RETI"@,
        Instruction::HALT() => "HALT"@,
        Instruction::STOP() => "STOP"@,
        Instruction::DI() => "DI"@,
        Instruction::EI() => "EI"@,
        Instruction::PREFIX() => "PREFIX"@,
        Instruction::RST(_) => "RST"@,
    }
}

/// The mnemonic of an ALU instruction: `prefix` then the operand, or "Err"
/// for an operand the tables do not name.
fn alu_name(mnemonic: &str, target: ArithmeticTarget) -> (r: String)
    ensures
        alu_operand_name(target) is Some ==> r@ == mnemonic@ + alu_operand_name(target)->0,
        alu_operand_name(target) is None ==> r@ == "Err"@,
{
    match alu_operand_str(target) {
        Some(o) => String::from_str(mnemonic).concat(o),
        None => String::from_str("Err"),
    }
}

/// The string corresponding to an instruction, as the trace prints it.
pub fn instruction_name(instruction: &Instruction) -> (r: String)
    ensures
        r@ == instruction_name_spec(*instruction),
{
    match *instruction {
        Instruction::ADD(target) => match target {
            ArithmeticTarget::SP => String::from_str("ADD ").concat(" SP,r8"),
            _ => match alu_operand_str(target) {
                Some(o) => {
                    let r = String::from_str("ADD ").concat("A,").concat(o);
                    assert(r@ == "ADD "@ + "A,"@ + o@);
                    r
                },
                None => String::from_str("Err"),
            },
        },
        Instruction::ADC(target) => match alu_operand_str(target) {
            Some(o) => String::from_str("ADC ").concat("A,").concat(o),
            None => String::from_str("Err"),
        },
        Instruction::SBC(target) => match alu_operand_str(target) {
            Some(o) => String::from_str("SBC ").concat("A,").concat(o),
            None => String::from_str("Err"),
        },
        Instruction::SUB(target) => alu_name("SUB ", target),
        Instruction::AND(target) => alu_name("AND ", target),
        Instruction::OR(target) => alu_name("OR ", target),
        Instruction::XOR(target) => alu_name("XOR ", target),
        Instruction::CP(target) => alu_name("CP ", target),
        Instruction::ADDHL(target) => match target {
            ArithmeticTarget::BC => String::from_str("ADD ").concat("HL,BC"),
            ArithmeticTarget::DE => String::from_str("ADD ").concat("HL,DE"),
            ArithmeticTarget::HL => String::from_str("ADD ").concat("HL,HL"),
            ArithmeticTarget::SP => String::from_str("ADD ").concat("HL,SP"),
            _ => String::from_str("Err"),
        },
        Instruction::INC(target) => String::from_str("INC ").concat(incdec_str(target)),
        Instruction::DEC(target) => String::from_str("DEC ").concat(incdec_str(target)),
        Instruction::RLC(target) => String::from_str("RLC ").concat(reg_str(target)),
        Instruction::RRC(target) => String::from_str("RRC ").concat(reg_str(target)),
        Instruction::RL(target) => String::from_str("RL ").concat(reg_str(target)),
        Instruction::RR(target) => String::from_str("RR ").concat(reg_str(target)),
        Instruction::SLA(target) => String::from_str("SLA ").concat(reg_str(target)),
        Instruction::SRA(target) => String::from_str("SRA ").concat(reg_str(target)),
        Instruction::SWAP(target) => String::from_str("SWAP ").concat(reg_str(target)),
        Instruction::SRL(target) => String::from_str("SRL ").concat(reg_str(target)),
        Instruction::JP(test, target) => match target {
            JumpTarget::A16 => String::from_str("JP ").concat(cond_str(test)).concat("a16"),
            JumpTarget::HL => String::from_str("JP ").concat("(HL)"),
        },
        Instruction::JR(test) => String::from_str("JR ").concat(cond_str(test)).concat("r8"),
        Instruction::CALL(test) => String::from_str("CALL ").concat(cond_str(test)).concat("a16"),
        Instruction::RET(test) => String::from_str("RET ").concat(ret_cond_str(test)),
        Instruction::LD(LoadType::Byte(target, source)) | Instruction::LDH(LoadType::Byte(target, source)) => {
            let mut str = String::from_str("LD ");
            match target {
                LoadByteTarget::A8 => {
                    str = String::from_str("LDH (a8),");
                },
                _ => {
                    str.append(ld_target_str(target));
                },
            }
            match source {
                LoadByteSource::A8 => {
                    str = String::from_str("LDH A,(a8)");
                },
                _ => {
                    str.append(ld_source_str(source));
                },
            }
            str
        },
        Instruction::PUSH(target) => String::from_str("PUSH ").concat(stack_str(target)),
        Instruction::POP(target) => String::from_str("POP ").concat(stack_str(target)),
        Instruction::NOP() => String::from_str("NOP"),
        Instruction::BIT(bit, target) => {
            let digits = decimal(bit);
            let mut str = String::from_str("BIT ");
            str.append(digits.as_str());
            str.concat(reg_str(target))
        },
        Instruction::RES(bit, target) => {
            let digits = decimal(bit);
            let mut str = String::from_str("RES ");
            str.append(digits.as_str());
            str.concat(reg_str(target))
        },
        Instruction::SET(bit, target) => {
            let digits = decimal(bit);
            let mut str = String::from_str("SET ");
            str.append(digits.as_str());
            str.concat(reg_str(target))
        },
        Instruction::RLCA() => String::from_str("RLCA"),
        Instruction::RRCA() => String::from_str("RRCA"),
        Instruction::RLA() => String::from_str("RLA"),
        Instruction::RRA() => String::from_str("RRA"),
        Instruction::DAA() => String::from_str("DAA"),
        Instruction::CPL() => String::from_str("CPL"),
        Instruction::SCF() => String::from_str("SCF"),
        Instruction::CCF() => String::from_str("CCF"),
        Instruction::RETI() => String::from_str("RETI"),
        Instruction::HALT() => String::from_str("HALT"),
        Instruction::STOP() => String::from_str("STOP"),
        Instruction::DI() => String::from_str("DI"),
        Instruction::EI() => String::from_str("EI"),
        Instruction::PREFIX() => String::from_str("PREFIX"),
        Instruction::RST(_) => String::from_str("RST"),
    }
}

} // verus!
