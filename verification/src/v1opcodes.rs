//! The instructions of the version 1 bytecode: their numbers, their
//! mnemonics, and the parameters that follow each in the code.

use vstd::prelude::*;
use crate::v1disassembler::V1Param;

verus! {

/// An instruction of the version 1 bytecode. Each has the number under which
/// the SourcePawn virtual machine knows it; the numbers in between, which
/// once stood for instructions that are no longer generated, stand for none.
#[allow(non_camel_case_types)]
#[derive(Debug, Clone, Copy, PartialEq, Eq)]
pub enum V1OPCode {
    LOAD_PRI,
    LOAD_ALT,
    LOAD_S_PRI,
    LOAD_S_ALT,
    LREF_S_PRI,
    LREF_S_ALT,
    LOAD_I,
    LODB_I,
    CONST_PRI,
    CONST_ALT,
    ADDR_PRI,
    ADDR_ALT,
    STOR_PRI,
    STOR_ALT,
    STOR_S_PRI,
    STOR_S_ALT,
    SREF_S_PRI,
    SREF_S_ALT,
    STOR_I,
    STRB_I,
    LIDX,
    LIDX_B,
    IDXADDR,
    IDXADDR_B,
    MOVE_PRI,
    MOVE_ALT,
    XCHG,
    PUSH_PRI,
    PUSH_ALT,
    PUSH_C,
    PUSH,
    PUSH_S,
    POP_PRI,
    POP_ALT,
    STACK,
    HEAP,
    PROC,
    RETN,
    CALL,
    JUMP,
    JZER,
    JNZ,
    JEQ,
    JNEQ,
    JSLESS,
    JSLEQ,
    JSGRTR,
    JSGEQ,
    SHL,
    SHR,
    SSHR,
    SHL_C_PRI,
    SHL_C_ALT,
    SHR_C_PRI,
    SHR_C_ALT,
    SMUL,
    SDIV,
    SDIV_ALT,
    ADD,
    SUB,
    SUB_ALT,
    AND,
    OR,
    XOR,
    NOT,
    NEG,
    INVERT,
    ADD_C,
    SMUL_C,
    ZERO_PRI,
    ZERO_ALT,
    ZERO,
    ZERO_S,
    EQ,
    NEQ,
    SLESS,
    SLEQ,
    SGRTR,
    SGEQ,
    EQ_C_PRI,
    EQ_C_ALT,
    INC_PRI,
    INC_ALT,
    INC,
    INC_S,
    INC_I,
    DEC_PRI,
    DEC_ALT,
    DEC,
    DEC_S,
    DEC_I,
    MOVS,
    FILL,
    HALT,
    BOUNDS,
    SYSREQ_C,
    SWITCH,
    CASETBL,
    SWAP_PRI,
    SWAP_ALT,
    PUSH_ADR,
    NOP,
    SYSREQ_N,
    BREAK,
    PUSH2_C,
    PUSH2,
    PUSH2_S,
    PUSH2_ADR,
    PUSH3_C,
    PUSH3,
    PUSH3_S,
    PUSH3_ADR,
    PUSH4_C,
    PUSH4,
    PUSH4_S,
    PUSH4_ADR,
    PUSH5_C,
    PUSH5,
    PUSH5_S,
    PUSH5_ADR,
    LOAD_BOTH,
    LOAD_S_BOTH,
    CONST,
    CONST_S,
    TRACKER_PUSH_C,
    TRACKER_POP_SETHEAP,
    GENARRAY,
    GENARRAY_Z,
    STRADJUST_PRI,
    ENDPROC,
    REBASE,
}

impl V1OPCode {
    /// The number of instructions that this library knows.
    pub const TOTAL_OPCODES: usize = 131;

    /// The number that stands for the instruction in the code.
    pub open spec fn spec_value(self) -> u8 {
        match self {
            V1OPCode::LOAD_PRI => 1,
            V1OPCode::LOAD_ALT => 2,
            V1OPCode::LOAD_S_PRI => 3,
            V1OPCode::LOAD_S_ALT => 4,
            V1OPCode::LREF_S_PRI => 7,
            V1OPCode::LREF_S_ALT => 8,
            V1OPCode::LOAD_I => 9,
            V1OPCode::LODB_I => 10,
            V1OPCode::CONST_PRI => 11,
            V1OPCode::CONST_ALT => 12,
            V1OPCode::ADDR_PRI => 13,
            V1OPCode::ADDR_ALT => 14,
            V1OPCode::STOR_PRI => 15,
            V1OPCode::STOR_ALT => 16,
            V1OPCode::STOR_S_PRI => 17,
            V1OPCode::STOR_S_ALT => 18,
            V1OPCode::SREF_S_PRI => 21,
            V1OPCode::SREF_S_ALT => 22,
            V1OPCode::STOR_I => 23,
            V1OPCode::STRB_I => 24,
            V1OPCode::LIDX => 25,
            V1OPCode::LIDX_B => 26,
            V1OPCode::IDXADDR => 27,
            V1OPCode::IDXADDR_B => 28,
            V1OPCode::MOVE_PRI => 33,
            V1OPCode::MOVE_ALT => 34,
            V1OPCode::XCHG => 35,
            V1OPCode::PUSH_PRI => 36,
            V1OPCode::PUSH_ALT => 37,
            V1OPCode::PUSH_C => 39,
            V1OPCode::PUSH => 40,
            V1OPCode::PUSH_S => 41,
            V1OPCode::POP_PRI => 42,
            V1OPCode::POP_ALT => 43,
            V1OPCode::STACK => 44,
            V1OPCode::HEAP => 45,
            V1OPCode::PROC => 46,
            V1OPCode::RETN => 48,
            V1OPCode::CALL => 49,
            V1OPCode::JUMP => 51,
            V1OPCode::JZER => 53,
            V1OPCode::JNZ => 54,
            V1OPCode::JEQ => 55,
            V1OPCode::JNEQ => 56,
            V1OPCode::JSLESS => 61,
            V1OPCode::JSLEQ => 62,
            V1OPCode::JSGRTR => 63,
            V1OPCode::JSGEQ => 64,
            V1OPCode::SHL => 65,
            V1OPCode::SHR => 66,
            V1OPCode::SSHR => 67,
            V1OPCode::SHL_C_PRI => 68,
            V1OPCode::SHL_C_ALT => 69,
            V1OPCode::SHR_C_PRI => 70,
            V1OPCode::SHR_C_ALT => 71,
            V1OPCode::SMUL => 72,
            V1OPCode::SDIV => 73,
            V1OPCode::SDIV_ALT => 74,
            V1OPCode::ADD => 78,
            V1OPCode::SUB => 79,
            V1OPCode::SUB_ALT => 80,
            V1OPCode::AND => 81,
            V1OPCode::OR => 82,
            V1OPCode::XOR => 83,
            V1OPCode::NOT => 84,
            V1OPCode::NEG => 85,
            V1OPCode::INVERT => 86,
            V1OPCode::ADD_C => 87,
            V1OPCode::SMUL_C => 88,
            V1OPCode::ZERO_PRI => 89,
            V1OPCode::ZERO_ALT => 90,
            V1OPCode::ZERO => 91,
            V1OPCode::ZERO_S => 92,
            V1OPCode::EQ => 95,
            V1OPCode::NEQ => 96,
            V1OPCode::SLESS => 101,
            V1OPCode::SLEQ => 102,
            V1OPCode::SGRTR => 103,
            V1OPCode::SGEQ => 104,
            V1OPCode::EQ_C_PRI => 105,
            V1OPCode::EQ_C_ALT => 106,
            V1OPCode::INC_PRI => 107,
            V1OPCode::INC_ALT => 108,
            V1OPCode::INC => 109,
            V1OPCode::INC_S => 110,
            V1OPCode::INC_I => 111,
            V1OPCode::DEC_PRI => 112,
            V1OPCode::DEC_ALT => 113,
            V1OPCode::DEC => 114,
            V1OPCode::DEC_S => 115,
            V1OPCode::DEC_I => 116,
            V1OPCode::MOVS => 117,
            V1OPCode::FILL => 119,
            V1OPCode::HALT => 120,
            V1OPCode::BOUNDS => 121,
            V1OPCode::SYSREQ_C => 123,
            V1OPCode::SWITCH => 129,
            V1OPCode::CASETBL => 130,
            V1OPCode::SWAP_PRI => 131,
            V1OPCode::SWAP_ALT => 132,
            V1OPCode::PUSH_ADR => 133,
            V1OPCode::NOP => 134,
            V1OPCode::SYSREQ_N => 135,
            V1OPCode::BREAK => 137,
            V1OPCode::PUSH2_C => 138,
            V1OPCode::PUSH2 => 139,
            V1OPCode::PUSH2_S => 140,
            V1OPCode::PUSH2_ADR => 141,
            V1OPCode::PUSH3_C => 142,
            V1OPCode::PUSH3 => 143,
            V1OPCode::PUSH3_S => 144,
            V1OPCode::PUSH3_ADR => 145,
            V1OPCode::PUSH4_C => 146,
            V1OPCode::PUSH4 => 147,
            V1OPCode::PUSH4_S => 148,
            V1OPCode::PUSH4_ADR => 149,
            V1OPCode::PUSH5_C => 150,
            V1OPCode::PUSH5 => 151,
            V1OPCode::PUSH5_S => 152,
            V1OPCode::PUSH5_ADR => 153,
            V1OPCode::LOAD_BOTH => 154,
            V1OPCode::LOAD_S_BOTH => 155,
            V1OPCode::CONST => 156,
            V1OPCode::CONST_S => 157,
            V1OPCode::TRACKER_PUSH_C => 160,
            V1OPCode::TRACKER_POP_SETHEAP => 161,
            V1OPCode::GENARRAY => 162,
            V1OPCode::GENARRAY_Z => 163,
            V1OPCode::STRADJUST_PRI => 164,
            V1OPCode::ENDPROC => 166,
            V1OPCode::REBASE => 168,
        }
    }

    /// The instruction that `value` stands for.
    pub open spec fn spec_from_value(value: u8) -> Option<V1OPCode> {
        match value {
            1 => Some(V1OPCode::LOAD_PRI),
            2 => Some(V1OPCode::LOAD_ALT),
            3 => Some(V1OPCode::LOAD_S_PRI),
            4 => Some(V1OPCode::LOAD_S_ALT),
            7 => Some(V1OPCode::LREF_S_PRI),
            8 => Some(V1OPCode::LREF_S_ALT),
            9 => Some(V1OPCode::LOAD_I),
            10 => Some(V1OPCode::LODB_I),
            11 => Some(V1OPCode::CONST_PRI),
            12 => Some(V1OPCode::CONST_ALT),
            13 => Some(V1OPCode::ADDR_PRI),
            14 => Some(V1OPCode::ADDR_ALT),
            15 => Some(V1OPCode::STOR_PRI),
            16 => Some(V1OPCode::STOR_ALT),
            17 => Some(V1OPCode::STOR_S_PRI),
            18 => Some(V1OPCode::STOR_S_ALT),
            21 => Some(V1OPCode::SREF_S_PRI),
            22 => Some(V1OPCode::SREF_S_ALT),
            23 => Some(V1OPCode::STOR_I),
            24 => Some(V1OPCode::STRB_I),
            25 => Some(V1OPCode::LIDX),
            26 => Some(V1OPCode::LIDX_B),
            27 => Some(V1OPCode::IDXADDR),
            28 => Some(V1OPCode::IDXADDR_B),
            33 => Some(V1OPCode::MOVE_PRI),
            34 => Some(V1OPCode::MOVE_ALT),
            35 => Some(V1OPCode::XCHG),
            36 => Some(V1OPCode::PUSH_PRI),
            37 => Some(V1OPCode::PUSH_ALT),
            39 => Some(V1OPCode::PUSH_C),
            40 => Some(V1OPCode::PUSH),
            41 => Some(V1OPCode::PUSH_S),
            42 => Some(V1OPCode::POP_PRI),
            43 => Some(V1OPCode::POP_ALT),
            44 => Some(V1OPCode::STACK),
            45 => Some(V1OPCode::HEAP),
            46 => Some(V1OPCode::PROC),
            48 => Some(V1OPCode::RETN),
            49 => Some(V1OPCode::CALL),
            51 => Some(V1OPCode::JUMP),
            53 => Some(V1OPCode::JZER),
            54 => Some(V1OPCode::JNZ),
            55 => Some(V1OPCode::JEQ),
            56 => Some(V1OPCode::JNEQ),
            61 => Some(V1OPCode::JSLESS),
            62 => Some(V1OPCode::JSLEQ),
            63 => Some(V1OPCode::JSGRTR),
            64 => Some(V1OPCode::JSGEQ),
            65 => Some(V1OPCode::SHL),
            66 => Some(V1OPCode::SHR),
            67 => Some(V1OPCode::SSHR),
            68 => Some(V1OPCode::SHL_C_PRI),
            69 => Some(V1OPCode::SHL_C_ALT),
            70 => Some(V1OPCode::SHR_C_PRI),
            71 => Some(V1OPCode::SHR_C_ALT),
            72 => Some(V1OPCode::SMUL),
            73 => Some(V1OPCode::SDIV),
            74 => Some(V1OPCode::SDIV_ALT),
            78 => Some(V1OPCode::ADD),
            79 => Some(V1OPCode::SUB),
            80 => Some(V1OPCode::SUB_ALT),
            81 => Some(V1OPCode::AND),
            82 => Some(V1OPCode::OR),
            83 => Some(V1OPCode::XOR),
            84 => Some(V1OPCode::NOT),
            85 => Some(V1OPCode::NEG),
            86 => Some(V1OPCode::INVERT),
            87 => Some(V1OPCode::ADD_C),
            88 => Some(V1OPCode::SMUL_C),
            89 => Some(V1OPCode::ZERO_PRI),
            90 => Some(V1OPCode::ZERO_ALT),
            91 => Some(V1OPCode::ZERO),
            92 => Some(V1OPCode::ZERO_S),
            95 => Some(V1OPCode::EQ),
            96 => Some(V1OPCode::NEQ),
            101 => Some(V1OPCode::SLESS),
            102 => Some(V1OPCode::SLEQ),
            103 => Some(V1OPCode::SGRTR),
            104 => Some(V1OPCode::SGEQ),
            105 => Some(V1OPCode::EQ_C_PRI),
            106 => Some(V1OPCode::EQ_C_ALT),
            107 => Some(V1OPCode::INC_PRI),
            108 => Some(V1OPCode::INC_ALT),
            109 => Some(V1OPCode::INC),
            110 => Some(V1OPCode::INC_S),
            111 => Some(V1OPCode::INC_I),
            112 => Some(V1OPCode::DEC_PRI),
            113 => Some(V1OPCode::DEC_ALT),
            114 => Some(V1OPCode::DEC),
            115 => Some(V1OPCode::DEC_S),
            116 => Some(V1OPCode::DEC_I),
            117 => Some(V1OPCode::MOVS),
            119 => Some(V1OPCode::FILL),
            120 => Some(V1OPCode::HALT),
            121 => Some(V1OPCode::BOUNDS),
            123 => Some(V1OPCode::SYSREQ_C),
            129 => Some(V1OPCode::SWITCH),
            130 => Some(V1OPCode::CASETBL),
            131 => Some(V1OPCode::SWAP_PRI),
            132 => Some(V1OPCode::SWAP_ALT),
            133 => Some(V1OPCode::PUSH_ADR),
            134 => Some(V1OPCode::NOP),
            135 => Some(V1OPCode::SYSREQ_N),
            137 => Some(V1OPCode::BREAK),
            138 => Some(V1OPCode::PUSH2_C),
            139 => Some(V1OPCode::PUSH2),
            140 => Some(V1OPCode::PUSH2_S),
            141 => Some(V1OPCode::PUSH2_ADR),
            142 => Some(V1OPCode::PUSH3_C),
            143 => Some(V1OPCode::PUSH3),
            144 => Some(V1OPCode::PUSH3_S),
            145 => Some(V1OPCode::PUSH3_ADR),
            146 => Some(V1OPCode::PUSH4_C),
            147 => Some(V1OPCode::PUSH4),
            148 => Some(V1OPCode::PUSH4_S),
            149 => Some(V1OPCode::PUSH4_ADR),
            150 => Some(V1OPCode::PUSH5_C),
            151 => Some(V1OPCode::PUSH5),
            152 => Some(V1OPCode::PUSH5_S),
            153 => Some(V1OPCode::PUSH5_ADR),
            154 => Some(V1OPCode::LOAD_BOTH),
            155 => Some(V1OPCode::LOAD_S_BOTH),
            156 => Some(V1OPCode::CONST),
            157 => Some(V1OPCode::CONST_S),
            160 => Some(V1OPCode::TRACKER_PUSH_C),
            161 => Some(V1OPCode::TRACKER_POP_SETHEAP),
            162 => Some(V1OPCode::GENARRAY),
            163 => Some(V1OPCode::GENARRAY_Z),
            164 => Some(V1OPCode::STRADJUST_PRI),
            166 => Some(V1OPCode::ENDPROC),
            168 => Some(V1OPCode::REBASE),
            _ => None,
        }
    }

    /// The mnemonic of the instruction.
    pub open spec fn spec_name(self) -> Seq<char> {
        match self {
            V1OPCode::LOAD_PRI => "load.pri"@,
            V1OPCode::LOAD_ALT => "load.alt"@,
            V1OPCode::LOAD_S_PRI => "load.s.pri"@,
            V1OPCode::LOAD_S_ALT => "load.s.alt"@,
            V1OPCode::LREF_S_PRI => "lref.s.pri"@,
            V1OPCode::LREF_S_ALT => "lref.s.alt"@,
            V1OPCode::LOAD_I => "load.i"@,
            V1OPCode::LODB_I => "lodb.i"@,
            V1OPCode::CONST_PRI => "const.pri"@,
            V1OPCode::CONST_ALT => "const.alt"@,
            V1OPCode::ADDR_PRI => "addr.pri"@,
            V1OPCode::ADDR_ALT => "addr.alt"@,
            V1OPCode::STOR_PRI => "stor.pri"@,
            V1OPCode::STOR_ALT => "stor.alt"@,
            V1OPCode::STOR_S_PRI => "stor.s.pri"@,
            V1OPCode::STOR_S_ALT => "stor.s.alt"@,
            V1OPCode::SREF_S_PRI => "sref.s.pri"@,
            V1OPCode::SREF_S_ALT => "sref.s.alt"@,
            V1OPCode::STOR_I => "stor.i"@,
            V1OPCode::STRB_I => "strb.i"@,
            V1OPCode::LIDX => "lidx"@,
            V1OPCode::LIDX_B => "lidx.b"@,
            V1OPCode::IDXADDR => "idxaddr"@,
            V1OPCode::IDXADDR_B => "idxaddr.b"@,
            V1OPCode::MOVE_PRI => "move.pri"@,
            V1OPCode::MOVE_ALT => "move.alt"@,
            V1OPCode::XCHG => "xchg"@,
            V1OPCode::PUSH_PRI => "push.pri"@,
            V1OPCode::PUSH_ALT => "push.alt"@,
            V1OPCode::PUSH_C => "push.c"@,
            V1OPCode::PUSH => "push"@,
            V1OPCode::PUSH_S => "push.s"@,
            V1OPCode::POP_PRI => "pop.pri"@,
            V1OPCode::POP_ALT => "pop.alt"@,
            V1OPCode::STACK => "stack"@,
            V1OPCode::HEAP => "heap"@,
            V1OPCode::PROC => "proc"@,
            V1OPCode::RETN => "retn"@,
            V1OPCode::CALL => "call"@,
            V1OPCode::JUMP => "jump"@,
            V1OPCode::JZER => "jzer"@,
            V1OPCode::JNZ => "jnz"@,
            V1OPCode::JEQ => "jeq"@,
            V1OPCode::JNEQ => "jneq"@,
            V1OPCode::JSLESS => "jsless"@,
            V1OPCode::JSLEQ => "jsleq"@,
            V1OPCode::JSGRTR => "jsgrtr"@,
            V1OPCode::JSGEQ => "jsgeq"@,
            V1OPCode::SHL => "shl"@,
            V1OPCode::SHR => "shr"@,
            V1OPCode::SSHR => "sshr"@,
            V1OPCode::SHL_C_PRI => "shl.c.pri"@,
            V1OPCode::SHL_C_ALT => "shl.c.alt"@,
            V1OPCode::SHR_C_PRI => "shr.c.pri"@,
            V1OPCode::SHR_C_ALT => "shr.c.alt"@,
            V1OPCode::SMUL => "smul"@,
            V1OPCode::SDIV => "sdiv"@,
            V1OPCode::SDIV_ALT => "sdiv.alt"@,
            V1OPCode::ADD => "add"@,
            V1OPCode::SUB => "sub"@,
            V1OPCode::SUB_ALT => "sub.alt"@,
            V1OPCode::AND => "and"@,
            V1OPCode::OR => "or"@,
            V1OPCode::XOR => "xor"@,
            V1OPCode::NOT => "not"@,
            V1OPCode::NEG => "neg"@,
            V1OPCode::INVERT => "invert"@,
            V1OPCode::ADD_C => "add.c"@,
            V1OPCode::SMUL_C => "smul.c"@,
            V1OPCode::ZERO_PRI => "zero.pri"@,
            V1OPCode::ZERO_ALT => "zero.alt"@,
            V1OPCode::ZERO => "zero"@,
            V1OPCode::ZERO_S => "zero.s"@,
            V1OPCode::EQ => "eq"@,
            V1OPCode::NEQ => "neq"@,
            V1OPCode::SLESS => "sless"@,
            V1OPCode::SLEQ => "sleq"@,
            V1OPCode::SGRTR => "sgrtr"@,
            V1OPCode::SGEQ => "sgeq"@,
            V1OPCode::EQ_C_PRI => "eq.c.pri"@,
            V1OPCode::EQ_C_ALT => "eq.c.alt"@,
            V1OPCode::INC_PRI => "inc.pri"@,
            V1OPCode::INC_ALT => "inc.alt"@,
            V1OPCode::INC => "inc"@,
            V1OPCode::INC_S => "inc.s"@,
            V1OPCode::INC_I => "inc.i"@,
            V1OPCode::DEC_PRI => "dec.pri"@,
            V1OPCode::DEC_ALT => "dec.alt"@,
            V1OPCode::DEC => "dec"@,
            V1OPCode::DEC_S => "dec.s"@,
            V1OPCode::DEC_I => "dec.i"@,
            V1OPCode::MOVS => "movs"@,
            V1OPCode::FILL => "fill"@,
            V1OPCode::HALT => "halt"@,
            V1OPCode::BOUNDS => "bounds"@,
            V1OPCode::SYSREQ_C => "sysreq.c"@,
            V1OPCode::SWITCH => "switch"@,
            V1OPCode::CASETBL => "casetbl"@,
            V1OPCode::SWAP_PRI => "swap.pri"@,
            V1OPCode::SWAP_ALT => "swap.alt"@,
            V1OPCode::PUSH_ADR => "push.adr"@,
            V1OPCode::NOP => "nop"@,
            V1OPCode::SYSREQ_N => "sysreq.n"@,
            V1OPCode::BREAK => "break"@,
            V1OPCode::PUSH2_C => "push2.c"@,
            V1OPCode::PUSH2 => "push2"@,
            V1OPCode::PUSH2_S => "push2.s"@,
            V1OPCode::PUSH2_ADR => "push2.adr"@,
            V1OPCode::PUSH3_C => "push3.c"@,
            V1OPCode::PUSH3 => "push3"@,
            V1OPCode::PUSH3_S => "push3.s"@,
            V1OPCode::PUSH3_ADR => "push3.adr"@,
            V1OPCode::PUSH4_C => "push4.c"@,
            V1OPCode::PUSH4 => "push4"@,
            V1OPCode::PUSH4_S => "push4.s"@,
            V1OPCode::PUSH4_ADR => "push4.adr"@,
            V1OPCode::PUSH5_C => "push5.c"@,
            V1OPCode::PUSH5 => "push5"@,
            V1OPCode::PUSH5_S => "push5.s"@,
            V1OPCode::PUSH5_ADR => "push5.adr"@,
            V1OPCode::LOAD_BOTH => "load.both"@,
            V1OPCode::LOAD_S_BOTH => "load.s.both"@,
            V1OPCode::CONST => "const"@,
            V1OPCode::CONST_S => "const.s"@,
            V1OPCode::TRACKER_PUSH_C => "tracker.push.c"@,
            V1OPCode::TRACKER_POP_SETHEAP => "tracker.pop.setheap"@,
            V1OPCode::GENARRAY => "genarray"@,
            V1OPCode::GENARRAY_Z => "genarray.z"@,
            V1OPCode::STRADJUST_PRI => "stradjust.pri"@,
            V1OPCode::ENDPROC => "endproc"@,
            V1OPCode::REBASE => "rebase"@,
        }
    }

    /// What the parameters of the instruction stand for, in order. For the
    /// case table these are the count of cases and one address, whatever the
    /// number of cases that follow in the code.
    pub open spec fn spec_params(self) -> Seq<V1Param> {
        match self {
            V1OPCode::LOAD_I
            | V1OPCode::STOR_I
            | V1OPCode::LIDX
            | V1OPCode::IDXADDR
            | V1OPCode::MOVE_PRI
            | V1OPCode::MOVE_ALT
            | V1OPCode::XCHG
            | V1OPCode::PUSH_PRI
            | V1OPCode::PUSH_ALT
            | V1OPCode::POP_PRI
            | V1OPCode::POP_ALT
            | V1OPCode::PROC
            | V1OPCode::RETN
            | V1OPCode::SHL
            | V1OPCode::SHR
            | V1OPCode::SSHR
            | V1OPCode::SMUL
            | V1OPCode::SDIV
            | V1OPCode::SDIV_ALT
            | V1OPCode::ADD
            | V1OPCode::SUB
            | V1OPCode::SUB_ALT
            | V1OPCode::AND
            | V1OPCode::OR
            | V1OPCode::XOR
            | V1OPCode::NOT
            | V1OPCode::NEG
            | V1OPCode::INVERT
            | V1OPCode::ZERO_PRI
            | V1OPCode::ZERO_ALT
            | V1OPCode::EQ
            | V1OPCode::NEQ
            | V1OPCode::SLESS
            | V1OPCode::SLEQ
            | V1OPCode::SGRTR
            | V1OPCode::SGEQ
            | V1OPCode::INC_PRI
            | V1OPCode::INC_ALT
            | V1OPCode::INC_I
            | V1OPCode::DEC_PRI
            | V1OPCode::DEC_ALT
            | V1OPCode::DEC_I
            | V1OPCode::SWAP_PRI
            | V1OPCode::SWAP_ALT
            | V1OPCode::NOP
            | V1OPCode::BREAK
            | V1OPCode::TRACKER_POP_SETHEAP
            | V1OPCode::STRADJUST_PRI
            | V1OPCode::ENDPROC => seq![],
            V1OPCode::LOAD_PRI
            | V1OPCode::LOAD_ALT
            | V1OPCode::LODB_I
            | V1OPCode::CONST_PRI
            | V1OPCode::CONST_ALT
            | V1OPCode::STOR_PRI
            | V1OPCode::STOR_ALT
            | V1OPCode::STRB_I
            | V1OPCode::LIDX_B
            | V1OPCode::IDXADDR_B
            | V1OPCode::PUSH_C
            | V1OPCode::STACK
            | V1OPCode::HEAP
            | V1OPCode::SHL_C_PRI
            | V1OPCode::SHL_C_ALT
            | V1OPCode::SHR_C_PRI
            | V1OPCode::SHR_C_ALT
            | V1OPCode::ADD_C
            | V1OPCode::SMUL_C
            | V1OPCode::EQ_C_PRI
            | V1OPCode::EQ_C_ALT
            | V1OPCode::MOVS
            | V1OPCode::FILL
            | V1OPCode::HALT
            | V1OPCode::BOUNDS
            | V1OPCode::TRACKER_PUSH_C
            | V1OPCode::GENARRAY
            | V1OPCode::GENARRAY_Z => seq![V1Param::Constant],
            V1OPCode::LOAD_S_PRI
            | V1OPCode::LOAD_S_ALT
            | V1OPCode::LREF_S_PRI
            | V1OPCode::LREF_S_ALT
            | V1OPCode::ADDR_PRI
            | V1OPCode::ADDR_ALT
            | V1OPCode::STOR_S_PRI
            | V1OPCode::STOR_S_ALT
            | V1OPCode::SREF_S_PRI
            | V1OPCode::SREF_S_ALT
            | V1OPCode::PUSH_S
            | V1OPCode::ZERO_S
            | V1OPCode::INC_S
            | V1OPCode::DEC_S
            | V1OPCode::PUSH_ADR => seq![V1Param::Stack],
            V1OPCode::PUSH
            | V1OPCode::ZERO
            | V1OPCode::INC
            | V1OPCode::DEC
            | V1OPCode::SWITCH => seq![V1Param::Address],
            V1OPCode::JUMP
            | V1OPCode::JZER
            | V1OPCode::JNZ
            | V1OPCode::JEQ
            | V1OPCode::JNEQ
            | V1OPCode::JSLESS
            | V1OPCode::JSLEQ
            | V1OPCode::JSGRTR
            | V1OPCode::JSGEQ => seq![V1Param::Jump],
            V1OPCode::CALL => seq![V1Param::Function],
            V1OPCode::SYSREQ_C => seq![V1Param::Native],
            V1OPCode::SYSREQ_N => seq![V1Param::Native, V1Param::Constant],
            V1OPCode::CASETBL => seq![V1Param::Constant, V1Param::Address],
            V1OPCode::CONST => seq![V1Param::Address, V1Param::Constant],
            V1OPCode::CONST_S => seq![V1Param::Stack, V1Param::Constant],
            V1OPCode::PUSH2_C
            | V1OPCode::LOAD_BOTH => seq![V1Param::Constant, V1Param::Constant],
            V1OPCode::PUSH2_S
            | V1OPCode::PUSH2_ADR
            | V1OPCode::LOAD_S_BOTH => seq![V1Param::Stack, V1Param::Stack],
            V1OPCode::PUSH2 => seq![V1Param::Address, V1Param::Address],
            V1OPCode::REBASE => seq![V1Param::Address, V1Param::Constant, V1Param::Constant],
            V1OPCode::PUSH3_C => seq![V1Param::Constant, V1Param::Constant, V1Param::Constant],
            V1OPCode::PUSH3_S
            | V1OPCode::PUSH3_ADR => seq![V1Param::Stack, V1Param::Stack, V1Param::Stack],
            V1OPCode::PUSH3 => seq![V1Param::Address, V1Param::Address, V1Param::Address],
            V1OPCode::PUSH4_C => seq![V1Param::Constant, V1Param::Constant, V1Param::Constant, V1Param::Constant],
            V1OPCode::PUSH4_S
            | V1OPCode::PUSH4_ADR => seq![V1Param::Stack, V1Param::Stack, V1Param::Stack, V1Param::Stack],
            V1OPCode::PUSH4 => seq![V1Param::Address, V1Param::Address, V1Param::Address, V1Param::Address],
            V1OPCode::PUSH5_C => seq![V1Param::Constant, V1Param::Constant, V1Param::Constant, V1Param::Constant, V1Param::Constant],
            V1OPCode::PUSH5_S
            | V1OPCode::PUSH5_ADR => seq![V1Param::Stack, V1Param::Stack, V1Param::Stack, V1Param::Stack, V1Param::Stack],
            V1OPCode::PUSH5 => seq![V1Param::Address, V1Param::Address, V1Param::Address, V1Param::Address, V1Param::Address],
        }
    }

    /// The instruction that the code word `word` stands for.
    pub open spec fn spec_from_word(word: i32) -> Option<V1OPCode> {
        if 0 <= word <= 255 {
            Self::spec_from_value(word as u8)
        } else {
            None
        }
    }

    /// Every instruction is the one that its number stands for, and a number
    /// stands for no other.
    pub proof fn lemma_numbering(op: V1OPCode, value: u8)
        ensures
            Self::spec_from_value(op.spec_value()) == Some(op),
            Self::spec_from_value(value) == Some(op) ==> op.spec_value() == value,
    {
    }

    /// No instruction has more than five parameters.
    pub proof fn lemma_arity(op: V1OPCode)
        ensures
            op.spec_params().len() <= 5,
    {
    }

    pub fn value(&self) -> (r: u8)
        ensures
            r == self.spec_value(),
    {
        match self {
            V1OPCode::LOAD_PRI => 1,
            V1OPCode::LOAD_ALT => 2,
            V1OPCode::LOAD_S_PRI => 3,
            V1OPCode::LOAD_S_ALT => 4,
            V1OPCode::LREF_S_PRI => 7,
            V1OPCode::LREF_S_ALT => 8,
            V1OPCode::LOAD_I => 9,
            V1OPCode::LODB_I => 10,
            V1OPCode::CONST_PRI => 11,
            V1OPCode::CONST_ALT => 12,
            V1OPCode::ADDR_PRI => 13,
            V1OPCode::ADDR_ALT => 14,
            V1OPCode::STOR_PRI => 15,
            V1OPCode::STOR_ALT => 16,
            V1OPCode::STOR_S_PRI => 17,
            V1OPCode::STOR_S_ALT => 18,
            V1OPCode::SREF_S_PRI => 21,
            V1OPCode::SREF_S_ALT => 22,
            V1OPCode::STOR_I => 23,
            V1OPCode::STRB_I => 24,
            V1OPCode::LIDX => 25,
            V1OPCode::LIDX_B => 26,
            V1OPCode::IDXADDR => 27,
            V1OPCode::IDXADDR_B => 28,
            V1OPCode::MOVE_PRI => 33,
            V1OPCode::MOVE_ALT => 34,
            V1OPCode::XCHG => 35,
            V1OPCode::PUSH_PRI => 36,
            V1OPCode::PUSH_ALT => 37,
            V1OPCode::PUSH_C => 39,
            V1OPCode::PUSH => 40,
            V1OPCode::PUSH_S => 41,
            V1OPCode::POP_PRI => 42,
            V1OPCode::POP_ALT => 43,
            V1OPCode::STACK => 44,
            V1OPCode::HEAP => 45,
            V1OPCode::PROC => 46,
            V1OPCode::RETN => 48,
            V1OPCode::CALL => 49,
            V1OPCode::JUMP => 51,
            V1OPCode::JZER => 53,
            V1OPCode::JNZ => 54,
            V1OPCode::JEQ => 55,
            V1OPCode::JNEQ => 56,
            V1OPCode::JSLESS => 61,
            V1OPCode::JSLEQ => 62,
            V1OPCode::JSGRTR => 63,
            V1OPCode::JSGEQ => 64,
            V1OPCode::SHL => 65,
            V1OPCode::SHR => 66,
            V1OPCode::SSHR => 67,
            V1OPCode::SHL_C_PRI => 68,
            V1OPCode::SHL_C_ALT => 69,
            V1OPCode::SHR_C_PRI => 70,
            V1OPCode::SHR_C_ALT => 71,
            V1OPCode::SMUL => 72,
            V1OPCode::SDIV => 73,
            V1OPCode::SDIV_ALT => 74,
            V1OPCode::ADD => 78,
            V1OPCode::SUB => 79,
            V1OPCode::SUB_ALT => 80,
            V1OPCode::AND => 81,
            V1OPCode::OR => 82,
            V1OPCode::XOR => 83,
            V1OPCode::NOT => 84,
            V1OPCode::NEG => 85,
            V1OPCode::INVERT => 86,
            V1OPCode::ADD_C => 87,
            V1OPCode::SMUL_C => 88,
            V1OPCode::ZERO_PRI => 89,
            V1OPCode::ZERO_ALT => 90,
            V1OPCode::ZERO => 91,
            V1OPCode::ZERO_S => 92,
            V1OPCode::EQ => 95,
            V1OPCode::NEQ => 96,
            V1OPCode::SLESS => 101,
            V1OPCode::SLEQ => 102,
            V1OPCode::SGRTR => 103,
            V1OPCode::SGEQ => 104,
            V1OPCode::EQ_C_PRI => 105,
            V1OPCode::EQ_C_ALT => 106,
            V1OPCode::INC_PRI => 107,
            V1OPCode::INC_ALT => 108,
            V1OPCode::INC => 109,
            V1OPCode::INC_S => 110,
            V1OPCode::INC_I => 111,
            V1OPCode::DEC_PRI => 112,
            V1OPCode::DEC_ALT => 113,
            V1OPCode::DEC => 114,
            V1OPCode::DEC_S => 115,
            V1OPCode::DEC_I => 116,
            V1OPCode::MOVS => 117,
            V1OPCode::FILL => 119,
            V1OPCode::HALT => 120,
            V1OPCode::BOUNDS => 121,
            V1OPCode::SYSREQ_C => 123,
            V1OPCode::SWITCH => 129,
            V1OPCode::CASETBL => 130,
            V1OPCode::SWAP_PRI => 131,
            V1OPCode::SWAP_ALT => 132,
            V1OPCode::PUSH_ADR => 133,
            V1OPCode::NOP => 134,
            V1OPCode::SYSREQ_N => 135,
            V1OPCode::BREAK => 137,
            V1OPCode::PUSH2_C => 138,
            V1OPCode::PUSH2 => 139,
            V1OPCode::PUSH2_S => 140,
            V1OPCode::PUSH2_ADR => 141,
            V1OPCode::PUSH3_C => 142,
            V1OPCode::PUSH3 => 143,
            V1OPCode::PUSH3_S => 144,
            V1OPCode::PUSH3_ADR => 145,
            V1OPCode::PUSH4_C => 146,
            V1OPCode::PUSH4 => 147,
            V1OPCode::PUSH4_S => 148,
            V1OPCode::PUSH4_ADR => 149,
            V1OPCode::PUSH5_C => 150,
            V1OPCode::PUSH5 => 151,
            V1OPCode::PUSH5_S => 152,
            V1OPCode::PUSH5_ADR => 153,
            V1OPCode::LOAD_BOTH => 154,
            V1OPCode::LOAD_S_BOTH => 155,
            V1OPCode::CONST => 156,
            V1OPCode::CONST_S => 157,
            V1OPCode::TRACKER_PUSH_C => 160,
            V1OPCode::TRACKER_POP_SETHEAP => 161,
            V1OPCode::GENARRAY => 162,
            V1OPCode::GENARRAY_Z => 163,
            V1OPCode::STRADJUST_PRI => 164,
            V1OPCode::ENDPROC => 166,
            V1OPCode::REBASE => 168,
        }
    }

    pub fn from_value(value: u8) -> (r: Option<V1OPCode>)
        ensures
            r == Self::spec_from_value(value),
    {
        match value {
            1 => Some(V1OPCode::LOAD_PRI),
            2 => Some(V1OPCode::LOAD_ALT),
            3 => Some(V1OPCode::LOAD_S_PRI),
            4 => Some(V1OPCode::LOAD_S_ALT),
            7 => Some(V1OPCode::LREF_S_PRI),
            8 => Some(V1OPCode::LREF_S_ALT),
            9 => Some(V1OPCode::LOAD_I),
            10 => Some(V1OPCode::LODB_I),
            11 => Some(V1OPCode::CONST_PRI),
            12 => Some(V1OPCode::CONST_ALT),
            13 => Some(V1OPCode::ADDR_PRI),
            14 => Some(V1OPCode::ADDR_ALT),
            15 => Some(V1OPCode::STOR_PRI),
            16 => Some(V1OPCode::STOR_ALT),
            17 => Some(V1OPCode::STOR_S_PRI),
            18 => Some(V1OPCode::STOR_S_ALT),
            21 => Some(V1OPCode::SREF_S_PRI),
            22 => Some(V1OPCode::SREF_S_ALT),
            23 => Some(V1OPCode::STOR_I),
            24 => Some(V1OPCode::STRB_I),
            25 => Some(V1OPCode::LIDX),
            26 => Some(V1OPCode::LIDX_B),
            27 => Some(V1OPCode::IDXADDR),
            28 => Some(V1OPCode::IDXADDR_B),
            33 => Some(V1OPCode::MOVE_PRI),
            34 => Some(V1OPCode::MOVE_ALT),
            35 => Some(V1OPCode::XCHG),
            36 => Some(V1OPCode::PUSH_PRI),
            37 => Some(V1OPCode::PUSH_ALT),
            39 => Some(V1OPCode::PUSH_C),
            40 => Some(V1OPCode::PUSH),
            41 => Some(V1OPCode::PUSH_S),
            42 => Some(V1OPCode::POP_PRI),
            43 => Some(V1OPCode::POP_ALT),
            44 => Some(V1OPCode::STACK),
            45 => Some(V1OPCode::HEAP),
            46 => Some(V1OPCode::PROC),
            48 => Some(V1OPCode::RETN),
            49 => Some(V1OPCode::CALL),
            51 => Some(V1OPCode::JUMP),
            53 => Some(V1OPCode::JZER),
            54 => Some(V1OPCode::JNZ),
            55 => Some(V1OPCode::JEQ),
            56 => Some(V1OPCode::JNEQ),
            61 => Some(V1OPCode::JSLESS),
            62 => Some(V1OPCode::JSLEQ),
            63 => Some(V1OPCode::JSGRTR),
            64 => Some(V1OPCode::JSGEQ),
            65 => Some(V1OPCode::SHL),
            66 => Some(V1OPCode::SHR),
            67 => Some(V1OPCode::SSHR),
            68 => Some(V1OPCode::SHL_C_PRI),
            69 => Some(V1OPCode::SHL_C_ALT),
            70 => Some(V1OPCode::SHR_C_PRI),
            71 => Some(V1OPCode::SHR_C_ALT),
            72 => Some(V1OPCode::SMUL),
            73 => Some(V1OPCode::SDIV),
            74 => Some(V1OPCode::SDIV_ALT),
            78 => Some(V1OPCode::ADD),
            79 => Some(V1OPCode::SUB),
            80 => Some(V1OPCode::SUB_ALT),
            81 => Some(V1OPCode::AND),
            82 => Some(V1OPCode::OR),
            83 => Some(V1OPCode::XOR),
            84 => Some(V1OPCode::NOT),
            85 => Some(V1OPCode::NEG),
            86 => Some(V1OPCode::INVERT),
            87 => Some(V1OPCode::ADD_C),
            88 => Some(V1OPCode::SMUL_C),
            89 => Some(V1OPCode::ZERO_PRI),
            90 => Some(V1OPCode::ZERO_ALT),
            91 => Some(V1OPCode::ZERO),
            92 => Some(V1OPCode::ZERO_S),
            95 => Some(V1OPCode::EQ),
            96 => Some(V1OPCode::NEQ),
            101 => Some(V1OPCode::SLESS),
            102 => Some(V1OPCode::SLEQ),
            103 => Some(V1OPCode::SGRTR),
            104 => Some(V1OPCode::SGEQ),
            105 => Some(V1OPCode::EQ_C_PRI),
            106 => Some(V1OPCode::EQ_C_ALT),
            107 => Some(V1OPCode::INC_PRI),
            108 => Some(V1OPCode::INC_ALT),
            109 => Some(V1OPCode::INC),
            110 => Some(V1OPCode::INC_S),
            111 => Some(V1OPCode::INC_I),
            112 => Some(V1OPCode::DEC_PRI),
            113 => Some(V1OPCode::DEC_ALT),
            114 => Some(V1OPCode::DEC),
            115 => Some(V1OPCode::DEC_S),
            116 => Some(V1OPCode::DEC_I),
            117 => Some(V1OPCode::MOVS),
            119 => Some(V1OPCode::FILL),
            120 => Some(V1OPCode::HALT),
            121 => Some(V1OPCode::BOUNDS),
            123 => Some(V1OPCode::SYSREQ_C),
            129 => Some(V1OPCode::SWITCH),
            130 => Some(V1OPCode::CASETBL),
            131 => Some(V1OPCode::SWAP_PRI),
            132 => Some(V1OPCode::SWAP_ALT),
            133 => Some(V1OPCode::PUSH_ADR),
            134 => Some(V1OPCode::NOP),
            135 => Some(V1OPCode::SYSREQ_N),
            137 => Some(V1OPCode::BREAK),
            138 => Some(V1OPCode::PUSH2_C),
            139 => Some(V1OPCode::PUSH2),
            140 => Some(V1OPCode::PUSH2_S),
            141 => Some(V1OPCode::PUSH2_ADR),
            142 => Some(V1OPCode::PUSH3_C),
            143 => Some(V1OPCode::PUSH3),
            144 => Some(V1OPCode::PUSH3_S),
            145 => Some(V1OPCode::PUSH3_ADR),
            146 => Some(V1OPCode::PUSH4_C),
            147 => Some(V1OPCode::PUSH4),
            148 => Some(V1OPCode::PUSH4_S),
            149 => Some(V1OPCode::PUSH4_ADR),
            150 => Some(V1OPCode::PUSH5_C),
            151 => Some(V1OPCode::PUSH5),
            152 => Some(V1OPCode::PUSH5_S),
            153 => Some(V1OPCode::PUSH5_ADR),
            154 => Some(V1OPCode::LOAD_BOTH),
            155 => Some(V1OPCode::LOAD_S_BOTH),
            156 => Some(V1OPCode::CONST),
            157 => Some(V1OPCode::CONST_S),
            160 => Some(V1OPCode::TRACKER_PUSH_C),
            161 => Some(V1OPCode::TRACKER_POP_SETHEAP),
            162 => Some(V1OPCode::GENARRAY),
            163 => Some(V1OPCode::GENARRAY_Z),
            164 => Some(V1OPCode::STRADJUST_PRI),
            166 => Some(V1OPCode::ENDPROC),
            168 => Some(V1OPCode::REBASE),
            _ => None,
        }
    }

    pub fn from_word(word: i32) -> (r: Option<V1OPCode>)
        ensures
            r == Self::spec_from_word(word),
    {
        if 0 <= word && word <= 255 {
            Self::from_value(word as u8)
        } else {
            None
        }
    }

    pub fn name(&self) -> (r: &'static str)
        ensures
            r@ == self.spec_name(),
    {
        match self {
            V1OPCode::LOAD_PRI => "load.pri",
            V1OPCode::LOAD_ALT => "load.alt",
            V1OPCode::LOAD_S_PRI => "load.s.pri",
            V1OPCode::LOAD_S_ALT => "load.s.alt",
            V1OPCode::LREF_S_PRI => "lref.s.pri",
            V1OPCode::LREF_S_ALT => "lref.s.alt",
            V1OPCode::LOAD_I => "load.i",
            V1OPCode::LODB_I => "lodb.i",
            V1OPCode::CONST_PRI => "const.pri",
            V1OPCode::CONST_ALT => "const.alt",
            V1OPCode::ADDR_PRI => "addr.pri",
            V1OPCode::ADDR_ALT => "addr.alt",
            V1OPCode::STOR_PRI => "stor.pri",
            V1OPCode::STOR_ALT => "stor.alt",
            V1OPCode::STOR_S_PRI => "stor.s.pri",
            V1OPCode::STOR_S_ALT => "stor.s.alt",
            V1OPCode::SREF_S_PRI => "sref.s.pri",
            V1OPCode::SREF_S_ALT => "sref.s.alt",
            V1OPCode::STOR_I => "stor.i",
            V1OPCode::STRB_I => "strb.i",
            V1OPCode::LIDX => "lidx",
            V1OPCode::LIDX_B => "lidx.b",
            V1OPCode::IDXADDR => "idxaddr",
            V1OPCode::IDXADDR_B => "idxaddr.b",
            V1OPCode::MOVE_PRI => "move.pri",
            V1OPCode::MOVE_ALT => "move.alt",
            V1OPCode::XCHG => "xchg",
            V1OPCode::PUSH_PRI => "push.pri",
            V1OPCode::PUSH_ALT => "push.alt",
            V1OPCode::PUSH_C => "push.c",
            V1OPCode::PUSH => "push",
            V1OPCode::PUSH_S => "push.s",
            V1OPCode::POP_PRI => "pop.pri",
            V1OPCode::POP_ALT => "pop.alt",
            V1OPCode::STACK => "stack",
            V1OPCode::HEAP => "heap",
            V1OPCode::PROC => "proc",
            V1OPCode::RETN => "retn",
            V1OPCode::CALL => "call",
            V1OPCode::JUMP => "jump",
            V1OPCode::JZER => "jzer",
            V1OPCode::JNZ => "jnz",
            V1OPCode::JEQ => "jeq",
            V1OPCode::JNEQ => "jneq",
            V1OPCode::JSLESS => "jsless",
            V1OPCode::JSLEQ => "jsleq",
            V1OPCode::JSGRTR => "jsgrtr",
            V1OPCode::JSGEQ => "jsgeq",
            V1OPCode::SHL => "shl",
            V1OPCode::SHR => "shr",
            V1OPCode::SSHR => "sshr",
            V1OPCode::SHL_C_PRI => "shl.c.pri",
            V1OPCode::SHL_C_ALT => "shl.c.alt",
            V1OPCode::SHR_C_PRI => "shr.c.pri",
            V1OPCode::SHR_C_ALT => "shr.c.alt",
            V1OPCode::SMUL => "smul",
            V1OPCode::SDIV => "sdiv",
            V1OPCode::SDIV_ALT => "sdiv.alt",
            V1OPCode::ADD => "add",
            V1OPCode::SUB => "sub",
            V1OPCode::SUB_ALT => "sub.alt",
            V1OPCode::AND => "and",
            V1OPCode::OR => "or",
            V1OPCode::XOR => "xor",
            V1OPCode::NOT => "not",
            V1OPCode::NEG => "neg",
            V1OPCode::INVERT => "invert",
            V1OPCode::ADD_C => "add.c",
            V1OPCode::SMUL_C => "smul.c",
            V1OPCode::ZERO_PRI => "zero.pri",
            V1OPCode::ZERO_ALT => "zero.alt",
            V1OPCode::ZERO => "zero",
            V1OPCode::ZERO_S => "zero.s",
            V1OPCode::EQ => "eq",
            V1OPCode::NEQ => "neq",
            V1OPCode::SLESS => "sless",
            V1OPCode::SLEQ => "sleq",
            V1OPCode::SGRTR => "sgrtr",
            V1OPCode::SGEQ => "sgeq",
            V1OPCode::EQ_C_PRI => "eq.c.pri",
            V1OPCode::EQ_C_ALT => "eq.c.alt",
            V1OPCode::INC_PRI => "inc.pri",
            V1OPCode::INC_ALT => "inc.alt",
            V1OPCode::INC => "inc",
            V1OPCode::INC_S => "inc.s",
            V1OPCode::INC_I => "inc.i",
            V1OPCode::DEC_PRI => "dec.pri",
            V1OPCode::DEC_ALT => "dec.alt",
            V1OPCode::DEC => "dec",
            V1OPCode::DEC_S => "dec.s",
            V1OPCode::DEC_I => "dec.i",
            V1OPCode::MOVS => "movs",
            V1OPCode::FILL => "fill",
            V1OPCode::HALT => "halt",
            V1OPCode::BOUNDS => "bounds",
            V1OPCode::SYSREQ_C => "sysreq.c",
            V1OPCode::SWITCH => "switch",
            V1OPCode::CASETBL => "casetbl",
            V1OPCode::SWAP_PRI => "swap.pri",
            V1OPCode::SWAP_ALT => "swap.alt",
            V1OPCode::PUSH_ADR => "push.adr",
            V1OPCode::NOP => "nop",
            V1OPCode::SYSREQ_N => "sysreq.n",
            V1OPCode::BREAK => "break",
            V1OPCode::PUSH2_C => "push2.c",
            V1OPCode::PUSH2 => "push2",
            V1OPCode::PUSH2_S => "push2.s",
            V1OPCode::PUSH2_ADR => "push2.adr",
            V1OPCode::PUSH3_C => "push3.c",
            V1OPCode::PUSH3 => "push3",
            V1OPCode::PUSH3_S => "push3.s",
            V1OPCode::PUSH3_ADR => "push3.adr",
            V1OPCode::PUSH4_C => "push4.c",
            V1OPCode::PUSH4 => "push4",
            V1OPCode::PUSH4_S => "push4.s",
            V1OPCode::PUSH4_ADR => "push4.adr",
            V1OPCode::PUSH5_C => "push5.c",
            V1OPCode::PUSH5 => "push5",
            V1OPCode::PUSH5_S => "push5.s",
            V1OPCode::PUSH5_ADR => "push5.adr",
            V1OPCode::LOAD_BOTH => "load.both",
            V1OPCode::LOAD_S_BOTH => "load.s.both",
            V1OPCode::CONST => "const",
            V1OPCode::CONST_S => "const.s",
            V1OPCode::TRACKER_PUSH_C => "tracker.push.c",
            V1OPCode::TRACKER_POP_SETHEAP => "tracker.pop.setheap",
            V1OPCode::GENARRAY => "genarray",
            V1OPCode::GENARRAY_Z => "genarray.z",
            V1OPCode::STRADJUST_PRI => "stradjust.pri",
            V1OPCode::ENDPROC => "endproc",
            V1OPCode::REBASE => "rebase",
        }
    }

    pub fn params(&self) -> (r: Vec<V1Param>)
        ensures
            r@ == self.spec_params(),
    {
        let r = match self {
            V1OPCode::LOAD_I
            | V1OPCode::STOR_I
            | V1OPCode::LIDX
            | V1OPCode::IDXADDR
            | V1OPCode::MOVE_PRI
            | V1OPCode::MOVE_ALT
            | V1OPCode::XCHG
            | V1OPCode::PUSH_PRI
            | V1OPCode::PUSH_ALT
            | V1OPCode::POP_PRI
            | V1OPCode::POP_ALT
            | V1OPCode::PROC
            | V1OPCode::RETN
            | V1OPCode::SHL
            | V1OPCode::SHR
            | V1OPCode::SSHR
            | V1OPCode::SMUL
            | V1OPCode::SDIV
            | V1OPCode::SDIV_ALT
            | V1OPCode::ADD
            | V1OPCode::SUB
            | V1OPCode::SUB_ALT
            | V1OPCode::AND
            | V1OPCode::OR
            | V1OPCode::XOR
            | V1OPCode::NOT
            | V1OPCode::NEG
            | V1OPCode::INVERT
            | V1OPCode::ZERO_PRI
            | V1OPCode::ZERO_ALT
            | V1OPCode::EQ
            | V1OPCode::NEQ
            | V1OPCode::SLESS
            | V1OPCode::SLEQ
            | V1OPCode::SGRTR
            | V1OPCode::SGEQ
            | V1OPCode::INC_PRI
            | V1OPCode::INC_ALT
            | V1OPCode::INC_I
            | V1OPCode::DEC_PRI
            | V1OPCode::DEC_ALT
            | V1OPCode::DEC_I
            | V1OPCode::SWAP_PRI
            | V1OPCode::SWAP_ALT
            | V1OPCode::NOP
            | V1OPCode::BREAK
            | V1OPCode::TRACKER_POP_SETHEAP
            | V1OPCode::STRADJUST_PRI
            | V1OPCode::ENDPROC => Vec::new(),
            V1OPCode::LOAD_PRI
            | V1OPCode::LOAD_ALT
            | V1OPCode::LODB_I
            | V1OPCode::CONST_PRI
            | V1OPCode::CONST_ALT
            | V1OPCode::STOR_PRI
            | V1OPCode::STOR_ALT
            | V1OPCode::STRB_I
            | V1OPCode::LIDX_B
            | V1OPCode::IDXADDR_B
            | V1OPCode::PUSH_C
            | V1OPCode::STACK
            | V1OPCode::HEAP
            | V1OPCode::SHL_C_PRI
            | V1OPCode::SHL_C_ALT
            | V1OPCode::SHR_C_PRI
            | V1OPCode::SHR_C_ALT
            | V1OPCode::ADD_C
            | V1OPCode::SMUL_C
            | V1OPCode::EQ_C_PRI
            | V1OPCode::EQ_C_ALT
            | V1OPCode::MOVS
            | V1OPCode::FILL
            | V1OPCode::HALT
            | V1OPCode::BOUNDS
            | V1OPCode::TRACKER_PUSH_C
            | V1OPCode::GENARRAY
            | V1OPCode::GENARRAY_Z => vec![V1Param::Constant],
            V1OPCode::LOAD_S_PRI
            | V1OPCode::LOAD_S_ALT
            | V1OPCode::LREF_S_PRI
            | V1OPCode::LREF_S_ALT
            | V1OPCode::ADDR_PRI
            | V1OPCode::ADDR_ALT
            | V1OPCode::STOR_S_PRI
            | V1OPCode::STOR_S_ALT
            | V1OPCode::SREF_S_PRI
            | V1OPCode::SREF_S_ALT
            | V1OPCode::PUSH_S
            | V1OPCode::ZERO_S
            | V1OPCode::INC_S
            | V1OPCode::DEC_S
            | V1OPCode::PUSH_ADR => vec![V1Param::Stack],
            V1OPCode::PUSH
            | V1OPCode::ZERO
            | V1OPCode::INC
            | V1OPCode::DEC
            | V1OPCode::SWITCH => vec![V1Param::Address],
            V1OPCode::JUMP
            | V1OPCode::JZER
            | V1OPCode::JNZ
            | V1OPCode::JEQ
            | V1OPCode::JNEQ
            | V1OPCode::JSLESS
            | V1OPCode::JSLEQ
            | V1OPCode::JSGRTR
            | V1OPCode::JSGEQ => vec![V1Param::Jump],
            V1OPCode::CALL => vec![V1Param::Function],
            V1OPCode::SYSREQ_C => vec![V1Param::Native],
            V1OPCode::SYSREQ_N => vec![V1Param::Native, V1Param::Constant],
            V1OPCode::CASETBL => vec![V1Param::Constant, V1Param::Address],
            V1OPCode::CONST => vec![V1Param::Address, V1Param::Constant],
            V1OPCode::CONST_S => vec![V1Param::Stack, V1Param::Constant],
            V1OPCode::PUSH2_C
            | V1OPCode::LOAD_BOTH => vec![V1Param::Constant, V1Param::Constant],
            V1OPCode::PUSH2_S
            | V1OPCode::PUSH2_ADR
            | V1OPCode::LOAD_S_BOTH => vec![V1Param::Stack, V1Param::Stack],
            V1OPCode::PUSH2 => vec![V1Param::Address, V1Param::Address],
            V1OPCode::REBASE => vec![V1Param::Address, V1Param::Constant, V1Param::Constant],
            V1OPCode::PUSH3_C => vec![V1Param::Constant, V1Param::Constant, V1Param::Constant],
            V1OPCode::PUSH3_S
            | V1OPCode::PUSH3_ADR => vec![V1Param::Stack, V1Param::Stack, V1Param::Stack],
            V1OPCode::PUSH3 => vec![V1Param::Address, V1Param::Address, V1Param::Address],
            V1OPCode::PUSH4_C => vec![V1Param::Constant, V1Param::Constant, V1Param::Constant, V1Param::Constant],
            V1OPCode::PUSH4_S
            | V1OPCode::PUSH4_ADR => vec![V1Param::Stack, V1Param::Stack, V1Param::Stack, V1Param::Stack],
            V1OPCode::PUSH4 => vec![V1Param::Address, V1Param::Address, V1Param::Address, V1Param::Address],
            V1OPCode::PUSH5_C => vec![V1Param::Constant, V1Param::Constant, V1Param::Constant, V1Param::Constant, V1Param::Constant],
            V1OPCode::PUSH5_S
            | V1OPCode::PUSH5_ADR => vec![V1Param::Stack, V1Param::Stack, V1Param::Stack, V1Param::Stack, V1Param::Stack],
            V1OPCode::PUSH5 => vec![V1Param::Address, V1Param::Address, V1Param::Address, V1Param::Address, V1Param::Address],
        };
        assert(r@ =~= self.spec_params());
        r
    }
}

} // verus!
