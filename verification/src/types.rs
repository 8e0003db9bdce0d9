//! Output types for Operation and Opcode, and the grammars and errors of decoding.
use crate::cursor::Cursor;
use vstd::prelude::*;

verus! {

/// The grammar a byte sequence is read under.
///
/// Legacy bytecode is the classic opcode set. A container in the EVM object
/// format is read under the extended set, in which some bytes that legacy
/// code leaves undefined are instructions of their own.
#[derive(Clone, Copy, Debug, PartialEq, Eq, Structural)]
pub enum Grammar {
    /// Classic bytecode.
    Legacy,
    /// Bytecode of an object-format container.
    Eof,
}

impl Grammar {
    /// The grammar that the start of `code` selects: the object-format
    /// grammar where `code` opens with the magic bytes `EF 00`, the legacy
    /// grammar in every other case.
    pub open spec fn of(code: Seq<u8>) -> Grammar {
        if code.len() >= 2 && code[0] == 0xef && code[1] == 0x00 {
            Grammar::Eof
        } else {
            Grammar::Legacy
        }
    }

    /// Detects the grammar of `bytes` from its first two bytes.
    pub fn detect(bytes: &[u8]) -> (r: Grammar)
        ensures
            r == Grammar::of(bytes@),
    {
        if bytes.len() >= 2 && bytes[0] == 0xef && bytes[1] == 0x00 {
            Grammar::Eof
        } else {
            Grammar::Legacy
        }
    }
}

/// What can go wrong while disassembling.
#[derive(Clone, Copy, Debug, PartialEq, Eq, Structural)]
pub enum DecodeError {
    /// The input text is not hexadecimal.
    InvalidEncoding,
    /// The opcode at `offset` asks for `required` immediate bytes, and only
    /// `available` bytes follow it.
    TruncatedImmediate { offset: u32, required: usize, available: usize },
}

impl DecodeError {
    /// The number of bytes that are missing: for a truncated immediate, what
    /// it asks for beyond what is there; for any other error, none.
    pub open spec fn shortfall_spec(self) -> int {
        match self {
            DecodeError::TruncatedImmediate { required, available, .. } => {
                if required > available {
                    required - available
                } else {
                    0
                }
            },
            DecodeError::InvalidEncoding => 0,
        }
    }

    /// The number of bytes that are missing.
    pub fn shortfall(&self) -> (r: usize)
        ensures
            r == self.shortfall_spec(),
    {
        match self {
            DecodeError::TruncatedImmediate { required, available, .. } => {
                if *required > *available {
                    *required - *available
                } else {
                    0
                }
            },
            DecodeError::InvalidEncoding => 0,
        }
    }
}

/// A single EVM operation
///
/// For additional information on each operation see: https://www.evm.codes/
#[derive(Clone, Copy, Debug, PartialEq, Eq, Structural)]
#[allow(missing_docs)]
pub enum Opcode {
    STOP,
    ADD,
    MUL,
    SUB,
    DIV,
    SDIV,
    MOD,
    SMOD,
    ADDMOD,
    MULMOD,
    EXP,
    SIGNEXTEND,
    LT,
    GT,
    SLT,
    SGT,
    EQ,
    ISZERO,
    AND,
    OR,
    XOR,
    NOT,
    BYTE,
    SHL,
    SHR,
    SAR,
    SHA3,
    ADDRESS,
    BALANCE,
    ORIGIN,
    CALLER,
    CALLVALUE,
    CALLDATALOAD,
    CALLDATASIZE,
    CALLDATACOPY,
    CODESIZE,
    CODECOPY,
    GASPRICE,
    EXTCODESIZE,
    EXTCODECOPY,
    RETURNDATASIZE,
    RETURNDATACOPY,
    EXTCODEHASH,
    BLOCKHASH,
    COINBASE,
    TIMESTAMP,
    NUMBER,
    DIFFICULTY,
    GASLIMIT,
    CHAINID,
    SELFBALANCE,
    BASEFEE,
    POP,
    MLOAD,
    MSTORE,
    MSTORE8,
    SLOAD,
    SSTORE,
    JUMP,
    JUMPI,
    PC,
    MSIZE,
    GAS,
    JUMPDEST,
    PUSH0,
    PUSH1,
    PUSH2,
    PUSH3,
    PUSH4,
    PUSH5,
    PUSH6,
    PUSH7,
    PUSH8,
    PUSH9,
    PUSH10,
    PUSH11,
    PUSH12,
    PUSH13,
    PUSH14,
    PUSH15,
    PUSH16,
    PUSH17,
    PUSH18,
    PUSH19,
    PUSH20,
    PUSH21,
    PUSH22,
    PUSH23,
    PUSH24,
    PUSH25,
    PUSH26,
    PUSH27,
    PUSH28,
    PUSH29,
    PUSH30,
    PUSH31,
    PUSH32,
    DUP1,
    DUP2,
    DUP3,
    DUP4,
    DUP5,
    DUP6,
    DUP7,
    DUP8,
    DUP9,
    DUP10,
    DUP11,
    DUP12,
    DUP13,
    DUP14,
    DUP15,
    DUP16,
    SWAP1,
    SWAP2,
    SWAP3,
    SWAP4,
    SWAP5,
    SWAP6,
    SWAP7,
    SWAP8,
    SWAP9,
    SWAP10,
    SWAP11,
    SWAP12,
    SWAP13,
    SWAP14,
    SWAP15,
    SWAP16,
    LOG0,
    LOG1,
    LOG2,
    LOG3,
    LOG4,
    DATALOADN,
    RJUMP,
    RJUMPI,
    RJUMPV,
    CALLF,
    RETF,
    JUMPF,
    DUPN,
    SWAPN,
    EXCHANGE,
    EOFCREATE,
    TXCREATE,
    RETURNCONTRACT,
    CREATE,
    CALL,
    CALLCODE,
    RETURN,
    DELEGATECALL,
    CREATE2,
    STATICCALL,
    REVERT,
    INVALID,
    SELFDESTRUCT,
}

impl Opcode {
    /// The byte that encodes this opcode.
    pub open spec fn code(self) -> u8 {
        match self {
            Opcode::STOP => 0x00,
            Opcode::ADD => 0x01,
            Opcode::MUL => 0x02,
            Opcode::SUB => 0x03,
            Opcode::DIV => 0x04,
            Opcode::SDIV => 0x05,
            Opcode::MOD => 0x06,
            Opcode::SMOD => 0x07,
            Opcode::ADDMOD => 0x08,
            Opcode::MULMOD => 0x09,
            Opcode::EXP => 0x0a,
            Opcode::SIGNEXTEND => 0x0b,
            Opcode::LT => 0x10,
            Opcode::GT => 0x11,
            Opcode::SLT => 0x12,
            Opcode::SGT => 0x13,
            Opcode::EQ => 0x14,
            Opcode::ISZERO => 0x15,
            Opcode::AND => 0x16,
            Opcode::OR => 0x17,
            Opcode::XOR => 0x18,
            Opcode::NOT => 0x19,
            Opcode::BYTE => 0x1a,
            Opcode::SHL => 0x1b,
            Opcode::SHR => 0x1c,
            Opcode::SAR => 0x1d,
            Opcode::SHA3 => 0x20,
            Opcode::ADDRESS => 0x30,
            Opcode::BALANCE => 0x31,
            Opcode::ORIGIN => 0x32,
            Opcode::CALLER => 0x33,
            Opcode::CALLVALUE => 0x34,
            Opcode::CALLDATALOAD => 0x35,
            Opcode::CALLDATASIZE => 0x36,
            Opcode::CALLDATACOPY => 0x37,
            Opcode::CODESIZE => 0x38,
            Opcode::CODECOPY => 0x39,
            Opcode::GASPRICE => 0x3a,
            Opcode::EXTCODESIZE => 0x3b,
            Opcode::EXTCODECOPY => 0x3c,
            Opcode::RETURNDATASIZE => 0x3d,
            Opcode::RETURNDATACOPY => 0x3e,
            Opcode::EXTCODEHASH => 0x3f,
            Opcode::BLOCKHASH => 0x40,
            Opcode::COINBASE => 0x41,
            Opcode::TIMESTAMP => 0x42,
            Opcode::NUMBER => 0x43,
            Opcode::DIFFICULTY => 0x44,
            Opcode::GASLIMIT => 0x45,
            Opcode::CHAINID => 0x46,
            Opcode::SELFBALANCE => 0x47,
            Opcode::BASEFEE => 0x48,
            Opcode::POP => 0x50,
            Opcode::MLOAD => 0x51,
            Opcode::MSTORE => 0x52,
            Opcode::MSTORE8 => 0x53,
            Opcode::SLOAD => 0x54,
            Opcode::SSTORE => 0x55,
            Opcode::JUMP => 0x56,
            Opcode::JUMPI => 0x57,
            Opcode::PC => 0x58,
            Opcode::MSIZE => 0x59,
            Opcode::GAS => 0x5a,
            Opcode::JUMPDEST => 0x5b,
            Opcode::PUSH0 => 0x5f,
            Opcode::PUSH1 => 0x60,
            Opcode::PUSH2 => 0x61,
            Opcode::PUSH3 => 0x62,
            Opcode::PUSH4 => 0x63,
            Opcode::PUSH5 => 0x64,
            Opcode::PUSH6 => 0x65,
            Opcode::PUSH7 => 0x66,
            Opcode::PUSH8 => 0x67,
            Opcode::PUSH9 => 0x68,
            Opcode::PUSH10 => 0x69,
            Opcode::PUSH11 => 0x6a,
            Opcode::PUSH12 => 0x6b,
            Opcode::PUSH13 => 0x6c,
            Opcode::PUSH14 => 0x6d,
            Opcode::PUSH15 => 0x6e,
            Opcode::PUSH16 => 0x6f,
            Opcode::PUSH17 => 0x70,
            Opcode::PUSH18 => 0x71,
            Opcode::PUSH19 => 0x72,
            Opcode::PUSH20 => 0x73,
            Opcode::PUSH21 => 0x74,
            Opcode::PUSH22 => 0x75,
            Opcode::PUSH23 => 0x76,
            Opcode::PUSH24 => 0x77,
            Opcode::PUSH25 => 0x78,
            Opcode::PUSH26 => 0x79,
            Opcode::PUSH27 => 0x7a,
            Opcode::PUSH28 => 0x7b,
            Opcode::PUSH29 => 0x7c,
            Opcode::PUSH30 => 0x7d,
            Opcode::PUSH31 => 0x7e,
            Opcode::PUSH32 => 0x7f,
            Opcode::DUP1 => 0x80,
            Opcode::DUP2 => 0x81,
            Opcode::DUP3 => 0x82,
            Opcode::DUP4 => 0x83,
            Opcode::DUP5 => 0x84,
            Opcode::DUP6 => 0x85,
            Opcode::DUP7 => 0x86,
            Opcode::DUP8 => 0x87,
            Opcode::DUP9 => 0x88,
            Opcode::DUP10 => 0x89,
            Opcode::DUP11 => 0x8a,
            Opcode::DUP12 => 0x8b,
            Opcode::DUP13 => 0x8c,
            Opcode::DUP14 => 0x8d,
            Opcode::DUP15 => 0x8e,
            Opcode::DUP16 => 0x8f,
            Opcode::SWAP1 => 0x90,
            Opcode::SWAP2 => 0x91,
            Opcode::SWAP3 => 0x92,
            Opcode::SWAP4 => 0x93,
            Opcode::SWAP5 => 0x94,
            Opcode::SWAP6 => 0x95,
            Opcode::SWAP7 => 0x96,
            Opcode::SWAP8 => 0x97,
            Opcode::SWAP9 => 0x98,
            Opcode::SWAP10 => 0x99,
            Opcode::SWAP11 => 0x9a,
            Opcode::SWAP12 => 0x9b,
            Opcode::SWAP13 => 0x9c,
            Opcode::SWAP14 => 0x9d,
            Opcode::SWAP15 => 0x9e,
            Opcode::SWAP16 => 0x9f,
            Opcode::LOG0 => 0xa0,
            Opcode::LOG1 => 0xa1,
            Opcode::LOG2 => 0xa2,
            Opcode::LOG3 => 0xa3,
            Opcode::LOG4 => 0xa4,
            Opcode::DATALOADN => 0xd1,
            Opcode::RJUMP => 0xe0,
            Opcode::RJUMPI => 0xe1,
            Opcode::RJUMPV => 0xe2,
            Opcode::CALLF => 0xe3,
            Opcode::RETF => 0xe4,
            Opcode::JUMPF => 0xe5,
            Opcode::DUPN => 0xe6,
            Opcode::SWAPN => 0xe7,
            Opcode::EXCHANGE => 0xe8,
            Opcode::EOFCREATE => 0xec,
            Opcode::TXCREATE => 0xed,
            Opcode::RETURNCONTRACT => 0xee,
            Opcode::CREATE => 0xf0,
            Opcode::CALL => 0xf1,
            Opcode::CALLCODE => 0xf2,
            Opcode::RETURN => 0xf3,
            Opcode::DELEGATECALL => 0xf4,
            Opcode::CREATE2 => 0xf5,
            Opcode::STATICCALL => 0xfa,
            Opcode::REVERT => 0xfd,
            Opcode::INVALID => 0xfe,
            Opcode::SELFDESTRUCT => 0xff,
        }
    }

    /// Whether this opcode exists only in the object-format grammar.
    pub open spec fn is_eof_only(self) -> bool {
        match self {
            Opcode::DATALOADN
            | Opcode::RJUMP
            | Opcode::RJUMPI
            | Opcode::RJUMPV
            | Opcode::CALLF
            | Opcode::RETF
            | Opcode::JUMPF
            | Opcode::DUPN
            | Opcode::SWAPN
            | Opcode::EXCHANGE
            | Opcode::EOFCREATE
            | Opcode::TXCREATE
            | Opcode::RETURNCONTRACT => true,
            _ => false,
        }
    }

    /// Whether grammar `g` has this opcode.
    pub open spec fn in_grammar(self, g: Grammar) -> bool {
        g == Grammar::Eof || !self.is_eof_only()
    }

    /// Whether grammar `g` assigns an opcode to `byte`.
    pub open spec fn defined(byte: u8, g: Grammar) -> bool {
        exists|op: Opcode| #[trigger] op.code() == byte && op.in_grammar(g)
    }

    /// The opcode that `byte` stands for under grammar `g`: the one opcode of
    /// that grammar whose code is `byte`, and `INVALID` where there is none.
    pub open spec fn resolve_spec(byte: u8, g: Grammar) -> Opcode {
        if Self::defined(byte, g) {
            choose|op: Opcode| #[trigger] op.code() == byte && op.in_grammar(g)
        } else {
            Opcode::INVALID
        }
    }

    /// No two opcodes share a code, so a byte names at most one opcode.
    pub proof fn lemma_code_injective(a: Opcode, b: Opcode)
        requires
            a.code() == b.code(),
        ensures
            a == b,
    {
    }

    /// An opcode resolves from its own code in every grammar that has it.
    pub proof fn lemma_resolve_code(op: Opcode, g: Grammar)
        requires
            op.in_grammar(g),
        ensures
            Opcode::resolve_spec(op.code(), g) == op,
    {
        let found = Opcode::resolve_spec(op.code(), g);
        Self::lemma_code_injective(found, op);
    }

    /// The opcodes that only the object-format grammar has, by their byte.
    pub fn eof_extension(byte: u8) -> (r: Option<Opcode>)
        ensures
            match r {
                Some(op) => op.code() == byte && op.is_eof_only(),
                None => forall|op: Opcode| #[trigger] op.code() == byte ==> !op.is_eof_only(),
            },
    {
        match byte {
            0xd1 => Some(Opcode::DATALOADN),
            0xe0 => Some(Opcode::RJUMP),
            0xe1 => Some(Opcode::RJUMPI),
            0xe2 => Some(Opcode::RJUMPV),
            0xe3 => Some(Opcode::CALLF),
            0xe4 => Some(Opcode::RETF),
            0xe5 => Some(Opcode::JUMPF),
            0xe6 => Some(Opcode::DUPN),
            0xe7 => Some(Opcode::SWAPN),
            0xe8 => Some(Opcode::EXCHANGE),
            0xec => Some(Opcode::EOFCREATE),
            0xed => Some(Opcode::TXCREATE),
            0xee => Some(Opcode::RETURNCONTRACT),
            _ => None,
        }
    }

    /// The mnemonic of this opcode, as it stands in a listing.
    pub open spec fn mnemonic_spec(self) -> Seq<char> {
        match self {
            Opcode::STOP => "STOP"@,
            Opcode::ADD => "ADD"@,
            Opcode::MUL => "MUL"@,
            Opcode::SUB => "SUB"@,
            Opcode::DIV => "DIV"@,
            Opcode::SDIV => "SDIV"@,
            Opcode::MOD => "MOD"@,
            Opcode::SMOD => "SMOD"@,
            Opcode::ADDMOD => "ADDMOD"@,
            Opcode::MULMOD => "MULMOD"@,
            Opcode::EXP => "EXP"@,
            Opcode::SIGNEXTEND => "SIGNEXTEND"@,
            Opcode::LT => "LT"@,
            Opcode::GT => "GT"@,
            Opcode::SLT => "SLT"@,
            Opcode::SGT => "SGT"@,
            Opcode::EQ => "EQ"@,
            Opcode::ISZERO => "ISZERO"@,
            Opcode::AND => "AND"@,
            Opcode::OR => "OR"@,
            Opcode::XOR => "XOR"@,
            Opcode::NOT => "NOT"@,
            Opcode::BYTE => "BYTE"@,
            Opcode::SHL => "SHL"@,
            Opcode::SHR => "SHR"@,
            Opcode::SAR => "SAR"@,
            Opcode::SHA3 => "SHA3"@,
            Opcode::ADDRESS => "ADDRESS"@,
            Opcode::BALANCE => "BALANCE"@,
            Opcode::ORIGIN => "ORIGIN"@,
            Opcode::CALLER => "CALLER"@,
            Opcode::CALLVALUE => "CALLVALUE"@,
            Opcode::CALLDATALOAD => "CALLDATALOAD"@,
            Opcode::CALLDATASIZE => "CALLDATASIZE"@,
            Opcode::CALLDATACOPY => "CALLDATACOPY"@,
            Opcode::CODESIZE => "CODESIZE"@,
            Opcode::CODECOPY => "CODECOPY"@,
            Opcode::GASPRICE => "GASPRICE"@,
            Opcode::EXTCODESIZE => "EXTCODESIZE"@,
            Opcode::EXTCODECOPY => "EXTCODECOPY"@,
            Opcode::RETURNDATASIZE => "RETURNDATASIZE"@,
            Opcode::RETURNDATACOPY => "RETURNDATACOPY"@,
            Opcode::EXTCODEHASH => "EXTCODEHASH"@,
            Opcode::BLOCKHASH => "BLOCKHASH"@,
            Opcode::COINBASE => "COINBASE"@,
            Opcode::TIMESTAMP => "TIMESTAMP"@,
            Opcode::NUMBER => "NUMBER"@,
            Opcode::DIFFICULTY => "DIFFICULTY"@,
            Opcode::GASLIMIT => "GASLIMIT"@,
            Opcode::CHAINID => "CHAINID"@,
            Opcode::SELFBALANCE => "SELFBALANCE"@,
            Opcode::BASEFEE => "BASEFEE"@,
            Opcode::POP => "POP"@,
            Opcode::MLOAD => "MLOAD"@,
            Opcode::MSTORE => "MSTORE"@,
            Opcode::MSTORE8 => "MSTORE8"@,
            Opcode::SLOAD => "SLOAD"@,
            Opcode::SSTORE => "SSTORE"@,
            Opcode::JUMP => "JUMP"@,
            Opcode::JUMPI => "JUMPI"@,
            Opcode::PC => "PC"@,
            Opcode::MSIZE => "MSIZE"@,
            Opcode::GAS => "GAS"@,
            Opcode::JUMPDEST => "JUMPDEST"@,
            Opcode::PUSH0 => "PUSH0"@,
            Opcode::PUSH1 => "PUSH1"@,
            Opcode::PUSH2 => "PUSH2"@,
            Opcode::PUSH3 => "PUSH3"@,
            Opcode::PUSH4 => "PUSH4"@,
            Opcode::PUSH5 => "PUSH5"@,
            Opcode::PUSH6 => "PUSH6"@,
            Opcode::PUSH7 => "PUSH7"@,
            Opcode::PUSH8 => "PUSH8"@,
            Opcode::PUSH9 => "PUSH9"@,
            Opcode::PUSH10 => "PUSH10"@,
            Opcode::PUSH11 => "PUSH11"@,
            Opcode::PUSH12 => "PUSH12"@,
            Opcode::PUSH13 => "PUSH13"@,
            Opcode::PUSH14 => "PUSH14"@,
            Opcode::PUSH15 => "PUSH15"@,
            Opcode::PUSH16 => "PUSH16"@,
            Opcode::PUSH17 => "PUSH17"@,
            Opcode::PUSH18 => "PUSH18"@,
            Opcode::PUSH19 => "PUSH19"@,
            Opcode::PUSH20 => "PUSH20"@,
            Opcode::PUSH21 => "PUSH21"@,
            Opcode::PUSH22 => "PUSH22"@,
            Opcode::PUSH23 => "PUSH23"@,
            Opcode::PUSH24 => "PUSH24"@,
            Opcode::PUSH25 => "PUSH25"@,
            Opcode::PUSH26 => "PUSH26"@,
            Opcode::PUSH27 => "PUSH27"@,
            Opcode::PUSH28 => "PUSH28"@,
            Opcode::PUSH29 => "PUSH29"@,
            Opcode::PUSH30 => "PUSH30"@,
            Opcode::PUSH31 => "PUSH31"@,
            Opcode::PUSH32 => "PUSH32"@,
            Opcode::DUP1 => "DUP1"@,
            Opcode::DUP2 => "DUP2"@,
            Opcode::DUP3 => "DUP3"@,
            Opcode::DUP4 => "DUP4"@,
            Opcode::DUP5 => "DUP5"@,
            Opcode::DUP6 => "DUP6"@,
            Opcode::DUP7 => "DUP7"@,
            Opcode::DUP8 => "DUP8"@,
            Opcode::DUP9 => "DUP9"@,
            Opcode::DUP10 => "DUP10"@,
            Opcode::DUP11 => "DUP11"@,
            Opcode::DUP12 => "DUP12"@,
            Opcode::DUP13 => "DUP13"@,
            Opcode::DUP14 => "DUP14"@,
            Opcode::DUP15 => "DUP15"@,
            Opcode::DUP16 => "DUP16"@,
            Opcode::SWAP1 => "SWAP1"@,
            Opcode::SWAP2 => "SWAP2"@,
            Opcode::SWAP3 => "SWAP3"@,
            Opcode::SWAP4 => "SWAP4"@,
            Opcode::SWAP5 => "SWAP5"@,
            Opcode::SWAP6 => "SWAP6"@,
            Opcode::SWAP7 => "SWAP7"@,
            Opcode::SWAP8 => "SWAP8"@,
            Opcode::SWAP9 => "SWAP9"@,
            Opcode::SWAP10 => "SWAP10"@,
            Opcode::SWAP11 => "SWAP11"@,
            Opcode::SWAP12 => "SWAP12"@,
            Opcode::SWAP13 => "SWAP13"@,
            Opcode::SWAP14 => "SWAP14"@,
            Opcode::SWAP15 => "SWAP15"@,
            Opcode::SWAP16 => "SWAP16"@,
            Opcode::LOG0 => "LOG0"@,
            Opcode::LOG1 => "LOG1"@,
            Opcode::LOG2 => "LOG2"@,
            Opcode::LOG3 => "LOG3"@,
            Opcode::LOG4 => "LOG4"@,
            Opcode::DATALOADN => "DATALOADN"@,
            Opcode::RJUMP => "RJUMP"@,
            Opcode::RJUMPI => "RJUMPI"@,
            Opcode::RJUMPV => "RJUMPV"@,
            Opcode::CALLF => "CALLF"@,
            Opcode::RETF => "RETF"@,
            Opcode::JUMPF => "JUMPF"@,
            Opcode::DUPN => "DUPN"@,
            Opcode::SWAPN => "SWAPN"@,
            Opcode::EXCHANGE => "EXCHANGE"@,
            Opcode::EOFCREATE => "EOFCREATE"@,
            Opcode::TXCREATE => "TXCREATE"@,
            Opcode::RETURNCONTRACT => "RETURNCONTRACT"@,
            Opcode::CREATE => "CREATE"@,
            Opcode::CALL => "CALL"@,
            Opcode::CALLCODE => "CALLCODE"@,
            Opcode::RETURN => "RETURN"@,
            Opcode::DELEGATECALL => "DELEGATECALL"@,
            Opcode::CREATE2 => "CREATE2"@,
            Opcode::STATICCALL => "STATICCALL"@,
            Opcode::REVERT => "REVERT"@,
            Opcode::INVALID => "INVALID"@,
            Opcode::SELFDESTRUCT => "SELFDESTRUCT"@,
        }
    }

    /// The mnemonic of this opcode.
    pub fn mnemonic(self) -> (r: &'static str)
        ensures
            r@ == self.mnemonic_spec(),
    {
        match self {
            Opcode::STOP => "STOP",
            Opcode::ADD => "ADD",
            Opcode::MUL => "MUL",
            Opcode::SUB => "SUB",
            Opcode::DIV => "DIV",
            Opcode::SDIV => "SDIV",
            Opcode::MOD => "MOD",
            Opcode::SMOD => "SMOD",
            Opcode::ADDMOD => "ADDMOD",
            Opcode::MULMOD => "MULMOD",
            Opcode::EXP => "EXP",
            Opcode::SIGNEXTEND => "SIGNEXTEND",
            Opcode::LT => "LT",
            Opcode::GT => "GT",
            Opcode::SLT => "SLT",
            Opcode::SGT => "SGT",
            Opcode::EQ => "EQ",
            Opcode::ISZERO => "ISZERO",
            Opcode::AND => "AND",
            Opcode::OR => "OR",
            Opcode::XOR => "XOR",
            Opcode::NOT => "NOT",
            Opcode::BYTE => "BYTE",
            Opcode::SHL => "SHL",
            Opcode::SHR => "SHR",
            Opcode::SAR => "SAR",
            Opcode::SHA3 => "SHA3",
            Opcode::ADDRESS => "ADDRESS",
            Opcode::BALANCE => "BALANCE",
            Opcode::ORIGIN => "ORIGIN",
            Opcode::CALLER => "CALLER",
            Opcode::CALLVALUE => "CALLVALUE",
            Opcode::CALLDATALOAD => "CALLDATALOAD",
            Opcode::CALLDATASIZE => "CALLDATASIZE",
            Opcode::CALLDATACOPY => "CALLDATACOPY",
            Opcode::CODESIZE => "CODESIZE",
            Opcode::CODECOPY => "CODECOPY",
            Opcode::GASPRICE => "GASPRICE",
            Opcode::EXTCODESIZE => "EXTCODESIZE",
            Opcode::EXTCODECOPY => "EXTCODECOPY",
            Opcode::RETURNDATASIZE => "RETURNDATASIZE",
            Opcode::RETURNDATACOPY => "RETURNDATACOPY",
            Opcode::EXTCODEHASH => "EXTCODEHASH",
            Opcode::BLOCKHASH => "BLOCKHASH",
            Opcode::COINBASE => "COINBASE",
            Opcode::TIMESTAMP => "TIMESTAMP",
            Opcode::NUMBER => "NUMBER",
            Opcode::DIFFICULTY => "DIFFICULTY",
            Opcode::GASLIMIT => "GASLIMIT",
            Opcode::CHAINID => "CHAINID",
            Opcode::SELFBALANCE => "SELFBALANCE",
            Opcode::BASEFEE => "BASEFEE",
            Opcode::POP => "POP",
            Opcode::MLOAD => "MLOAD",
            Opcode::MSTORE => "MSTORE",
            Opcode::MSTORE8 => "MSTORE8",
            Opcode::SLOAD => "SLOAD",
            Opcode::SSTORE => "SSTORE",
            Opcode::JUMP => "JUMP",
            Opcode::JUMPI => "JUMPI",
            Opcode::PC => "PC",
            Opcode::MSIZE => "MSIZE",
            Opcode::GAS => "GAS",
            Opcode::JUMPDEST => "JUMPDEST",
            Opcode::PUSH0 => "PUSH0",
            Opcode::PUSH1 => "PUSH1",
            Opcode::PUSH2 => "PUSH2",
            Opcode::PUSH3 => "PUSH3",
            Opcode::PUSH4 => "PUSH4",
            Opcode::PUSH5 => "PUSH5",
            Opcode::PUSH6 => "PUSH6",
            Opcode::PUSH7 => "PUSH7",
            Opcode::PUSH8 => "PUSH8",
            Opcode::PUSH9 => "PUSH9",
            Opcode::PUSH10 => "PUSH10",
            Opcode::PUSH11 => "PUSH11",
            Opcode::PUSH12 => "PUSH12",
            Opcode::PUSH13 => "PUSH13",
            Opcode::PUSH14 => "PUSH14",
            Opcode::PUSH15 => "PUSH15",
            Opcode::PUSH16 => "PUSH16",
            Opcode::PUSH17 => "PUSH17",
            Opcode::PUSH18 => "PUSH18",
            Opcode::PUSH19 => "PUSH19",
            Opcode::PUSH20 => "PUSH20",
            Opcode::PUSH21 => "PUSH21",
            Opcode::PUSH22 => "PUSH22",
            Opcode::PUSH23 => "PUSH23",
            Opcode::PUSH24 => "PUSH24",
            Opcode::PUSH25 => "PUSH25",
            Opcode::PUSH26 => "PUSH26",
            Opcode::PUSH27 => "PUSH27",
            Opcode::PUSH28 => "PUSH28",
            Opcode::PUSH29 => "PUSH29",
            Opcode::PUSH30 => "PUSH30",
            Opcode::PUSH31 => "PUSH31",
            Opcode::PUSH32 => "PUSH32",
            Opcode::DUP1 => "DUP1",
            Opcode::DUP2 => "DUP2",
            Opcode::DUP3 => "DUP3",
            Opcode::DUP4 => "DUP4",
            Opcode::DUP5 => "DUP5",
            Opcode::DUP6 => "DUP6",
            Opcode::DUP7 => "DUP7",
            Opcode::DUP8 => "DUP8",
            Opcode::DUP9 => "DUP9",
            Opcode::DUP10 => "DUP10",
            Opcode::DUP11 => "DUP11",
            Opcode::DUP12 => "DUP12",
            Opcode::DUP13 => "DUP13",
            Opcode::DUP14 => "DUP14",
            Opcode::DUP15 => "DUP15",
            Opcode::DUP16 => "DUP16",
            Opcode::SWAP1 => "SWAP1",
            Opcode::SWAP2 => "SWAP2",
            Opcode::SWAP3 => "SWAP3",
            Opcode::SWAP4 => "SWAP4",
            Opcode::SWAP5 => "SWAP5",
            Opcode::SWAP6 => "SWAP6",
            Opcode::SWAP7 => "SWAP7",
            Opcode::SWAP8 => "SWAP8",
            Opcode::SWAP9 => "SWAP9",
            Opcode::SWAP10 => "SWAP10",
            Opcode::SWAP11 => "SWAP11",
            Opcode::SWAP12 => "SWAP12",
            Opcode::SWAP13 => "SWAP13",
            Opcode::SWAP14 => "SWAP14",
            Opcode::SWAP15 => "SWAP15",
            Opcode::SWAP16 => "SWAP16",
            Opcode::LOG0 => "LOG0",
            Opcode::LOG1 => "LOG1",
            Opcode::LOG2 => "LOG2",
            Opcode::LOG3 => "LOG3",
            Opcode::LOG4 => "LOG4",
            Opcode::DATALOADN => "DATALOADN",
            Opcode::RJUMP => "RJUMP",
            Opcode::RJUMPI => "RJUMPI",
            Opcode::RJUMPV => "RJUMPV",
            Opcode::CALLF => "CALLF",
            Opcode::RETF => "RETF",
            Opcode::JUMPF => "JUMPF",
            Opcode::DUPN => "DUPN",
            Opcode::SWAPN => "SWAPN",
            Opcode::EXCHANGE => "EXCHANGE",
            Opcode::EOFCREATE => "EOFCREATE",
            Opcode::TXCREATE => "TXCREATE",
            Opcode::RETURNCONTRACT => "RETURNCONTRACT",
            Opcode::CREATE => "CREATE",
            Opcode::CALL => "CALL",
            Opcode::CALLCODE => "CALLCODE",
            Opcode::RETURN => "RETURN",
            Opcode::DELEGATECALL => "DELEGATECALL",
            Opcode::CREATE2 => "CREATE2",
            Opcode::STATICCALL => "STATICCALL",
            Opcode::REVERT => "REVERT",
            Opcode::INVALID => "INVALID",
            Opcode::SELFDESTRUCT => "SELFDESTRUCT",
        }
    }

    /// Convert a byte into an Opcode
    pub fn from_byte(byte: u8) -> (r: Opcode)
        ensures
            r == Opcode::resolve_spec(byte, Grammar::Legacy),
            Opcode::defined(byte, Grammar::Legacy) ==> r.code() == byte && !r.is_eof_only(),
            !Opcode::defined(byte, Grammar::Legacy) ==> r == Opcode::INVALID,
    {
        match Opcode::try_from(byte) {
            Ok(v) => v,
            Err(_) => Opcode::INVALID,
        }
    }

    /// Convert a byte into an Opcode under the given grammar. Every byte has
    /// an opcode: one that the grammar leaves undefined is `INVALID`.
    pub fn resolve(byte: u8, grammar: Grammar) -> (r: Opcode)
        ensures
            r == Opcode::resolve_spec(byte, grammar),
            Opcode::defined(byte, grammar) ==> r.code() == byte && r.in_grammar(grammar),
            !Opcode::defined(byte, grammar) ==> r == Opcode::INVALID,
    {
        match grammar {
            Grammar::Legacy => Opcode::from_byte(byte),
            Grammar::Eof => match Opcode::eof_extension(byte) {
                Some(op) => op,
                None => Opcode::from_byte(byte),
            },
        }
    }
}

impl TryFrom<u8> for Opcode {
    type Error = ();

    fn try_from(x: u8) -> (r: Result<Self, Self::Error>) {
        let r = match x {
            0x00 => Ok(Opcode::STOP),
            0x01 => Ok(Opcode::ADD),
            0x02 => Ok(Opcode::MUL),
            0x03 => Ok(Opcode::SUB),
            0x04 => Ok(Opcode::DIV),
            0x05 => Ok(Opcode::SDIV),
            0x06 => Ok(Opcode::MOD),
            0x07 => Ok(Opcode::SMOD),
            0x08 => Ok(Opcode::ADDMOD),
            0x09 => Ok(Opcode::MULMOD),
            0x0a => Ok(Opcode::EXP),
            0x0b => Ok(Opcode::SIGNEXTEND),
            0x10 => Ok(Opcode::LT),
            0x11 => Ok(Opcode::GT),
            0x12 => Ok(Opcode::SLT),
            0x13 => Ok(Opcode::SGT),
            0x14 => Ok(Opcode::EQ),
            0x15 => Ok(Opcode::ISZERO),
            0x16 => Ok(Opcode::AND),
            0x17 => Ok(Opcode::OR),
            0x18 => Ok(Opcode::XOR),
            0x19 => Ok(Opcode::NOT),
            0x1a => Ok(Opcode::BYTE),
            0x1b => Ok(Opcode::SHL),
            0x1c => Ok(Opcode::SHR),
            0x1d => Ok(Opcode::SAR),
            0x20 => Ok(Opcode::SHA3),
            0x30 => Ok(Opcode::ADDRESS),
            0x31 => Ok(Opcode::BALANCE),
            0x32 => Ok(Opcode::ORIGIN),
            0x33 => Ok(Opcode::CALLER),
            0x34 => Ok(Opcode::CALLVALUE),
            0x35 => Ok(Opcode::CALLDATALOAD),
            0x36 => Ok(Opcode::CALLDATASIZE),
            0x37 => Ok(Opcode::CALLDATACOPY),
            0x38 => Ok(Opcode::CODESIZE),
            0x39 => Ok(Opcode::CODECOPY),
            0x3a => Ok(Opcode::GASPRICE),
            0x3b => Ok(Opcode::EXTCODESIZE),
            0x3c => Ok(Opcode::EXTCODECOPY),
            0x3d => Ok(Opcode::RETURNDATASIZE),
            0x3e => Ok(Opcode::RETURNDATACOPY),
            0x3f => Ok(Opcode::EXTCODEHASH),
            0x40 => Ok(Opcode::BLOCKHASH),
            0x41 => Ok(Opcode::COINBASE),
            0x42 => Ok(Opcode::TIMESTAMP),
            0x43 => Ok(Opcode::NUMBER),
            0x44 => Ok(Opcode::DIFFICULTY),
            0x45 => Ok(Opcode::GASLIMIT),
            0x46 => Ok(Opcode::CHAINID),
            0x47 => Ok(Opcode::SELFBALANCE),
            0x48 => Ok(Opcode::BASEFEE),
            0x50 => Ok(Opcode::POP),
            0x51 => Ok(Opcode::MLOAD),
            0x52 => Ok(Opcode::MSTORE),
            0x53 => Ok(Opcode::MSTORE8),
            0x54 => Ok(Opcode::SLOAD),
            0x55 => Ok(Opcode::SSTORE),
            0x56 => Ok(Opcode::JUMP),
            0x57 => Ok(Opcode::JUMPI),
            0x58 => Ok(Opcode::PC),
            0x59 => Ok(Opcode::MSIZE),
            0x5a => Ok(Opcode::GAS),
            0x5b => Ok(Opcode::JUMPDEST),
            0x5f => Ok(Opcode::PUSH0),
            0x60 => Ok(Opcode::PUSH1),
            0x61 => Ok(Opcode::PUSH2),
            0x62 => Ok(Opcode::PUSH3),
            0x63 => Ok(Opcode::PUSH4),
            0x64 => Ok(Opcode::PUSH5),
            0x65 => Ok(Opcode::PUSH6),
            0x66 => Ok(Opcode::PUSH7),
            0x67 => Ok(Opcode::PUSH8),
            0x68 => Ok(Opcode::PUSH9),
            0x69 => Ok(Opcode::PUSH10),
            0x6a => Ok(Opcode::PUSH11),
            0x6b => Ok(Opcode::PUSH12),
            0x6c => Ok(Opcode::PUSH13),
            0x6d => Ok(Opcode::PUSH14),
            0x6e => Ok(Opcode::PUSH15),
            0x6f => Ok(Opcode::PUSH16),
            0x70 => Ok(Opcode::PUSH17),
            0x71 => Ok(Opcode::PUSH18),
            0x72 => Ok(Opcode::PUSH19),
            0x73 => Ok(Opcode::PUSH20),
            0x74 => Ok(Opcode::PUSH21),
            0x75 => Ok(Opcode::PUSH22),
            0x76 => Ok(Opcode::PUSH23),
            0x77 => Ok(Opcode::PUSH24),
            0x78 => Ok(Opcode::PUSH25),
            0x79 => Ok(Opcode::PUSH26),
            0x7a => Ok(Opcode::PUSH27),
            0x7b => Ok(Opcode::PUSH28),
            0x7c => Ok(Opcode::PUSH29),
            0x7d => Ok(Opcode::PUSH30),
            0x7e => Ok(Opcode::PUSH31),
            0x7f => Ok(Opcode::PUSH32),
            0x80 => Ok(Opcode::DUP1),
            0x81 => Ok(Opcode::DUP2),
            0x82 => Ok(Opcode::DUP3),
            0x83 => Ok(Opcode::DUP4),
            0x84 => Ok(Opcode::DUP5),
            0x85 => Ok(Opcode::DUP6),
            0x86 => Ok(Opcode::DUP7),
            0x87 => Ok(Opcode::DUP8),
            0x88 => Ok(Opcode::DUP9),
            0x89 => Ok(Opcode::DUP10),
            0x8a => Ok(Opcode::DUP11),
            0x8b => Ok(Opcode::DUP12),
            0x8c => Ok(Opcode::DUP13),
            0x8d => Ok(Opcode::DUP14),
            0x8e => Ok(Opcode::DUP15),
            0x8f => Ok(Opcode::DUP16),
            0x90 => Ok(Opcode::SWAP1),
            0x91 => Ok(Opcode::SWAP2),
            0x92 => Ok(Opcode::SWAP3),
            0x93 => Ok(Opcode::SWAP4),
            0x94 => Ok(Opcode::SWAP5),
            0x95 => Ok(Opcode::SWAP6),
            0x96 => Ok(Opcode::SWAP7),
            0x97 => Ok(Opcode::SWAP8),
            0x98 => Ok(Opcode::SWAP9),
            0x99 => Ok(Opcode::SWAP10),
            0x9a => Ok(Opcode::SWAP11),
            0x9b => Ok(Opcode::SWAP12),
            0x9c => Ok(Opcode::SWAP13),
            0x9d => Ok(Opcode::SWAP14),
            0x9e => Ok(Opcode::SWAP15),
            0x9f => Ok(Opcode::SWAP16),
            0xa0 => Ok(Opcode::LOG0),
            0xa1 => Ok(Opcode::LOG1),
            0xa2 => Ok(Opcode::LOG2),
            0xa3 => Ok(Opcode::LOG3),
            0xa4 => Ok(Opcode::LOG4),
            0xf0 => Ok(Opcode::CREATE),
            0xf1 => Ok(Opcode::CALL),
            0xf2 => Ok(Opcode::CALLCODE),
            0xf3 => Ok(Opcode::RETURN),
            0xf4 => Ok(Opcode::DELEGATECALL),
            0xf5 => Ok(Opcode::CREATE2),
            0xfa => Ok(Opcode::STATICCALL),
            0xfd => Ok(Opcode::REVERT),
            0xfe => Ok(Opcode::INVALID),
            0xff => Ok(Opcode::SELFDESTRUCT),
            _ => Err(()),
        };
        proof {
            match r {
                Ok(op) => {
                    Opcode::lemma_resolve_code(op, Grammar::Legacy);
                },
                Err(_) => {
                },
            }
        }
        r
    }
}

impl vstd::std_specs::convert::TryFromSpecImpl<u8> for Opcode {
    open spec fn obeys_try_from_spec() -> bool {
        true
    }

    open spec fn try_from_spec(x: u8) -> Result<Self, Self::Error> {
        if Opcode::defined(x, Grammar::Legacy) {
            Ok(Opcode::resolve_spec(x, Grammar::Legacy))
        } else {
            Err(())
        }
    }
}

/// A decoded operation
///
/// An operation is represented by the combination of an opcode, the offset in the bytecode and any
/// additional bytes that are part of the operation (its immediate operand).
#[derive(Debug, PartialEq, Eq)]
pub struct Operation {
    /// The opcode
    pub opcode: Opcode,
    /// Additional bytes that are part of the Operation
    pub input: Vec<u8>,
    /// The offset in the bytecode
    pub offset: u32,
}

/// What an [`Operation`] stands for: its opcode, its immediate bytes as a
/// sequence, and its offset.
pub struct OperationView {
    pub opcode: Opcode,
    pub input: Seq<u8>,
    pub offset: u32,
}

impl View for Operation {
    type V = OperationView;

    open spec fn view(&self) -> OperationView {
        OperationView { opcode: self.opcode, input: self.input@, offset: self.offset }
    }
}

/// The views of `ops`, in order.
pub open spec fn views(ops: Seq<Operation>) -> Seq<OperationView> {
    ops.map_values(|op: Operation| op@)
}

impl Operation {
    /// Creates a new operation with empty `input` bytes
    pub fn new(opcode: Opcode, offset: u32) -> (r: Self)
        ensures
            r@ == (OperationView { opcode, input: Seq::<u8>::empty(), offset }),
    {
        Operation { opcode, offset, input: Vec::new() }
    }

    /// Adds additional bytes to the operation: the next `num_bytes` bytes of
    /// `bytes` become its input. With `num_bytes == 0` nothing is read and the
    /// operation is returned as it is. Where fewer than `num_bytes` bytes are
    /// left, nothing is read and the shortfall is reported.
    pub fn with_bytes(self, num_bytes: u8, bytes: &mut Cursor) -> (r: Result<Self, DecodeError>)
        ensures
            final(bytes).grammar_spec() == old(bytes).grammar_spec(),
            match r {
                Ok(operation) => {
                    &&& num_bytes <= old(bytes)@.len()
                    &&& num_bytes == 0 ==> operation == self
                    &&& num_bytes > 0 ==> operation@ == (OperationView {
                        opcode: self.opcode,
                        input: old(bytes)@.take(num_bytes as int),
                        offset: self.offset,
                    })
                    &&& final(bytes)@ == old(bytes)@.skip(num_bytes as int)
                },
                Err(e) => {
                    &&& num_bytes > old(bytes)@.len()
                    &&& e == (DecodeError::TruncatedImmediate {
                        offset: self.offset,
                        required: num_bytes as usize,
                        available: old(bytes)@.len() as usize,
                    })
                    &&& final(bytes)@ == old(bytes)@
                },
            },
    {
        if num_bytes == 0 {
            return Ok(self);
        }
        if num_bytes as usize > bytes.len() {
            return Err(
                DecodeError::TruncatedImmediate {
                    offset: self.offset,
                    required: num_bytes as usize,
                    available: bytes.len(),
                },
            );
        }
        Ok(Operation { opcode: self.opcode, offset: self.offset, input: bytes.take(num_bytes as usize) })
    }
}

} // verus!
