use evm_disassembler::cursor::Cursor;
use evm_disassembler::decode::{decode_operation, immediate_width, read_jump_table};
use evm_disassembler::hex_text::parse_hex;
use evm_disassembler::types::{DecodeError, Grammar, Opcode, Operation};

#[test]
fn from_byte_knows_the_legacy_table() {
    assert_eq!(Opcode::from_byte(0x00), Opcode::STOP);
    assert_eq!(Opcode::from_byte(0x0b), Opcode::SIGNEXTEND);
    assert_eq!(Opcode::from_byte(0x10), Opcode::LT);
    assert_eq!(Opcode::from_byte(0x1d), Opcode::SAR);
    assert_eq!(Opcode::from_byte(0x20), Opcode::SHA3);
    assert_eq!(Opcode::from_byte(0x30), Opcode::ADDRESS);
    assert_eq!(Opcode::from_byte(0x3f), Opcode::EXTCODEHASH);
    assert_eq!(Opcode::from_byte(0x44), Opcode::DIFFICULTY);
    assert_eq!(Opcode::from_byte(0x48), Opcode::BASEFEE);
    assert_eq!(Opcode::from_byte(0x50), Opcode::POP);
    assert_eq!(Opcode::from_byte(0x5b), Opcode::JUMPDEST);
    assert_eq!(Opcode::from_byte(0x5f), Opcode::PUSH0);
    assert_eq!(Opcode::from_byte(0x60), Opcode::PUSH1);
    assert_eq!(Opcode::from_byte(0x7f), Opcode::PUSH32);
    assert_eq!(Opcode::from_byte(0x80), Opcode::DUP1);
    assert_eq!(Opcode::from_byte(0x8f), Opcode::DUP16);
    assert_eq!(Opcode::from_byte(0x90), Opcode::SWAP1);
    assert_eq!(Opcode::from_byte(0x9f), Opcode::SWAP16);
    assert_eq!(Opcode::from_byte(0xa0), Opcode::LOG0);
    assert_eq!(Opcode::from_byte(0xa4), Opcode::LOG4);
    assert_eq!(Opcode::from_byte(0xf0), Opcode::CREATE);
    assert_eq!(Opcode::from_byte(0xf5), Opcode::CREATE2);
    assert_eq!(Opcode::from_byte(0xfa), Opcode::STATICCALL);
    assert_eq!(Opcode::from_byte(0xfd), Opcode::REVERT);
    assert_eq!(Opcode::from_byte(0xfe), Opcode::INVALID);
    assert_eq!(Opcode::from_byte(0xff), Opcode::SELFDESTRUCT);
}

#[test]
fn from_byte_gives_invalid_for_undefined_bytes() {
    for byte in [
        0x0c, 0x0f, 0x1e, 0x21, 0x2f, 0x4f, 0xa5, 0xb0, 0xd1, 0xe0, 0xe2, 0xee, 0xef, 0xf6, 0xfb,
    ] {
        assert_eq!(Opcode::from_byte(byte), Opcode::INVALID);
        assert_eq!(Opcode::try_from(byte), Err(()));
        assert_eq!(Opcode::resolve(byte, Grammar::Legacy), Opcode::INVALID);
    }
}

#[test]
fn try_from_agrees_with_from_byte() {
    let mut defined = 0;
    for byte in 0u8..=255 {
        match Opcode::try_from(byte) {
            Ok(opcode) => {
                defined += 1;
                assert_eq!(Opcode::from_byte(byte), opcode);
            }
            Err(()) => assert_eq!(Opcode::from_byte(byte), Opcode::INVALID),
        }
    }
    assert_eq!(defined, 144);
    assert_eq!(Opcode::try_from(0x01), Ok(Opcode::ADD));
    assert_eq!(Opcode::try_from(0xfe), Ok(Opcode::INVALID));
}

#[test]
fn resolve_adds_the_object_format_opcodes() {
    let extension = [
        (0xd1, Opcode::DATALOADN),
        (0xe0, Opcode::RJUMP),
        (0xe1, Opcode::RJUMPI),
        (0xe2, Opcode::RJUMPV),
        (0xe3, Opcode::CALLF),
        (0xe4, Opcode::RETF),
        (0xe5, Opcode::JUMPF),
        (0xe6, Opcode::DUPN),
        (0xe7, Opcode::SWAPN),
        (0xe8, Opcode::EXCHANGE),
        (0xec, Opcode::EOFCREATE),
        (0xed, Opcode::TXCREATE),
        (0xee, Opcode::RETURNCONTRACT),
    ];
    for (byte, opcode) in extension {
        assert_eq!(Opcode::resolve(byte, Grammar::Eof), opcode);
        assert_eq!(Opcode::eof_extension(byte), Some(opcode));
        assert_eq!(Opcode::resolve(byte, Grammar::Legacy), Opcode::INVALID);
    }
    let mut extended = 0;
    for byte in 0u8..=255 {
        match Opcode::eof_extension(byte) {
            Some(_) => extended += 1,
            None => assert_eq!(Opcode::resolve(byte, Grammar::Eof), Opcode::from_byte(byte)),
        }
    }
    assert_eq!(extended, 13);
    assert_eq!(Opcode::resolve(0xe9, Grammar::Eof), Opcode::INVALID);
    assert_eq!(Opcode::resolve(0xef, Grammar::Eof), Opcode::INVALID);
    assert_eq!(Opcode::resolve(0x01, Grammar::Eof), Opcode::ADD);
}

#[test]
fn mnemonics_are_the_opcode_names() {
    assert_eq!(Opcode::STOP.mnemonic(), "STOP");
    assert_eq!(Opcode::PUSH32.mnemonic(), "PUSH32");
    assert_eq!(Opcode::SHA3.mnemonic(), "SHA3");
    assert_eq!(Opcode::RETURNCONTRACT.mnemonic(), "RETURNCONTRACT");
    assert_eq!(Opcode::INVALID.mnemonic(), "INVALID");
    for byte in 0u8..=255 {
        let opcode = Opcode::resolve(byte, Grammar::Eof);
        assert_eq!(opcode.mnemonic(), format!("{:?}", opcode));
    }
}

#[test]
fn grammar_is_detected_from_the_first_two_bytes() {
    assert_eq!(Grammar::detect(&[0xef, 0x00]), Grammar::Eof);
    assert_eq!(Grammar::detect(&[0xef, 0x00, 0x01]), Grammar::Eof);
    assert_eq!(Grammar::detect(&[]), Grammar::Legacy);
    assert_eq!(Grammar::detect(&[0xef]), Grammar::Legacy);
    assert_eq!(Grammar::detect(&[0xef, 0x01]), Grammar::Legacy);
    assert_eq!(Grammar::detect(&[0x00, 0xef, 0x00]), Grammar::Legacy);
    assert_eq!(Cursor::detect(&[0xef, 0x00]).grammar(), Grammar::Eof);
    assert_eq!(Cursor::detect(&[0x60, 0x00]).grammar(), Grammar::Legacy);
}

#[test]
fn new_operation_has_no_input() {
    let operation = Operation::new(Opcode::ADD, 7);
    assert_eq!(operation.opcode, Opcode::ADD);
    assert_eq!(operation.offset, 7);
    assert!(operation.input.is_empty());
}

#[test]
fn with_bytes_reads_the_operand() {
    let code = [1u8, 2, 3, 4];
    let mut bytes = Cursor::new(&code, Grammar::Legacy);
    let operation = Operation::new(Opcode::PUSH3, 9).with_bytes(3, &mut bytes).unwrap();
    assert_eq!(operation.opcode, Opcode::PUSH3);
    assert_eq!(operation.offset, 9);
    assert_eq!(operation.input, vec![1, 2, 3]);
    assert_eq!(bytes.len(), 1);
    assert_eq!(bytes.peek(), Some(4));
}

#[test]
fn with_bytes_of_zero_reads_nothing() {
    let code = [1u8, 2];
    let mut bytes = Cursor::new(&code, Grammar::Legacy);
    let operation = Operation::new(Opcode::ADD, 0).with_bytes(0, &mut bytes).unwrap();
    assert_eq!(operation, Operation::new(Opcode::ADD, 0));
    assert_eq!(bytes.len(), 2);
}

#[test]
fn with_bytes_reports_missing_bytes() {
    let code = [1u8, 2];
    let mut bytes = Cursor::new(&code, Grammar::Legacy);
    let result = Operation::new(Opcode::PUSH4, 5).with_bytes(4, &mut bytes);
    assert_eq!(
        result,
        Err(DecodeError::TruncatedImmediate {
            offset: 5,
            required: 4,
            available: 2
        })
    );
    assert_eq!(result.unwrap_err().shortfall(), 2);
    assert_eq!(bytes.len(), 2);
}

#[test]
fn cursor_hands_out_bytes_in_order() {
    let code = [10u8, 20, 30, 40, 50];
    let mut bytes = Cursor::new(&code, Grammar::Eof);
    assert_eq!(bytes.grammar(), Grammar::Eof);
    assert_eq!(bytes.len(), 5);
    assert!(!bytes.is_empty());
    assert_eq!(bytes.peek(), Some(10));
    assert_eq!(bytes.next(), Some(10));
    assert_eq!(bytes.take(2), vec![20, 30]);
    assert_eq!(bytes.len(), 2);
    assert_eq!(bytes.take(0), vec![]);
    assert_eq!(bytes.take(7), vec![40, 50]);
    assert!(bytes.is_empty());
    assert_eq!(bytes.peek(), None);
    assert_eq!(bytes.next(), None);
    assert_eq!(bytes.take(1), vec![]);
    assert_eq!(bytes.grammar(), Grammar::Eof);
}

#[test]
fn decode_operation_returns_the_next_offset() {
    let code = [0x61u8, 0xaa, 0xbb, 0x00];
    let mut bytes = Cursor::new(&code, Grammar::Legacy);
    let (operation, offset) = decode_operation(&mut bytes, 100).unwrap();
    assert_eq!(
        operation,
        Operation {
            opcode: Opcode::PUSH2,
            input: vec![0xaa, 0xbb],
            offset: 100
        }
    );
    assert_eq!(offset, 103);
    let (operation, offset) = decode_operation(&mut bytes, offset).unwrap();
    assert_eq!(operation, Operation::new(Opcode::STOP, 103));
    assert_eq!(offset, 104);
    assert!(bytes.is_empty());
}

#[test]
fn decode_operation_reads_the_opcode_byte_of_a_truncated_operation() {
    let code = [0x62u8, 0xaa];
    let mut bytes = Cursor::new(&code, Grammar::Legacy);
    let result = decode_operation(&mut bytes, 4);
    assert_eq!(
        result,
        Err(DecodeError::TruncatedImmediate {
            offset: 4,
            required: 3,
            available: 1
        })
    );
    assert_eq!(bytes.len(), 1);
}

#[test]
fn decode_operation_follows_the_grammar_of_the_cursor() {
    let code = [0xe6u8, 0x01];
    let mut legacy = Cursor::new(&code, Grammar::Legacy);
    assert_eq!(
        decode_operation(&mut legacy, 0),
        Ok((Operation::new(Opcode::INVALID, 0), 1))
    );
    let mut eof = Cursor::new(&code, Grammar::Eof);
    assert_eq!(
        decode_operation(&mut eof, 0),
        Ok((
            Operation {
                opcode: Opcode::DUPN,
                input: vec![0x01],
                offset: 0
            },
            2
        ))
    );
}

#[test]
fn jump_table_is_read_whole_or_not_at_all() {
    let code = [0x01u8, 0xa0, 0xa1, 0xb0, 0xb1, 0x00];
    let mut bytes = Cursor::new(&code, Grammar::Eof);
    assert_eq!(
        read_jump_table(&mut bytes, 3),
        Ok(vec![0x01, 0xa0, 0xa1, 0xb0, 0xb1])
    );
    assert_eq!(bytes.len(), 1);
    let mut short = Cursor::new(&code[..4], Grammar::Eof);
    assert_eq!(
        read_jump_table(&mut short, 3),
        Err(DecodeError::TruncatedImmediate {
            offset: 3,
            required: 5,
            available: 4
        })
    );
    assert_eq!(short.len(), 4);
    let mut none = Cursor::new(&[], Grammar::Eof);
    assert_eq!(read_jump_table(&mut none, 3), Ok(vec![]));
}

#[test]
fn parse_hex_reads_pairs_of_digits() {
    assert_eq!(parse_hex("0x00ff10Ab"), Ok(vec![0x00, 0xff, 0x10, 0xab]));
    assert_eq!(parse_hex("abc"), Ok(vec![0x0a, 0xbc]));
    assert_eq!(parse_hex("0xF"), Ok(vec![0x0f]));
    assert_eq!(parse_hex(""), Ok(vec![]));
    assert_eq!(parse_hex("0x"), Ok(vec![]));
    assert_eq!(parse_hex("0"), Ok(vec![0x00]));
    assert_eq!(parse_hex("x0"), Err(DecodeError::InvalidEncoding));
    assert_eq!(parse_hex("0x-1"), Err(DecodeError::InvalidEncoding));
}

#[test]
fn immediate_width_by_byte_and_grammar() {
    for k in 0u8..32 {
        assert_eq!(immediate_width(0x60 + k, Grammar::Legacy), Some(k + 1));
        assert_eq!(immediate_width(0x60 + k, Grammar::Eof), Some(k + 1));
    }
    for byte in [0xd1, 0xe0, 0xe1, 0xe3, 0xe5] {
        assert_eq!(immediate_width(byte, Grammar::Eof), Some(2));
        assert_eq!(immediate_width(byte, Grammar::Legacy), Some(0));
    }
    for byte in [0xe6, 0xe7, 0xe8, 0xec, 0xed, 0xee] {
        assert_eq!(immediate_width(byte, Grammar::Eof), Some(1));
        assert_eq!(immediate_width(byte, Grammar::Legacy), Some(0));
    }
    assert_eq!(immediate_width(0xe2, Grammar::Eof), None);
    assert_eq!(immediate_width(0xe2, Grammar::Legacy), Some(0));
    assert_eq!(immediate_width(0xe4, Grammar::Eof), Some(0));
    for byte in [0x00, 0x01, 0x5f, 0x80, 0xa4, 0xef, 0xfe, 0xff] {
        assert_eq!(immediate_width(byte, Grammar::Legacy), Some(0));
        assert_eq!(immediate_width(byte, Grammar::Eof), Some(0));
    }
}
