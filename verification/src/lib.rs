//! Disassembler for EVM bytecode.
//!
//! Bytecode is read left to right into operations: an opcode, the offset of
//! its byte, and the immediate bytes that belong to it. The grammar, legacy
//! or object format, is chosen once from the first two bytes.
use crate::cursor::Cursor;
use crate::decode::decode_operation;
use crate::disassembly::{
    decode_from, disassembly, lemma_disassembly_tiles, stop_from, tiles, truncation,
};
use crate::hex_text::{all_hex_digits, hex_bytes, parse_hex, payload, strip_prefix};
use crate::listing::listing;
use crate::types::{views, DecodeError, Grammar, Operation};
use vstd::prelude::*;

pub mod cursor;
pub mod decode;
pub mod disassembly;
pub mod hex_text;
pub mod listing;
pub mod types;

verus! {

/// The outcome of walking a byte sequence: the operations decoded, and the
/// truncated immediate that ended the walk early, if one did.
#[derive(Debug, PartialEq, Eq)]
pub struct Disassembly {
    /// The operations decoded, in order.
    pub operations: Vec<Operation>,
    /// The immediate that was cut short, where decoding stopped before the
    /// end of the input.
    pub truncation: Option<DecodeError>,
}

/// Disassembles `input` and says why decoding stopped.
///
/// An operation whose immediate runs beyond the end of `input` is not
/// emitted: the operations before it are returned, with the report of the
/// shortfall beside them.
pub fn disassemble_reporting(input: &[u8]) -> (r: Disassembly)
    requires
        input@.len() <= u32::MAX,
    ensures
        views(r.operations@) == disassembly(input@),
        r.truncation == truncation(input@),
        tiles(views(r.operations@), input@, Grammar::of(input@)),
{
    proof {
        lemma_disassembly_tiles(input@);
    }
    let ghost code = input@;
    let ghost g = Grammar::of(code);
    let mut bytes = Cursor::detect(input);
    let mut operations: Vec<Operation> = Vec::new();
    let mut offset: u32 = 0;
    while !bytes.is_empty()
        invariant
            code == input@,
            code.len() <= u32::MAX,
            g == Grammar::of(code),
            bytes.grammar_spec() == g,
            offset <= code.len(),
            bytes@ == code.skip(offset as int),
            views(operations@) + decode_from(code, g, offset as int) == disassembly(code),
            stop_from(code, g, offset as int) == truncation(code),
            tiles(disassembly(code), code, g),
        decreases bytes@.len(),
    {
        match decode_operation(&mut bytes, offset) {
            Ok((operation, new_offset)) => {
                operations.push(operation);
                offset = new_offset;
            },
            Err(e) => {
                return Disassembly { operations, truncation: Some(e) };
            },
        }
    }
    Disassembly { operations, truncation: None }
}

/// Disassembles raw bytecode.
///
/// No content makes this fail: a byte that is no opcode decodes as
/// `INVALID`, and an immediate that is cut short ends the result before the
/// operation it belongs to.
pub fn disassemble_bytes(input: &[u8]) -> (r: Result<Vec<Operation>, DecodeError>)
    requires
        input@.len() <= u32::MAX,
    ensures
        r.is_ok(),
        views(r.unwrap()@) == disassembly(input@),
        tiles(views(r.unwrap()@), input@, Grammar::of(input@)),
{
    Ok(disassemble_reporting(input).operations)
}

/// Disassembles bytecode given as hex text.
///
/// A `0x` in front of the digits is taken off, and an odd number of digits is
/// read with a `0` in front. Text that holds anything but hex digits is
/// refused with [`DecodeError::InvalidEncoding`], before anything is decoded.
pub fn disassemble(input: &str) -> (r: Result<Vec<Operation>, DecodeError>)
    requires
        payload(input@).len() / 2 <= u32::MAX,
    ensures
        match r {
            Ok(operations) => {
                &&& all_hex_digits(strip_prefix(input@))
                &&& views(operations@) == disassembly(hex_bytes(payload(input@)))
            },
            Err(e) => !all_hex_digits(strip_prefix(input@)) && e == DecodeError::InvalidEncoding,
        },
{
    match parse_hex(input) {
        Ok(bytes) => disassemble_bytes(bytes.as_slice()),
        Err(e) => Err(e),
    }
}

/// Renders operations as text, one line for each.
pub fn format_operations(operations: Vec<Operation>) -> (formatted: String)
    ensures
        formatted@ == listing(views(operations@)),
{
    let mut formatted = String::new();
    let mut i: usize = 0;
    while i < operations.len()
        invariant
            i <= operations.len(),
            formatted@ == listing(views(operations@.take(i as int))),
        decreases operations.len() - i,
    {
        let rendered = operations[i].render();
        proof {
            reveal_strlit("\n");
            let done = views(operations@.take(i as int));
            let next = views(operations@.take(i + 1));
            assert(next.drop_last() =~= done);
        }
        formatted.append(rendered.as_str());
        formatted.append("\n");
        i = i + 1;
    }
    assert(operations@.take(i as int) =~= operations@);
    formatted
}

} // verus!
