//! What disassembling a byte sequence yields, stated over the sequence, and
//! what holds of every such result.
use crate::decode::{decode_step, operand_len};
use crate::types::{DecodeError, Grammar, Opcode, OperationView};
use vstd::prelude::*;

verus! {

/// The operations decoded from `code` under grammar `g`, starting with the
/// one whose opcode byte stands at `pos`. Decoding goes on until the end of
/// `code`, or stops before an operation whose immediate is cut short.
pub open spec fn decode_from(code: Seq<u8>, g: Grammar, pos: int) -> Seq<OperationView>
    decreases code.len() - pos,
{
    if 0 <= pos < code.len() {
        match decode_step(code.skip(pos), g, pos as u32) {
            Ok(op) => seq![op] + decode_from(code, g, pos + 1 + op.input.len()),
            Err(_) => Seq::<OperationView>::empty(),
        }
    } else {
        Seq::<OperationView>::empty()
    }
}

/// Why decoding from `pos` stops before the end of `code`, if it does.
pub open spec fn stop_from(code: Seq<u8>, g: Grammar, pos: int) -> Option<DecodeError>
    decreases code.len() - pos,
{
    if 0 <= pos < code.len() {
        match decode_step(code.skip(pos), g, pos as u32) {
            Ok(op) => stop_from(code, g, pos + 1 + op.input.len()),
            Err(e) => Some(e),
        }
    } else {
        None
    }
}

/// The operations that `code` disassembles to. The grammar is the one that
/// the first two bytes select, and it holds for all of `code`, those two
/// bytes included.
pub open spec fn disassembly(code: Seq<u8>) -> Seq<OperationView> {
    decode_from(code, Grammar::of(code), 0)
}

/// The truncated immediate at which the disassembly of `code` stops, or
/// `None` where all of `code` is decoded.
pub open spec fn truncation(code: Seq<u8>) -> Option<DecodeError> {
    stop_from(code, Grammar::of(code), 0)
}

/// Whether `op` is what stands in `code` at `op.offset`: its opcode is the
/// one that the byte there resolves to, and its immediate is the bytes
/// behind that byte, as many as the operation asks for, all inside `code`.
pub open spec fn reads(code: Seq<u8>, g: Grammar, op: OperationView) -> bool {
    let at = op.offset as int;
    &&& at < code.len()
    &&& op.opcode == Opcode::resolve_spec(code[at], g)
    &&& op.input.len() == operand_len(code.skip(at), g)
    &&& at + 1 + op.input.len() <= code.len()
    &&& op.input == code.subrange(at + 1, at + 1 + op.input.len())
}

/// The offset of the byte behind `op`.
pub open spec fn end_offset(op: OperationView) -> int {
    op.offset + 1 + op.input.len()
}

/// The offset at which `ops`, decoded from `start` on, end.
pub open spec fn decode_end(ops: Seq<OperationView>, start: int) -> int {
    if ops.len() > 0 {
        end_offset(ops.last())
    } else {
        start
    }
}

/// Whether `stop` is the right account of a decoding of `code` that ended
/// at offset `end`: no report where `end` is the end of the code, and else
/// the report of the operation at `end`, which asks for more immediate bytes
/// than follow its opcode byte.
pub open spec fn stops_at(code: Seq<u8>, g: Grammar, end: int, stop: Option<DecodeError>) -> bool {
    match stop {
        None => end == code.len(),
        Some(e) => {
            &&& 0 <= end < code.len()
            &&& operand_len(code.skip(end), g) > code.len() - end - 1
            &&& e == (DecodeError::TruncatedImmediate {
                offset: end as u32,
                required: operand_len(code.skip(end), g) as usize,
                available: (code.len() - end - 1) as usize,
            })
        },
    }
}

/// Whether `ops` lie end to end from `start`: the first begins at `start`
/// and each of the others begins where the one before it ends.
pub open spec fn chained(ops: Seq<OperationView>, start: int) -> bool {
    &&& ops.len() > 0 ==> ops[0].offset == start
    &&& forall|i: int, j: int|
        0 <= i < ops.len() && j == i + 1 && j < ops.len() ==> end_offset(#[trigger] ops[i])
            == (#[trigger] ops[j]).offset
}

/// Whether `ops` tile a front part of `code`: they lie end to end from
/// offset 0, and each is what stands in `code` at its offset.
pub open spec fn tiles(ops: Seq<OperationView>, code: Seq<u8>, g: Grammar) -> bool {
    &&& chained(ops, 0)
    &&& forall|i: int| 0 <= i < ops.len() ==> reads(code, g, #[trigger] ops[i])
}

/// Every operation decoded from `pos` on is read from `code`, and the
/// operations lie end to end from `pos`.
pub proof fn lemma_decode_from(code: Seq<u8>, g: Grammar, pos: int)
    requires
        0 <= pos <= code.len() <= u32::MAX,
    ensures
        chained(decode_from(code, g, pos), pos),
        forall|i: int|
            0 <= i < decode_from(code, g, pos).len() ==> reads(
                code,
                g,
                #[trigger] decode_from(code, g, pos)[i],
            ),
    decreases code.len() - pos,
{
    let ops = decode_from(code, g, pos);
    if pos < code.len() {
        let rest = code.skip(pos);
        match decode_step(rest, g, pos as u32) {
            Ok(op) => {
                let n = op.input.len() as int;
                lemma_decode_from(code, g, pos + 1 + n);
                assert(rest.subrange(1, 1 + n) =~= code.subrange(pos + 1, pos + 1 + n));
                assert forall|i: int| 0 <= i < ops.len() implies reads(code, g, #[trigger] ops[i]) by {}
                assert forall|i: int, j: int|
                    0 <= i < ops.len() && j == i + 1 && j < ops.len() implies end_offset(
                    #[trigger] ops[i],
                ) == (#[trigger] ops[j]).offset by {}
            },
            Err(_) => {},
        }
    }
}

/// A disassembly tiles a front part of its code, under the grammar that the
/// code selects.
pub proof fn lemma_disassembly_tiles(code: Seq<u8>)
    requires
        code.len() <= u32::MAX,
    ensures
        tiles(disassembly(code), code, Grammar::of(code)),
{
    lemma_decode_from(code, Grammar::of(code), 0);
}

/// The offsets of a disassembly start at 0 and rise strictly: each
/// operation begins where the one before it ends, one byte and its
/// immediate further on, and none ends beyond the end of the code.
pub proof fn lemma_offsets_chain(code: Seq<u8>)
    requires
        code.len() <= u32::MAX,
    ensures
        ({
            let ops = disassembly(code);
            &&& ops.len() > 0 ==> ops[0].offset == 0
            &&& forall|i: int, j: int|
                0 <= i && j == i + 1 && j < ops.len() ==> (#[trigger] ops[i]).offset + 1
                    + ops[i].input.len() == (#[trigger] ops[j]).offset
            &&& forall|i: int, j: int|
                0 <= i < j < ops.len() ==> (#[trigger] ops[i]).offset < (#[trigger] ops[j]).offset
            &&& forall|i: int|
                0 <= i < ops.len() ==> (#[trigger] ops[i]).offset + 1 + ops[i].input.len()
                    <= code.len()
        }),
{
    let ops = disassembly(code);
    lemma_decode_from(code, Grammar::of(code), 0);
    assert forall|i: int, j: int| 0 <= i < j < ops.len() implies (#[trigger] ops[i]).offset < (
    #[trigger] ops[j]).offset by {
        lemma_offsets_rise(ops, i, j);
    }
}

/// In a chain, a later operation begins at or behind the end of an earlier
/// one.
proof fn lemma_offsets_rise(ops: Seq<OperationView>, i: int, j: int)
    requires
        0 <= i < j < ops.len(),
        forall|a: int, b: int|
            0 <= a < ops.len() && b == a + 1 && b < ops.len() ==> end_offset(#[trigger] ops[a])
                == (#[trigger] ops[b]).offset,
    ensures
        end_offset(ops[i]) <= ops[j].offset,
    decreases j - i,
{
    if j == i + 1 {
    } else {
        lemma_offsets_rise(ops, i, j - 1);
    }
}

/// Every operation of a disassembly is read from the code at its offset,
/// under the grammar that the code selects.
pub proof fn lemma_disassembly_reads(code: Seq<u8>, i: int)
    requires
        code.len() <= u32::MAX,
        0 <= i < disassembly(code).len(),
    ensures
        reads(code, Grammar::of(code), disassembly(code)[i]),
{
    lemma_decode_from(code, Grammar::of(code), 0);
}

/// A PUSH carries as many immediate bytes as its opcode byte lies above
/// `0x5f`, and they are the bytes that follow it in the code.
pub proof fn lemma_push_immediate(code: Seq<u8>, i: int)
    requires
        code.len() <= u32::MAX,
        0 <= i < disassembly(code).len(),
        0x60 <= code[disassembly(code)[i].offset as int] <= 0x7f,
    ensures
        ({
            let op = disassembly(code)[i];
            let width = code[op.offset as int] - 0x5f;
            &&& op.input.len() == width
            &&& op.input == code.subrange(op.offset + 1, op.offset + 1 + width)
        }),
{
    lemma_disassembly_reads(code, i);
}

/// The byte `0xe0` in the place of an opcode is RJUMP with two immediate
/// bytes in code that opens with the magic bytes `EF 00`, and INVALID with
/// no immediate in all other code.
pub proof fn lemma_rjump_gated(code: Seq<u8>, i: int)
    requires
        code.len() <= u32::MAX,
        0 <= i < disassembly(code).len(),
        code[disassembly(code)[i].offset as int] == 0xe0,
    ensures
        ({
            let op = disassembly(code)[i];
            if code.len() >= 2 && code[0] == 0xef && code[1] == 0x00 {
                op.opcode == Opcode::RJUMP && op.input.len() == 2
            } else {
                op.opcode == Opcode::INVALID && op.input.len() == 0
            }
        }),
{
    lemma_disassembly_reads(code, i);
    Opcode::lemma_resolve_code(Opcode::RJUMP, Grammar::Eof);
}

/// In code that opens with the magic bytes `EF 00`, an RJUMPV that a byte
/// `max_index` follows carries that byte and `max_index + 1` table entries
/// of two bytes each.
pub proof fn lemma_rjumpv_immediate(code: Seq<u8>, i: int)
    requires
        code.len() <= u32::MAX,
        0 <= i < disassembly(code).len(),
        Grammar::of(code) == Grammar::Eof,
        code[disassembly(code)[i].offset as int] == 0xe2,
        disassembly(code)[i].offset + 1 < code.len(),
    ensures
        ({
            let op = disassembly(code)[i];
            let max_index = code[op.offset + 1];
            &&& op.opcode == Opcode::RJUMPV
            &&& op.input.len() == 1 + (max_index + 1) * 2
            &&& op.input[0] == max_index
        }),
{
    lemma_disassembly_reads(code, i);
    Opcode::lemma_resolve_code(Opcode::RJUMPV, Grammar::Eof);
}

/// Decoding from `pos` that does not stop at a truncated immediate reaches
/// the last byte of the code. Where it stops, the report names the offset at
/// which the decoded operations end, and what the operation there asks for
/// is more than what is left behind its opcode byte.
pub proof fn lemma_stop_from(code: Seq<u8>, g: Grammar, pos: int)
    requires
        0 <= pos <= code.len() <= u32::MAX,
    ensures
        stops_at(code, g, decode_end(decode_from(code, g, pos), pos), stop_from(code, g, pos)),
    decreases code.len() - pos,
{
    if pos < code.len() {
        match decode_step(code.skip(pos), g, pos as u32) {
            Ok(op) => {
                let n = op.input.len() as int;
                lemma_stop_from(code, g, pos + 1 + n);
            },
            Err(_) => {},
        }
    }
}

/// A disassembly with no report covers its code to the last byte. One with
/// a report ends before the operation whose immediate is cut short: the
/// report names the offset of that operation, the number of immediate bytes
/// it asks for and the smaller number of bytes that follow its opcode byte.
pub proof fn lemma_truncation(code: Seq<u8>)
    requires
        code.len() <= u32::MAX,
    ensures
        stops_at(code, Grammar::of(code), decode_end(disassembly(code), 0), truncation(code)),
{
    lemma_stop_from(code, Grammar::of(code), 0);
}

} // verus!
