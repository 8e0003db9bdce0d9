//! Decoding of one operation: the opcode byte, then the immediate operand
//! that the opcode and the grammar call for.
use crate::cursor::Cursor;
use crate::types::{DecodeError, Grammar, Opcode, Operation, OperationView};
use vstd::prelude::*;

verus! {

/// Whether `byte` is one of PUSH1 to PUSH32.
pub open spec fn is_push(byte: u8) -> bool {
    0x60 <= byte <= 0x7f
}

/// The number of immediate bytes that an opcode of fixed width carries: 2 or
/// 1 for the opcodes of the object-format grammar that take an operand, 0 for
/// every other opcode. PUSH and RJUMPV are sized by [`operand_len`].
pub open spec fn fixed_width(op: Opcode) -> nat {
    match op {
        Opcode::DATALOADN | Opcode::RJUMP | Opcode::RJUMPI | Opcode::CALLF | Opcode::JUMPF => 2,
        Opcode::DUPN
        | Opcode::SWAPN
        | Opcode::EXCHANGE
        | Opcode::EOFCREATE
        | Opcode::TXCREATE
        | Opcode::RETURNCONTRACT => 1,
        _ => 0,
    }
}

/// The size of a jump table's immediate: the byte `max_index`, then
/// `max_index + 1` entries of two bytes each.
pub open spec fn jump_table_len(max_index: u8) -> nat {
    (1 + (max_index + 1) * 2) as nat
}

/// The width of the immediate that the opcode byte `byte` calls for under
/// grammar `g`, where the byte alone decides it, and `None` where the data
/// behind the byte does.
///
/// A PUSH, in either grammar, calls for its byte value less `0x5f`. RJUMPV
/// is sized by the byte behind it. Every other opcode has its fixed width.
/// The opcodes of the object-format grammar do not resolve under the legacy
/// grammar, so there their bytes call for nothing.
pub open spec fn immediate_width_spec(byte: u8, g: Grammar) -> Option<u8> {
    let op = Opcode::resolve_spec(byte, g);
    if is_push(byte) {
        Some((byte - 0x5f) as u8)
    } else if op == Opcode::RJUMPV {
        None
    } else {
        Some(fixed_width(op) as u8)
    }
}

/// The number of immediate bytes that the operation at the start of `code`
/// asks for under grammar `g`. `code` holds the opcode byte and all that
/// follows it.
///
/// An RJUMPV asks for a jump table sized by the byte behind it, and for
/// nothing where no byte is behind it. Every other opcode asks for the width
/// that [`immediate_width_spec`] gives.
pub open spec fn operand_len(code: Seq<u8>, g: Grammar) -> nat
    recommends
        code.len() > 0,
{
    match immediate_width_spec(code[0], g) {
        Some(width) => width as nat,
        None => if code.len() > 1 {
            jump_table_len(code[1])
        } else {
            0
        },
    }
}

/// Whether `code` holds the whole operation that starts at its first byte.
pub open spec fn is_complete(code: Seq<u8>, g: Grammar) -> bool {
    code.len() > 0 && 1 + operand_len(code, g) <= code.len()
}

/// The outcome of decoding the operation at the start of `code`, where that
/// first byte stands at `offset`: the operation, or the report that its
/// immediate is cut short.
pub open spec fn decode_step(code: Seq<u8>, g: Grammar, offset: u32) -> Result<
    OperationView,
    DecodeError,
>
    recommends
        code.len() > 0,
{
    if is_complete(code, g) {
        Ok(
            OperationView {
                opcode: Opcode::resolve_spec(code[0], g),
                input: code.subrange(1, 1 + operand_len(code, g) as int),
                offset,
            },
        )
    } else {
        Err(
            DecodeError::TruncatedImmediate {
                offset,
                required: operand_len(code, g) as usize,
                available: (code.len() - 1) as usize,
            },
        )
    }
}

/// The immediate of an RJUMPV that `rest` follows: the bytes behind the
/// opcode byte that belong to it.
pub open spec fn jump_table(rest: Seq<u8>) -> Seq<u8> {
    if rest.len() > 0 {
        rest.take(jump_table_len(rest[0]) as int)
    } else {
        rest
    }
}

/// Whether `rest`, the bytes behind an RJUMPV, lacks part of its jump table.
pub open spec fn jump_table_cut(rest: Seq<u8>) -> bool {
    rest.len() > 0 && jump_table_len(rest[0]) > rest.len()
}

/// Reads the immediate of an RJUMPV whose opcode byte, at `offset`, has just
/// been read: the byte `max_index` and the jump table behind it. Where no
/// byte is left the immediate is empty. Where the table is cut short nothing
/// is read and the shortfall is reported.
pub fn read_jump_table(bytes: &mut Cursor, offset: u32) -> (r: Result<Vec<u8>, DecodeError>)
    ensures
        final(bytes).grammar_spec() == old(bytes).grammar_spec(),
        match r {
            Ok(input) => {
                &&& !jump_table_cut(old(bytes)@)
                &&& input@ == jump_table(old(bytes)@)
                &&& final(bytes)@ == old(bytes)@.skip(input@.len() as int)
            },
            Err(e) => {
                &&& jump_table_cut(old(bytes)@)
                &&& e == (DecodeError::TruncatedImmediate {
                    offset,
                    required: jump_table_len(old(bytes)@[0]) as usize,
                    available: old(bytes)@.len() as usize,
                })
                &&& final(bytes)@ == old(bytes)@
            },
        },
{
    match bytes.peek() {
        None => {
            Ok(Vec::new())
        },
        Some(max_index) => {
            let required: usize = 1 + (max_index as usize + 1) * 2;
            if required > bytes.len() {
                Err(DecodeError::TruncatedImmediate { offset, required, available: bytes.len() })
            } else {
                Ok(bytes.take(required))
            }
        },
    }
}

/// The width of the immediate that the opcode byte `byte` calls for under
/// `grammar`, or `None` for RJUMPV, whose immediate is sized by the byte
/// that follows it.
pub fn immediate_width(byte: u8, grammar: Grammar) -> (r: Option<u8>)
    ensures
        r == immediate_width_spec(byte, grammar),
{
    if 0x60 <= byte && byte <= 0x7f {
        Some(byte - 0x5f)
    } else {
        match Opcode::resolve(byte, grammar) {
            Opcode::RJUMPV => None,
            Opcode::DATALOADN
            | Opcode::RJUMP
            | Opcode::RJUMPI
            | Opcode::CALLF
            | Opcode::JUMPF => Some(2),
            Opcode::DUPN
            | Opcode::SWAPN
            | Opcode::EXCHANGE
            | Opcode::EOFCREATE
            | Opcode::TXCREATE
            | Opcode::RETURNCONTRACT => Some(1),
            _ => Some(0),
        }
    }
}

/// Decodes the operation at the front of `bytes`, whose opcode byte stands
/// at `cur_offset`, and returns it with the offset of the byte behind it.
///
/// The opcode byte is always read. The immediate is read only where all of
/// it is there: else the error says how many bytes the opcode asks for and
/// how many are left behind it.
pub fn decode_operation(bytes: &mut Cursor, cur_offset: u32) -> (r: Result<
    (Operation, u32),
    DecodeError,
>)
    requires
        old(bytes)@.len() > 0,
        is_complete(old(bytes)@, old(bytes).grammar_spec()) ==> cur_offset + 1 + operand_len(
            old(bytes)@,
            old(bytes).grammar_spec(),
        ) <= u32::MAX,
    ensures
        final(bytes).grammar_spec() == old(bytes).grammar_spec(),
        match r {
            Ok((operation, new_offset)) => {
                &&& decode_step(old(bytes)@, old(bytes).grammar_spec(), cur_offset) == Ok::<
                    OperationView,
                    DecodeError,
                >(operation@)
                &&& new_offset == cur_offset + 1 + operation@.input.len()
                &&& final(bytes)@ == old(bytes)@.skip(1 + operation@.input.len() as int)
            },
            Err(e) => {
                &&& decode_step(old(bytes)@, old(bytes).grammar_spec(), cur_offset) == Err::<
                    OperationView,
                    DecodeError,
                >(e)
                &&& final(bytes)@ == old(bytes)@.skip(1)
            },
        },
{
    let ghost code = bytes@;
    let grammar = bytes.grammar();
    let encoded_opcode = bytes.next().unwrap();
    let opcode = Opcode::resolve(encoded_opcode, grammar);
    let operation = Operation::new(opcode, cur_offset);
    let decoded = match immediate_width(encoded_opcode, grammar) {
        Some(num_bytes) => operation.with_bytes(num_bytes, bytes),
        None => match read_jump_table(bytes, cur_offset) {
            Ok(input) => Ok(Operation { opcode, input, offset: cur_offset }),
            Err(e) => Err(e),
        },
    };
    match decoded {
        Ok(operation) => {
            assert(operation@.input =~= code.subrange(1, 1 + operand_len(code, grammar) as int));
            let new_offset = cur_offset + 1 + operation.input.len() as u32;
            Ok((operation, new_offset))
        },
        Err(e) => Err(e),
    }
}

} // verus!
