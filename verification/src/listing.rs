//! The textual listing of decoded operations.
use crate::hex_text::{hex_digit, hex_encode, hex_text};
use crate::types::{Operation, OperationView};
use vstd::prelude::*;

verus! {

/// The offset as eight lower-case hex digits, padded with zeros in front.
pub open spec fn offset_text(offset: u32) -> Seq<char> {
    seq![
        hex_digit(offset as int / 0x1000_0000 % 16),
        hex_digit(offset as int / 0x100_0000 % 16),
        hex_digit(offset as int / 0x10_0000 % 16),
        hex_digit(offset as int / 0x1_0000 % 16),
        hex_digit(offset as int / 0x1000 % 16),
        hex_digit(offset as int / 0x100 % 16),
        hex_digit(offset as int / 0x10 % 16),
        hex_digit(offset as int % 16),
    ]
}

/// `text` without the zeros it starts with.
pub open spec fn strip_zeros(text: Seq<char>) -> Seq<char>
    decreases text.len(),
{
    if text.len() > 0 && text[0] == '0' {
        strip_zeros(text.skip(1))
    } else {
        text
    }
}

/// The immediate as it is listed: its hex digits without leading zeros, and
/// a single `0` where nothing else is left.
pub open spec fn immediate_text(input: Seq<u8>) -> Seq<char> {
    let digits = strip_zeros(hex_text(input));
    if digits.len() == 0 {
        seq!['0']
    } else {
        digits
    }
}

/// One line of a listing, without its line end: the offset, a colon, the
/// mnemonic and, where the operation has an immediate, the immediate behind
/// `0x`.
pub open spec fn line(op: OperationView) -> Seq<char> {
    let head = offset_text(op.offset) + seq![':', ' '] + op.opcode.mnemonic_spec();
    if op.input.len() > 0 {
        head + seq![' ', '0', 'x'] + immediate_text(op.input)
    } else {
        head
    }
}

/// The listing of `ops`: the line of each operation, in order, each closed
/// by a line feed.
pub open spec fn listing(ops: Seq<OperationView>) -> Seq<char>
    decreases ops.len(),
{
    if ops.len() == 0 {
        Seq::<char>::empty()
    } else {
        listing(ops.drop_last()) + line(ops.last()) + seq!['\n']
    }
}

/// Zeros in front do not change what is left once they are stripped.
proof fn lemma_strip_zeros_skip(text: Seq<char>, k: int)
    requires
        0 <= k <= text.len(),
        forall|i: int| 0 <= i < k ==> text[i] == '0',
    ensures
        strip_zeros(text) == strip_zeros(text.skip(k)),
    decreases k,
{
    if k == 0 {
        assert(text.skip(0) =~= text);
    } else {
        lemma_strip_zeros_skip(text.skip(1), k - 1);
        assert(text.skip(1).skip(k - 1) =~= text.skip(k));
    }
}

/// The lower-case hex digit of `n` as text.
fn digit_str(n: u32) -> (r: &'static str)
    requires
        n < 16,
    ensures
        r@ == seq![hex_digit(n as int)],
{
    proof {
        reveal_strlit("0");
        reveal_strlit("1");
        reveal_strlit("2");
        reveal_strlit("3");
        reveal_strlit("4");
        reveal_strlit("5");
        reveal_strlit("6");
        reveal_strlit("7");
        reveal_strlit("8");
        reveal_strlit("9");
        reveal_strlit("a");
        reveal_strlit("b");
        reveal_strlit("c");
        reveal_strlit("d");
        reveal_strlit("e");
        reveal_strlit("f");
    }
    match n {
        0 => "0",
        1 => "1",
        2 => "2",
        3 => "3",
        4 => "4",
        5 => "5",
        6 => "6",
        7 => "7",
        8 => "8",
        9 => "9",
        10 => "a",
        11 => "b",
        12 => "c",
        13 => "d",
        14 => "e",
        _ => "f",
    }
}

/// Appends the eight hex digits of `offset` to `out`.
fn push_offset(out: &mut String, offset: u32)
    ensures
        final(out)@ == old(out)@ + offset_text(offset),
{
    out.append(digit_str(offset / 0x1000_0000 % 16));
    out.append(digit_str(offset / 0x100_0000 % 16));
    out.append(digit_str(offset / 0x10_0000 % 16));
    out.append(digit_str(offset / 0x1_0000 % 16));
    out.append(digit_str(offset / 0x1000 % 16));
    out.append(digit_str(offset / 0x100 % 16));
    out.append(digit_str(offset / 0x10 % 16));
    out.append(digit_str(offset % 16));
}

/// Appends the listed form of the immediate `input` to `out`.
fn push_immediate(out: &mut String, input: &[u8])
    ensures
        final(out)@ == old(out)@ + immediate_text(input@),
{
    let encoded = hex_encode(input);
    let text = encoded.as_str();
    let n = text.unicode_len();
    let mut k: usize = 0;
    while k < n && text.get_char(k) == '0'
        invariant
            k <= n,
            n == text@.len(),
            forall|i: int| 0 <= i < k ==> text@[i] == '0',
        decreases n - k,
    {
        k = k + 1;
    }
    proof {
        lemma_strip_zeros_skip(text@, k as int);
    }
    if k == n {
        proof {
            reveal_strlit("0");
        }
        out.append("0");
    } else {
        out.append(text.substring_char(k, n));
    }
}

impl Operation {
    /// The line of this operation in a listing, without a line end.
    pub fn render(&self) -> (s: String)
        ensures
            s@ == line(self@),
    {
        let mut out = String::new();
        push_offset(&mut out, self.offset);
        proof {
            reveal_strlit(": ");
            reveal_strlit(" 0x");
        }
        out.append(": ");
        out.append(self.opcode.mnemonic());
        if self.input.len() > 0 {
            out.append(" 0x");
            push_immediate(&mut out, self.input.as_slice());
        }
        out
    }
}

} // verus!
