//! Deterministic human-readable rendering of a block for diagnostics.
//!
//! Identifiers render as lowercase hex with one digit group per byte and no
//! zero padding: a byte below 16 renders as a single digit. The format is
//! idiosyncratic but deliberate, kept for compatibility with existing logs.

use vstd::prelude::*;
use vstd::string::StringExecFns;

use crate::types::Block;

verus! {

/// The lowercase hex digit for a value below 16.
pub open spec fn hex_digit_char(d: u8) -> char {
    if d == 0 {
        '0'
    } else if d == 1 {
        '1'
    } else if d == 2 {
        '2'
    } else if d == 3 {
        '3'
    } else if d == 4 {
        '4'
    } else if d == 5 {
        '5'
    } else if d == 6 {
        '6'
    } else if d == 7 {
        '7'
    } else if d == 8 {
        '8'
    } else if d == 9 {
        '9'
    } else if d == 10 {
        'a'
    } else if d == 11 {
        'b'
    } else if d == 12 {
        'c'
    } else if d == 13 {
        'd'
    } else if d == 14 {
        'e'
    } else {
        'f'
    }
}

/// One byte in unpadded lowercase hex: one digit below 16, two otherwise.
pub open spec fn hex_of_byte(b: u8) -> Seq<char> {
    if b < 16 {
        seq![hex_digit_char(b)]
    } else {
        seq![hex_digit_char(b / 16), hex_digit_char(b % 16)]
    }
}

/// A byte sequence in unpadded lowercase hex, byte groups concatenated.
pub open spec fn hex_of(bytes: Seq<u8>) -> Seq<char>
    decreases bytes.len(),
{
    if bytes.len() == 0 {
        Seq::empty()
    } else {
        hex_of_byte(bytes[0]) + hex_of(bytes.drop_first())
    }
}

/// An unsigned number in decimal, most significant digit first.
pub open spec fn dec_of(n: int) -> Seq<char>
    decreases n,
{
    if n < 10 {
        seq![hex_digit_char(if 0 <= n { n as u8 } else { 0 })]
    } else {
        dec_of(n / 10).push(hex_digit_char((n % 10) as u8))
    }
}

/// The diagnostic descriptor of a block:
/// `Block(<num>, id: <hex>, prev: <hex>)`.
pub open spec fn spec_display_block(b: Block) -> Seq<char> {
    "Block("@ + dec_of(b.block_num as int) + ", id: "@ + hex_of(b.block_id@) + ", prev: "@
        + hex_of(b.previous_id@) + ")"@
}

/// Splitting a byte sequence splits its hex rendering.
proof fn lemma_hex_of_append(a: Seq<u8>, b: Seq<u8>)
    ensures
        hex_of(a + b) == hex_of(a) + hex_of(b),
    decreases a.len(),
{
    if a.len() == 0 {
        assert(a + b =~= b);
        assert(hex_of(a) + hex_of(b) =~= hex_of(b));
    } else {
        assert((a + b)[0] == a[0]);
        assert((a + b).drop_first() =~= a.drop_first() + b);
        lemma_hex_of_append(a.drop_first(), b);
        assert(hex_of(a + b) == hex_of_byte(a[0]) + (hex_of(a.drop_first()) + hex_of(b)));
        assert(hex_of_byte(a[0]) + (hex_of(a.drop_first()) + hex_of(b)) =~= (hex_of_byte(a[0])
            + hex_of(a.drop_first())) + hex_of(b));
    }
}

/// The str slice holding one lowercase hex digit.
fn hex_digit_str(d: u8) -> (s: &'static str)
    requires
        d < 16,
    ensures
        s@ =~= seq![hex_digit_char(d)],
{
    proof {
        reveal_strlit("0");
        reveal_strlit("1");
        reveal_strlit("2");
        reveal_strlit("3");
        reveal_strlit("4");
        reveal_strlit("5");
        reveal_strlit("6");
        reveal_strlit("7");
        reveal_strlit("8");
        reveal_strlit("9");
        reveal_strlit("a");
        reveal_strlit("b");
        reveal_strlit("c");
        reveal_strlit("d");
        reveal_strlit("e");
        reveal_strlit("f");
    }
    match d {
        0 => "0",
        1 => "1",
        2 => "2",
        3 => "3",
        4 => "4",
        5 => "5",
        6 => "6",
        7 => "7",
        8 => "8",
        9 => "9",
        10 => "a",
        11 => "b",
        12 => "c",
        13 => "d",
        14 => "e",
        _ => "f",
    }
}

/// Renders bytes as unpadded lowercase hex, one digit group per byte.
pub fn to_hex(bytes: &[u8]) -> (s: String)
    ensures
        s@ == hex_of(bytes@),
{
    let mut buf = String::new();
    let mut i: usize = 0;
    proof {
        assert(bytes@.take(0) =~= Seq::<u8>::empty());
    }
    while i < bytes.len()
        invariant
            i <= bytes@.len(),
            buf@ == hex_of(bytes@.take(i as int)),
        decreases bytes@.len() - i,
    {
        let b = bytes[i];
        if b < 16 {
            buf.append(hex_digit_str(b));
        } else {
            buf.append(hex_digit_str(b / 16));
            buf.append(hex_digit_str(b % 16));
        }
        proof {
            assert(bytes@.take(i + 1) =~= bytes@.take(i as int) + seq![bytes@[i as int]]);
            lemma_hex_of_append(bytes@.take(i as int), seq![bytes@[i as int]]);
            assert(seq![bytes@[i as int]].drop_first() =~= Seq::<u8>::empty());
            assert(hex_of(Seq::<u8>::empty()) =~= Seq::<char>::empty());
            assert(hex_of(seq![bytes@[i as int]]) == hex_of_byte(seq![bytes@[i as int]][0])
                + hex_of(seq![bytes@[i as int]].drop_first()));
            assert(hex_of(seq![bytes@[i as int]]) =~= hex_of_byte(bytes@[i as int]));
            assert(buf@ =~= hex_of(bytes@.take(i + 1)));
        }
        i = i + 1;
    }
    proof {
        assert(bytes@.take(bytes@.len() as int) =~= bytes@);
    }
    buf
}

/// Renders an unsigned number in decimal.
pub fn u64_to_dec(n: u64) -> (s: String)
    ensures
        s@ == dec_of(n as int),
    decreases n,
{
    if n < 10 {
        hex_digit_str(n as u8).to_owned()
    } else {
        let mut s = u64_to_dec(n / 10);
        s.append(hex_digit_str((n % 10) as u8));
        proof {
            assert(s@ =~= dec_of(n as int));
        }
        s
    }
}

/// Renders the diagnostic descriptor of a block:
/// `Block(<num>, id: <hex>, prev: <hex>)`.
pub fn display_block(b: &Block) -> (s: String)
    ensures
        s@ == spec_display_block(*b),
{
    let mut s = String::new();
    s.append("Block(");
    let num = u64_to_dec(b.block_num);
    s.append(num.as_str());
    s.append(", id: ");
    let id_hex = to_hex(b.block_id.as_slice());
    s.append(id_hex.as_str());
    s.append(", prev: ");
    let prev_hex = to_hex(b.previous_id.as_slice());
    s.append(prev_hex.as_str());
    s.append(")");
    proof {
        assert(s@ =~= spec_display_block(*b));
    }
    s
}

} // verus!
