//! Byte-level reasoning about UTF-8 strings and cutting them at byte offsets,
//! the way `&s[from..to]` does.

use vstd::prelude::*;
use vstd::string::*;
use vstd::utf8::*;

verus! {

/// The UTF-8 bytes of a string with the given characters.
pub open spec fn utf8_of(chars: Seq<char>) -> Seq<u8> {
    encode_utf8(chars)
}

/// `from..to` is a byte range that `&s[from..to]` accepts on a string with these bytes:
/// it lies inside the string and both ends fall on character boundaries.
pub open spec fn cuttable(bytes: Seq<u8>, from: int, to: int) -> bool {
    &&& 0 <= from <= to <= bytes.len()
    &&& is_char_boundary(bytes, from)
    &&& is_char_boundary(bytes, to)
}

/// Encoding a concatenation gives the concatenation of the encodings.
pub proof fn lemma_utf8_of_concat(a: Seq<char>, b: Seq<char>)
    ensures
        utf8_of(a + b) == utf8_of(a) + utf8_of(b),
    decreases a.len(),
{
    if a.len() == 0 {
        assert(a + b =~= b);
        assert(utf8_of(a) + utf8_of(b) =~= utf8_of(b));
    } else {
        lemma_utf8_of_concat(a.drop_first(), b);
        assert((a + b).drop_first() =~= a.drop_first() + b);
        assert((a + b)[0] == a[0]);
        assert(utf8_of(a + b) =~= utf8_of(a) + utf8_of(b));
    }
}

/// Two strings with the same UTF-8 bytes are the same string.
pub proof fn lemma_utf8_of_injective(a: Seq<char>, b: Seq<char>)
    requires
        utf8_of(a) == utf8_of(b),
    ensures
        a == b,
{
    encode_utf8_decode_utf8(a);
    encode_utf8_decode_utf8(b);
}

/// The bytes of every string are valid UTF-8, with boundaries at both ends.
pub proof fn lemma_utf8_of_valid(chars: Seq<char>)
    ensures
        valid_utf8(utf8_of(chars)),
        is_char_boundary(utf8_of(chars), 0),
        is_char_boundary(utf8_of(chars), utf8_of(chars).len() as int),
{
    encode_utf8_valid_utf8(chars);
    is_char_boundary_start_end_of_seq(utf8_of(chars));
}

/// Cutting a valid sequence at a boundary leaves a valid suffix, in which later boundaries
/// are still boundaries.
pub proof fn lemma_boundary_in_suffix(bytes: Seq<u8>, from: int, to: int)
    requires
        valid_utf8(bytes),
        cuttable(bytes, from, to),
    ensures
        valid_utf8(bytes.subrange(from, bytes.len() as int)),
        is_char_boundary(bytes.subrange(from, bytes.len() as int), to - from),
{
    valid_utf8_split(bytes, from);
    let tail = bytes.subrange(from, bytes.len() as int);
    if to == bytes.len() {
        is_char_boundary_start_end_of_seq(tail);
    } else {
        is_char_boundary_iff_not_is_continuation_byte(bytes, to);
        is_char_boundary_iff_not_is_continuation_byte(tail, to - from);
        assert(tail[to - from] == bytes[to]);
    }
}

/// The bytes between two boundaries of a valid sequence are themselves valid.
pub proof fn lemma_piece_is_valid(bytes: Seq<u8>, from: int, to: int)
    requires
        valid_utf8(bytes),
        cuttable(bytes, from, to),
    ensures
        valid_utf8(bytes.subrange(from, to)),
{
    lemma_boundary_in_suffix(bytes, from, to);
    let tail = bytes.subrange(from, bytes.len() as int);
    valid_utf8_split(tail, to - from);
    assert(tail.subrange(0, to - from) =~= bytes.subrange(from, to));
}

/// In a valid sequence, a boundary holding an ASCII byte is followed by another boundary.
pub proof fn lemma_boundary_after_ascii(bytes: Seq<u8>, i: int)
    requires
        valid_utf8(bytes),
        0 <= i < bytes.len(),
        is_char_boundary(bytes, i),
        bytes[i] < 0x80,
    ensures
        is_char_boundary(bytes, i + 1),
{
    valid_utf8_split(bytes, i);
    let tail = bytes.subrange(i, bytes.len() as int);
    assert(tail[0] == bytes[i]);
    assert(length_of_first_scalar(tail) == 1);
    let rest = pop_first_scalar(tail);
    assert(valid_utf8(rest));
    if i + 1 == bytes.len() {
        is_char_boundary_start_end_of_seq(bytes);
    } else {
        is_char_boundary_start_end_of_seq(rest);
        is_char_boundary_iff_not_is_continuation_byte(rest, 0);
        assert(rest[0] == bytes[i + 1]);
        is_char_boundary_iff_not_is_continuation_byte(bytes, i + 1);
    }
}

/// An ASCII byte of a valid sequence starts a character.
pub proof fn lemma_ascii_is_boundary(bytes: Seq<u8>, i: int)
    requires
        valid_utf8(bytes),
        0 <= i < bytes.len(),
        bytes[i] < 0x80,
    ensures
        is_char_boundary(bytes, i),
        is_char_boundary(bytes, i + 1),
{
    is_char_boundary_iff_not_is_continuation_byte(bytes, i);
    lemma_boundary_after_ascii(bytes, i);
}

/// `&s[from..to]`: the part of `s` between two byte offsets.
pub fn cut(s: &str, from: usize, to: usize) -> (piece: &str)
    requires
        cuttable(utf8_of(s@), from as int, to as int),
    ensures
        utf8_of(piece@) == utf8_of(s@).subrange(from as int, to as int),
{
    let ghost bytes = utf8_of(s@);
    proof {
        lemma_utf8_of_valid(s@);
        lemma_boundary_in_suffix(bytes, from as int, to as int);
    }
    let (_, tail) = s.split_at(from);
    assert(tail.spec_bytes() =~= bytes.subrange(from as int, bytes.len() as int));
    let (piece, _) = tail.split_at(to - from);
    assert(piece.spec_bytes() =~= bytes.subrange(from as int, to as int));
    piece
}

/// `&s[from..]`: the part of `s` from a byte offset to the end.
pub fn cut_from(s: &str, from: usize) -> (piece: &str)
    requires
        from <= utf8_of(s@).len(),
        is_char_boundary(utf8_of(s@), from as int),
    ensures
        utf8_of(piece@) == utf8_of(s@).subrange(from as int, utf8_of(s@).len() as int),
{
    let (_, tail) = s.split_at(from);
    tail
}

/// The bytes of a one-character ASCII string are that character's code.
pub proof fn lemma_ascii_char_bytes(c: char)
    requires
        (c as u32) < 0x80,
    ensures
        utf8_of(seq![c]) == seq![(c as u32) as u8],
{
    let v = c as u32;
    assert(((v & 0x7F) as u8) == (v as u8)) by (bit_vector)
        requires
            v < 0x80,
    ;
    reveal_with_fuel(encode_utf8, 2);
    assert(seq![c].drop_first() =~= Seq::<char>::empty());
    assert(seq![c][0] == c);
    assert(encode_utf8(Seq::<char>::empty()) =~= Seq::<u8>::empty());
    assert(encode_scalar(v) =~= seq![(v & 0x7F) as u8]);
    assert(utf8_of(seq![c]) =~= seq![(c as u32) as u8]);
}

/// ASCII upper case of one byte: `a`..`z` become `A`..`Z`, every other byte stays.
pub open spec fn upper_byte(b: u8) -> u8 {
    if 0x61 <= b <= 0x7a {
        (b - 0x20) as u8
    } else {
        b
    }
}

/// ASCII upper case of a byte sequence, byte by byte.
pub open spec fn ascii_upper(bytes: Seq<u8>) -> Seq<u8> {
    bytes.map_values(|b: u8| upper_byte(b))
}

/// Where both a sequence and its ASCII upper case are valid UTF-8, they have the same
/// character boundaries: upper case leaves continuation bytes alone and makes none.
pub proof fn lemma_upper_keeps_boundary(bytes: Seq<u8>, i: int)
    requires
        valid_utf8(bytes),
        valid_utf8(ascii_upper(bytes)),
        0 <= i <= bytes.len(),
        is_char_boundary(bytes, i),
    ensures
        is_char_boundary(ascii_upper(bytes), i),
{
    let up = ascii_upper(bytes);
    if i == bytes.len() {
        is_char_boundary_start_end_of_seq(up);
    } else {
        is_char_boundary_iff_not_is_continuation_byte(bytes, i);
        is_char_boundary_iff_not_is_continuation_byte(up, i);
        assert(up[i] == upper_byte(bytes[i]));
    }
}

/// `String::from_utf8(bytes).ok()`. The standard library documents that it succeeds
/// exactly on valid UTF-8 and that the string holds the same bytes.
#[verifier::external_body]
pub(crate) fn string_from_utf8(bytes: Vec<u8>) -> (r: Option<String>)
    ensures
        r is Some <==> valid_utf8(bytes@),
        r matches Some(s) ==> utf8_of(s@) == bytes@,
{
    String::from_utf8(bytes).ok()
}

/// Whether a string is the given text.
pub fn text_is(s: &String, text: &str) -> (r: bool)
    ensures
        r == (s@ == text@),
{
    let t = text.to_owned();
    *s == t
}

/// The character of a decimal digit.
pub open spec fn digit_char(d: nat) -> char {
    if d == 0 { '0' }
    else if d == 1 { '1' }
    else if d == 2 { '2' }
    else if d == 3 { '3' }
    else if d == 4 { '4' }
    else if d == 5 { '5' }
    else if d == 6 { '6' }
    else if d == 7 { '7' }
    else if d == 8 { '8' }
    else { '9' }
}

/// The decimal numeral of a number: its digits, most significant first, with no
/// leading zero (`0` is written `0`).
pub open spec fn decimal(n: nat) -> Seq<char>
    decreases n,
{
    if n < 10 {
        seq![digit_char(n)]
    } else {
        decimal(n / 10) + seq![digit_char(n % 10)]
    }
}

/// The value of a character read as a decimal digit: its code less the code of `0`.
pub open spec fn digit_value(c: char) -> int {
    (c as u32) as int - 0x30
}

/// The number that a string of decimal digits denotes, most significant digit first.
pub open spec fn decimal_value(digits: Seq<char>) -> int
    decreases digits.len(),
{
    if digits.len() == 0 {
        0
    } else {
        10 * decimal_value(digits.drop_last()) + digit_value(digits.last())
    }
}

/// Each digit's character is the one whose code is that of `0` plus the digit.
proof fn lemma_digit_char_code(d: nat)
    requires
        d < 10,
    ensures
        digit_value(digit_char(d)) == d,
{
}

/// The numeral of a number is made of the characters `0` to `9`, starts with `0` only
/// when it is the numeral of zero, and reads back, digit by digit in base ten, as the
/// number.
pub proof fn law_decimal_reads_back(n: nat)
    ensures
        decimal(n).len() >= 1,
        forall|i: int| 0 <= i < decimal(n).len() ==> 0 <= #[trigger] digit_value(decimal(n)[i]) < 10,
        n > 0 ==> decimal(n)[0] != '0',
        decimal_value(decimal(n)) == n,
    decreases n,
{
    if n < 10 {
        lemma_digit_char_code(n);
        assert(decimal(n).drop_last() =~= Seq::<char>::empty());
        assert(decimal_value(Seq::<char>::empty()) == 0);
    } else {
        law_decimal_reads_back(n / 10);
        lemma_digit_char_code(n % 10);
        let head = decimal(n / 10);
        assert(decimal(n).drop_last() =~= head);
        assert(decimal(n).last() == digit_char(n % 10));
        assert(n == 10 * (n / 10) + n % 10) by (nonlinear_arith);
        assert(decimal(n)[0] == head[0]);
        assert forall|i: int| 0 <= i < decimal(n).len() implies 0 <= #[trigger] digit_value(
            decimal(n)[i],
        ) < 10 by {
            if i < head.len() {
                assert(decimal(n)[i] == head[i]);
            }
        }
    }
}

/// The numeral of one digit.
fn digit_text(d: u32) -> (r: &'static str)
    requires
        d < 10,
    ensures
        r@ == seq![digit_char(d as nat)],
{
    match d {
        0 => {
            proof {
                reveal_strlit("0");
            }
            "0"
        },
        1 => {
            proof {
                reveal_strlit("1");
            }
            "1"
        },
        2 => {
            proof {
                reveal_strlit("2");
            }
            "2"
        },
        3 => {
            proof {
                reveal_strlit("3");
            }
            "3"
        },
        4 => {
            proof {
                reveal_strlit("4");
            }
            "4"
        },
        5 => {
            proof {
                reveal_strlit("5");
            }
            "5"
        },
        6 => {
            proof {
                reveal_strlit("6");
            }
            "6"
        },
        7 => {
            proof {
                reveal_strlit("7");
            }
            "7"
        },
        8 => {
            proof {
                reveal_strlit("8");
            }
            "8"
        },
        _ => {
            proof {
                reveal_strlit("9");
            }
            "9"
        },
    }
}

/// The decimal numeral of a number (what `n.to_string()` writes).
pub fn decimal_text(n: u32) -> (r: String)
    ensures
        r@ == decimal(n as nat),
    decreases n,
{
    if n < 10 {
        digit_text(n).to_owned()
    } else {
        let mut r = decimal_text(n / 10);
        push_piece(&mut r, digit_text(n % 10));
        r
    }
}

/// Appends `piece` to `s` (`s.push_str(piece)`), stated on bytes.
pub fn push_piece(s: &mut String, piece: &str)
    ensures
        final(s)@ == old(s)@ + piece@,
        utf8_of(final(s)@) == utf8_of(old(s)@) + utf8_of(piece@),
{
    s.append(piece);
    proof {
        lemma_utf8_of_concat(old(s)@, piece@);
    }
}

} // verus!
