//! The byte order in which a UUID is kept in the results table: the time fields
//! first, so that rows written close in time sit close in the index.

use vstd::prelude::*;
use vstd::utf8::*;
use crate::text::{
    cut, cut_from, lemma_ascii_char_bytes, lemma_ascii_is_boundary, lemma_piece_is_valid,
    lemma_utf8_of_valid, push_piece, utf8_of,
};

verus! {

/// The dash that separates the groups of a UUID in its text form.
pub const DASH: u8 = 0x2d;

/// The dashed form `xxxxxxxx-xxxx-xxxx-xxxx-xxxxxxxxxxxx`: dashes at bytes 8, 13, 18
/// and 23, at least one byte after the last one.
pub open spec fn is_dashed_uuid(bytes: Seq<u8>) -> bool {
    &&& bytes.len() >= 24
    &&& bytes[8] == DASH
    &&& bytes[13] == DASH
    &&& bytes[18] == DASH
    &&& bytes[23] == DASH
}

/// The byte cuts that `from_uuid` makes are all accepted: the text is at least 24 bytes
/// long and none of the cuts falls inside a character.
pub open spec fn reorderable(bytes: Seq<u8>) -> bool {
    &&& bytes.len() >= 24
    &&& is_char_boundary(bytes, 8)
    &&& is_char_boundary(bytes, 9)
    &&& is_char_boundary(bytes, 13)
    &&& is_char_boundary(bytes, 14)
    &&& is_char_boundary(bytes, 18)
    &&& is_char_boundary(bytes, 19)
    &&& is_char_boundary(bytes, 23)
    &&& is_char_boundary(bytes, 24)
}

/// The byte cuts that `to_uuid` makes are all accepted: the text is at least 20 bytes
/// long and none of the cuts falls inside a character.
pub open spec fn restorable(bytes: Seq<u8>) -> bool {
    &&& bytes.len() >= 20
    &&& is_char_boundary(bytes, 4)
    &&& is_char_boundary(bytes, 8)
    &&& is_char_boundary(bytes, 16)
    &&& is_char_boundary(bytes, 20)
}

/// Stored order: bytes 14..18, 9..13, 0..8, 19..23 and 24.. of the dashed text.
pub open spec fn stored_order(b: Seq<u8>) -> Seq<u8> {
    b.subrange(14, 18) + b.subrange(9, 13) + b.subrange(0, 8) + b.subrange(19, 23)
        + b.subrange(24, b.len() as int)
}

/// Dashed order: bytes 8..16, 4..8, 0..4, 16..20 and 20.. of the stored text,
/// with a dash between consecutive groups.
pub open spec fn dashed_order(b: Seq<u8>) -> Seq<u8> {
    b.subrange(8, 16) + seq![DASH] + b.subrange(4, 8) + seq![DASH] + b.subrange(0, 4)
        + seq![DASH] + b.subrange(16, 20) + seq![DASH] + b.subrange(20, b.len() as int)
}

/// The stored order puts the time fields first: of a dashed UUID
/// `AAAAAAAA-BBBB-CCCC-DDDD-EEEE...`, it keeps `CCCCBBBBAAAAAAAADDDDEEEE...`, byte for
/// byte, with the four dashes left out.
pub proof fn law_stored_order_layout(b: Seq<u8>)
    requires
        b.len() >= 24,
    ensures
        stored_order(b).len() == b.len() - 4,
        forall|i: int| 0 <= i < 4 ==> #[trigger] stored_order(b)[i] == b[14 + i],
        forall|i: int| 4 <= i < 8 ==> #[trigger] stored_order(b)[i] == b[5 + i],
        forall|i: int| 8 <= i < 16 ==> #[trigger] stored_order(b)[i] == b[i - 8],
        forall|i: int| 16 <= i < 20 ==> #[trigger] stored_order(b)[i] == b[3 + i],
        forall|i: int| 20 <= i < b.len() - 4 ==> #[trigger] stored_order(b)[i] == b[4 + i],
{
}

/// The dashed order undoes that layout: of a stored UUID `CCCCBBBBAAAAAAAADDDDEEEE...`,
/// it gives `AAAAAAAA-BBBB-CCCC-DDDD-EEEE...`, byte for byte, with a dash between the
/// groups.
pub proof fn law_dashed_order_layout(b: Seq<u8>)
    requires
        b.len() >= 20,
    ensures
        dashed_order(b).len() == b.len() + 4,
        forall|i: int| 0 <= i < 8 ==> #[trigger] dashed_order(b)[i] == b[8 + i],
        dashed_order(b)[8] == 0x2d,
        forall|i: int| 9 <= i < 13 ==> #[trigger] dashed_order(b)[i] == b[i - 5],
        dashed_order(b)[13] == 0x2d,
        forall|i: int| 14 <= i < 18 ==> #[trigger] dashed_order(b)[i] == b[i - 14],
        dashed_order(b)[18] == 0x2d,
        forall|i: int| 19 <= i < 23 ==> #[trigger] dashed_order(b)[i] == b[i - 3],
        dashed_order(b)[23] == 0x2d,
        forall|i: int| 24 <= i < b.len() + 4 ==> #[trigger] dashed_order(b)[i] == b[i - 4],
{
}

/// Whether `from_uuid` accepts a text.
pub fn can_reorder(s: &str) -> (r: bool)
    ensures
        r == reorderable(utf8_of(s@)),
{
    proof {
        lemma_utf8_of_valid(s@);
    }
    s.is_char_boundary(8) && s.is_char_boundary(9) && s.is_char_boundary(13)
        && s.is_char_boundary(14) && s.is_char_boundary(18) && s.is_char_boundary(19)
        && s.is_char_boundary(23) && s.is_char_boundary(24)
}

/// Whether `to_uuid` accepts a text.
pub fn can_restore(s: &str) -> (r: bool)
    ensures
        r == restorable(utf8_of(s@)),
{
    proof {
        lemma_utf8_of_valid(s@);
    }
    s.is_char_boundary(4) && s.is_char_boundary(8) && s.is_char_boundary(16)
        && s.is_char_boundary(20)
}

/// A UUID in the order in which the results table stores it.
pub struct MysqlOptimizedUuid {
    pub uuid: String,
}

impl MysqlOptimizedUuid {
    /// Reorders a dashed UUID into the stored order and drops the dashes.
    pub fn from_uuid(uuid: String) -> (res: MysqlOptimizedUuid)
        requires
            reorderable(utf8_of(uuid@)),
        ensures
            utf8_of(res.uuid@) == stored_order(utf8_of(uuid@)),
    {
        proof {
            lemma_utf8_of_valid(uuid@);
        }
        let s = uuid.as_str();
        let mut ordered_uuid = cut(s, 14, 18).to_owned();
        push_piece(&mut ordered_uuid, cut(s, 9, 13));
        push_piece(&mut ordered_uuid, cut(s, 0, 8));
        push_piece(&mut ordered_uuid, cut(s, 19, 23));
        push_piece(&mut ordered_uuid, cut_from(s, 24));
        MysqlOptimizedUuid { uuid: ordered_uuid }
    }

    /// Puts a UUID in stored order back into dashed order.
    pub fn to_uuid(&self) -> (res: String)
        requires
            restorable(utf8_of(self.uuid@)),
        ensures
            utf8_of(res@) == dashed_order(utf8_of(self.uuid@)),
    {
        proof {
            lemma_utf8_of_valid(self.uuid@);
        }
        let s = self.uuid.as_str();
        let mut uuid = cut(s, 8, 16).to_owned();
        dash(&mut uuid);
        push_piece(&mut uuid, cut(s, 4, 8));
        dash(&mut uuid);
        push_piece(&mut uuid, cut(s, 0, 4));
        dash(&mut uuid);
        push_piece(&mut uuid, cut(s, 16, 20));
        dash(&mut uuid);
        push_piece(&mut uuid, cut_from(s, 20));
        uuid
    }
}

/// A dash alone is valid UTF-8.
proof fn lemma_dash_is_valid()
    ensures
        valid_utf8(seq![DASH]),
{
    lemma_ascii_char_bytes('-');
    lemma_utf8_of_valid(seq!['-']);
}

/// In valid UTF-8, a byte that starts a character is not a continuation byte.
proof fn lemma_starts_character(b: Seq<u8>, i: int)
    requires
        valid_utf8(b),
        0 <= i < b.len(),
        is_char_boundary(b, i),
    ensures
        !is_continuation_byte(b[i]),
{
    is_char_boundary_iff_not_is_continuation_byte(b, i);
}

/// In valid UTF-8, an offset is a boundary when it is the end or its byte is not a
/// continuation byte.
proof fn lemma_is_boundary(b: Seq<u8>, i: int)
    requires
        valid_utf8(b),
        0 <= i <= b.len(),
        i < b.len() ==> !is_continuation_byte(b[i]),
    ensures
        is_char_boundary(b, i),
{
    if i == b.len() {
        is_char_boundary_start_end_of_seq(b);
    } else {
        is_char_boundary_iff_not_is_continuation_byte(b, i);
    }
}

/// Restoring the dashed order undoes the stored order: for every dashed UUID `u`,
/// `from_uuid` accepts `u`, `to_uuid` accepts the result, and gives back `u`.
pub proof fn law_restore_undoes_reorder(uuid: Seq<char>)
    requires
        is_dashed_uuid(utf8_of(uuid)),
    ensures
        reorderable(utf8_of(uuid)),
        restorable(stored_order(utf8_of(uuid))),
        dashed_order(stored_order(utf8_of(uuid))) == utf8_of(uuid),
{
    let b = utf8_of(uuid);
    lemma_utf8_of_valid(uuid);
    lemma_ascii_is_boundary(b, 8);
    lemma_ascii_is_boundary(b, 13);
    lemma_ascii_is_boundary(b, 18);
    lemma_ascii_is_boundary(b, 23);
    let len = b.len() as int;
    let p1 = b.subrange(14, 18);
    let p2 = b.subrange(9, 13);
    let p3 = b.subrange(0, 8);
    let p4 = b.subrange(19, 23);
    let p5 = b.subrange(24, len);
    lemma_piece_is_valid(b, 14, 18);
    lemma_piece_is_valid(b, 9, 13);
    lemma_piece_is_valid(b, 0, 8);
    lemma_piece_is_valid(b, 19, 23);
    lemma_piece_is_valid(b, 24, len);
    let o = stored_order(b);
    valid_utf8_concat(p1, p2);
    valid_utf8_concat(p1 + p2, p3);
    valid_utf8_concat(p1 + p2 + p3, p4);
    valid_utf8_concat(p1 + p2 + p3 + p4, p5);
    assert(valid_utf8(o));
    lemma_starts_character(b, 9);
    lemma_starts_character(b, 0);
    lemma_starts_character(b, 19);
    if len > 24 {
        lemma_starts_character(b, 24);
    }
    assert(o[4] == b[9]);
    assert(o[8] == b[0]);
    assert(o[16] == b[19]);
    assert(o.len() > 20 ==> o[20] == b[24]);
    lemma_is_boundary(o, 4);
    lemma_is_boundary(o, 8);
    lemma_is_boundary(o, 16);
    lemma_is_boundary(o, 20);
    assert(dashed_order(o) =~= b);
}

/// Reordering undoes restoring: for every stored UUID `s` that `to_uuid` accepts,
/// `from_uuid` accepts the result of `to_uuid` and gives back `s`.
pub proof fn law_reorder_undoes_restore(stored: Seq<char>)
    requires
        restorable(utf8_of(stored)),
    ensures
        reorderable(dashed_order(utf8_of(stored))),
        stored_order(dashed_order(utf8_of(stored))) == utf8_of(stored),
{
    let b = utf8_of(stored);
    lemma_utf8_of_valid(stored);
    lemma_dash_is_valid();
    let len = b.len() as int;
    let d = seq![DASH];
    let p1 = b.subrange(8, 16);
    let p2 = b.subrange(4, 8);
    let p3 = b.subrange(0, 4);
    let p4 = b.subrange(16, 20);
    let p5 = b.subrange(20, len);
    lemma_piece_is_valid(b, 8, 16);
    lemma_piece_is_valid(b, 4, 8);
    lemma_piece_is_valid(b, 0, 4);
    lemma_piece_is_valid(b, 16, 20);
    lemma_piece_is_valid(b, 20, len);
    let o = dashed_order(b);
    valid_utf8_concat(p1, d);
    valid_utf8_concat(p1 + d, p2);
    valid_utf8_concat(p1 + d + p2, d);
    valid_utf8_concat(p1 + d + p2 + d, p3);
    valid_utf8_concat(p1 + d + p2 + d + p3, d);
    valid_utf8_concat(p1 + d + p2 + d + p3 + d, p4);
    valid_utf8_concat(p1 + d + p2 + d + p3 + d + p4, d);
    valid_utf8_concat(p1 + d + p2 + d + p3 + d + p4 + d, p5);
    assert(valid_utf8(o));
    lemma_starts_character(b, 4);
    lemma_starts_character(b, 0);
    lemma_starts_character(b, 16);
    if len > 20 {
        lemma_starts_character(b, 20);
    }
    assert(o[8] == DASH);
    assert(o[9] == b[4]);
    assert(o[13] == DASH);
    assert(o[14] == b[0]);
    assert(o[18] == DASH);
    assert(o[19] == b[16]);
    assert(o[23] == DASH);
    assert(o.len() > 24 ==> o[24] == b[20]);
    lemma_is_boundary(o, 8);
    lemma_is_boundary(o, 9);
    lemma_is_boundary(o, 13);
    lemma_is_boundary(o, 14);
    lemma_is_boundary(o, 18);
    lemma_is_boundary(o, 19);
    lemma_is_boundary(o, 23);
    lemma_is_boundary(o, 24);
    assert(stored_order(o) =~= b);
}

/// Appends a dash.
fn dash(s: &mut String)
    ensures
        utf8_of(final(s)@) == utf8_of(old(s)@) + seq![DASH],
{
    let d = "-";
    proof {
        reveal_strlit("-");
        assert(d@ =~= seq!['-']);
        lemma_ascii_char_bytes('-');
    }
    push_piece(s, d);
}

} // verus!
