//! Track identifiers: random UUIDs, held as the 128-bit numbers that they stand for.
use vstd::prelude::*;
use uuid::Uuid;
use crate::text::chars_of;

verus! {

/// The identifier has the version and variant bits of a random UUID.
pub open spec fn is_random_uuid(id: u128) -> bool {
    &&& (id >> 76) & 0xf == 4
    &&& (id >> 62) & 0x3 == 2
}

/// `uuid::Uuid::new_v4` makes a random UUID: it has version 4 and the standard variant, and
/// its other bits are drawn at random. `Uuid::as_u128` gives its number.
#[verifier::external_body]
pub(crate) fn new_track_id() -> (r: u128)
    ensures
        is_random_uuid(r),
{
    Uuid::new_v4().as_u128()
}

/// The lower-case hexadecimal digit of a value under 16.
pub open spec fn hex_digit(value: u128) -> char {
    if value < 10 {
        ('0' as u128 + value) as char
    } else {
        ('a' as u128 + value - 10) as char
    }
}

/// The hexadecimal digits `from` up to `to` of the 32 digits of the identifier.
pub open spec fn hex_digits(id: u128, from: int, to: int) -> Seq<char> {
    Seq::new((to - from) as nat, |k: int| hex_digit((id >> ((4 * (31 - from - k)) as u128)) & 0xf))
}

/// The identifier as UUIDs are written: 32 hexadecimal digits with hyphens between the groups
/// of 8, 4, 4, 4 and 12.
pub open spec fn hyphenated(id: u128) -> Seq<char> {
    hex_digits(id, 0, 8) + seq!['-'] + hex_digits(id, 8, 12) + seq!['-'] + hex_digits(id, 12, 16)
        + seq!['-'] + hex_digits(id, 16, 20) + seq!['-'] + hex_digits(id, 20, 32)
}

/// A `uuid::Uuid`, made of its number by `Uuid::from_u128`, prints in lower case and with
/// hyphens.
#[verifier::external_body]
pub(crate) fn uuid_text(id: u128) -> (r: String)
    ensures
        r@ == hyphenated(id),
{
    Uuid::from_u128(id).to_string()
}

/// The test for the characters that a session name keeps.
pub open spec fn not_hyphen() -> spec_fn(char) -> bool {
    |c: char| c != '-'
}

proof fn lemma_no_hyphen(id: u128, from: int, to: int)
    requires
        0 <= from <= to <= 32,
    ensures
        hex_digits(id, from, to).filter(not_hyphen()) == hex_digits(id, from, to),
    decreases to - from,
{
    reveal(Seq::filter);
    let s = hex_digits(id, from, to);
    if from < to {
        assert(s.drop_last() =~= hex_digits(id, from, to - 1));
        lemma_no_hyphen(id, from, to - 1);
        let value = (id >> ((4 * (32 - to)) as u128)) & 0xf;
        let shifted = id >> ((4 * (32 - to)) as u128);
        assert(shifted & 0xf < 16) by (bit_vector);
        assert(s.last() == hex_digit(value));
        assert(s.last() != '-');
        assert(s =~= s.drop_last().push(s.last()));
    } else {
        assert(s =~= Seq::empty());
        assert(s.filter(not_hyphen()) =~= Seq::empty());
    }
}

/// Without its hyphens the written identifier is its 32 hexadecimal digits.
pub proof fn law_session_name_is_hex(id: u128)
    ensures
        hyphenated(id).filter(not_hyphen()) == hex_digits(id, 0, 32),
{
    let f = not_hyphen();
    let h = seq!['-'];
    let a = hex_digits(id, 0, 8);
    let b = hex_digits(id, 8, 12);
    let c = hex_digits(id, 12, 16);
    let d = hex_digits(id, 16, 20);
    let e = hex_digits(id, 20, 32);
    assert(h.filter(f) =~= Seq::empty()) by {
        reveal(Seq::filter);
        assert(h.drop_last() =~= Seq::empty());
        assert(h.last() == '-');
        assert(h.drop_last().filter(f) =~= Seq::empty());
    }
    Seq::filter_distributes_over_add(a, h, f);
    Seq::filter_distributes_over_add(a + h, b, f);
    Seq::filter_distributes_over_add(a + h + b, h, f);
    Seq::filter_distributes_over_add(a + h + b + h, c, f);
    Seq::filter_distributes_over_add(a + h + b + h + c, h, f);
    Seq::filter_distributes_over_add(a + h + b + h + c + h, d, f);
    Seq::filter_distributes_over_add(a + h + b + h + c + h + d, h, f);
    Seq::filter_distributes_over_add(a + h + b + h + c + h + d + h, e, f);
    lemma_no_hyphen(id, 0, 8);
    lemma_no_hyphen(id, 8, 12);
    lemma_no_hyphen(id, 12, 16);
    lemma_no_hyphen(id, 16, 20);
    lemma_no_hyphen(id, 20, 32);
    let n = Seq::<char>::empty();
    assert(a + n + b + n + c + n + d + n + e =~= hex_digits(id, 0, 32));
}

/// The name of the proxy session that a track is fetched under: the written identifier
/// without its hyphens.
pub fn session_name(id: u128) -> (r: String)
    ensures
        r@ == hyphenated(id).filter(not_hyphen()),
        r@ == hex_digits(id, 0, 32),
{
    proof {
        law_session_name_is_hex(id);
    }
    let text = uuid_text(id);
    let chars = chars_of(&text);
    let mut out = String::new();
    for i in 0..chars.len()
        invariant
            out@ == chars@.take(i as int).filter(not_hyphen()),
    {
        proof {
            reveal(Seq::filter);
            assert(chars@.take(i + 1).drop_last() =~= chars@.take(i as int));
        }
        if chars[i] != '-' {
            out.push(chars[i]);
        }
    }
    assert(chars@.take(chars@.len() as int) =~= chars@);
    out
}

} // verus!
