//! Laws of the operations on texts.
use vstd::prelude::*;
use crate::text::{
    all_digits, concat, contains, decimal_value, find, find_from, has_prefix, has_text,
    identifier_prefix, is_blank, is_char, is_digit, is_space, law_written_number_is_read_back,
    lemma_find_from, lemma_pieces_hold_no_separator, number_string, number_text, occurs_at,
    parse_number, same, same_ignoring_ascii_case, split_at_char, split_by, split_char, split_lines,
    split_whitespace, starts_with, trim, trim_end, trim_start, trimmed, whitespace, words,
};

verus! {

/// The text is made of something, the part and something more.
pub open spec fn surrounds(s: Seq<char>, p: Seq<char>) -> bool {
    exists|a: Seq<char>, b: Seq<char>| s == #[trigger] (a + p + b)
}

/// A part stands in a text exactly where the text is made of something, the part and something
/// more.
pub proof fn law_has_text(s: Seq<char>, p: Seq<char>)
    ensures
        has_text(s, p) == surrounds(s, p),
{
    if has_text(s, p) {
        let i = choose|i: int| occurs_at(s, p, i);
        let (a, b) = (s.take(i), s.skip(i + p.len()));
        assert(s =~= a + p + b);
    }
    if surrounds(s, p) {
        let (a, b) = choose|a: Seq<char>, b: Seq<char>| s == #[trigger] (a + p + b);
        assert(s.subrange(a.len() as int, (a.len() + p.len()) as int) =~= p);
        assert(occurs_at(s, p, a.len() as int));
    }
}

/// A text contains a part exactly if it is made of something, the part and something more.
pub proof fn law_contains(s: &str, p: &str, r: bool)
    requires
        call_ensures(contains, (s, p), r),
    ensures
        r == surrounds(s@, p@),
{
    law_has_text(s@, p@);
}

/// A text starts with a part exactly if it is the part and something more.
pub proof fn law_starts_with(s: &str, p: &str, r: bool)
    requires
        call_ensures(starts_with, (s, p), r),
    ensures
        r == exists|b: Seq<char>| s@ == #[trigger] (p@ + b),
        r == has_prefix(s@, p@),
{
    if has_prefix(s@, p@) {
        assert(s@ =~= p@ + s@.skip(p@.len() as int));
    }
    if exists|b: Seq<char>| s@ == #[trigger] (p@ + b) {
        let b = choose|b: Seq<char>| s@ == #[trigger] (p@ + b);
        assert(s@.subrange(0, p@.len() as int) =~= p@);
    }
}

/// A part is found where it first stands: the text goes on with it there, and with less before
/// it the text is not made. It is not found exactly if it stands nowhere.
pub proof fn law_find(s: &str, p: &str, r: Option<usize>)
    requires
        call_ensures(find, (s, p), r),
    ensures
        match r {
            Some(i) => s@ == s@.take(i as int) + p@ + s@.skip(i + p@.len()) && forall|
                a: Seq<char>,
                b: Seq<char>,
            |
                s@ == #[trigger] (a + p@ + b) ==> a.len() >= i,
            None => !surrounds(s@, p@),
        },
{
    lemma_find_from(s@, p@, 0);
    law_has_text(s@, p@);
    if let Some(i) = r {
        assert(s@ =~= s@.take(i as int) + p@ + s@.skip(i + p@.len()));
        assert forall|a: Seq<char>, b: Seq<char>| s@ == #[trigger] (a + p@ + b) implies a.len()
            >= i by {
            assert(s@.subrange(a.len() as int, (a.len() + p@.len()) as int) =~= p@);
            assert(occurs_at(s@, p@, a.len() as int));
        }
    }
}

/// The text is nothing but white space.
pub open spec fn all_white(s: Seq<char>) -> bool {
    forall|i: int| 0 <= i < s.len() ==> whitespace(#[trigger] s[i])
}

proof fn lemma_trim_start_drops_white(s: Seq<char>) -> (a: Seq<char>)
    ensures
        s == a + trim_start(s),
        all_white(a),
        trim_start(s).len() > 0 ==> !whitespace(trim_start(s)[0]),
    decreases s.len(),
{
    if s.len() > 0 && whitespace(s[0]) {
        let rest = lemma_trim_start_drops_white(s.drop_first());
        let a = seq![s[0]] + rest;
        assert(s =~= seq![s[0]] + s.drop_first());
        assert(seq![s[0]] + (rest + trim_start(s)) =~= a + trim_start(s));
        a
    } else {
        assert(s =~= Seq::<char>::empty() + s);
        Seq::empty()
    }
}

proof fn lemma_trim_end_drops_white(s: Seq<char>) -> (b: Seq<char>)
    ensures
        s == trim_end(s) + b,
        all_white(b),
        trim_end(s).len() > 0 ==> !whitespace(trim_end(s).last()),
    decreases s.len(),
{
    if s.len() > 0 && whitespace(s.last()) {
        let rest = lemma_trim_end_drops_white(s.drop_last());
        let b = rest.push(s.last());
        assert(s =~= s.drop_last().push(s.last()));
        assert((trim_end(s) + rest).push(s.last()) =~= trim_end(s) + b);
        b
    } else {
        assert(s =~= s + Seq::<char>::empty());
        Seq::empty()
    }
}

/// What is trimmed off a text is white space, at both ends and all that stands there.
pub proof fn law_trimmed(s: Seq<char>)
    ensures
        exists|a: Seq<char>, b: Seq<char>|
            s == #[trigger] (a + trimmed(s) + b) && all_white(a) && all_white(b),
        trimmed(s).len() > 0 ==> !whitespace(trimmed(s)[0]) && !whitespace(trimmed(s).last()),
        trimmed(s).len() == 0 <==> all_white(s),
{
    let a = lemma_trim_start_drops_white(s);
    let b = lemma_trim_end_drops_white(trim_start(s));
    assert(s =~= a + trimmed(s) + b);
    if trimmed(s).len() > 0 {
        assert(trimmed(s)[0] == trim_start(s)[0]);
        assert(s[a.len() as int] == trimmed(s)[0]);
    } else {
        assert(s =~= a + b);
    }
}

/// What `trim` takes off is white space, at both ends and all that stands there.
pub proof fn law_trim(s: &str, r: String)
    requires
        call_ensures(trim, (s,), r),
    ensures
        exists|a: Seq<char>, b: Seq<char>|
            s@ == #[trigger] (a + r@ + b) && all_white(a) && all_white(b),
        r@.len() > 0 ==> !whitespace(r@[0]) && !whitespace(r@.last()),
        r@.len() == 0 <==> all_white(s@),
{
    law_trimmed(s@);
}

/// A text is blank exactly if every character of it is white space.
pub proof fn law_is_blank(s: &str, r: bool)
    requires
        call_ensures(is_blank, (s,), r),
    ensures
        r == all_white(s@),
{
    law_trimmed(s@);
}

/// A text of one character is blank exactly if the character is a tab, a line feed, a vertical tab,
/// a form feed, a carriage return, a space, or one of Unicode's further spaces and line ends.
pub proof fn law_white_characters(s: &str, r: bool)
    requires
        s@.len() == 1,
        call_ensures(is_blank, (s,), r),
    ensures
        ({
            let n = s@[0] as int;
            r <==> {
                ||| n == 9 || n == 10 || n == 11 || n == 12 || n == 13 || n == 32
                ||| n == 0x85 || n == 0xa0 || n == 0x1680
                ||| 0x2000 <= n && n < 0x200b
                ||| n == 0x2028 || n == 0x2029 || n == 0x202f || n == 0x205f || n == 0x3000
            }
        }),
{
    law_trimmed(s@);
    assert(all_white(s@) <==> whitespace(s@[0]));
}

/// The pieces with the separator between them.
pub open spec fn joined(pieces: Seq<Seq<char>>, sep: char) -> Seq<char>
    decreases pieces.len(),
{
    if pieces.len() == 0 {
        Seq::empty()
    } else if pieces.len() == 1 {
        pieces[0]
    } else {
        joined(pieces.drop_last(), sep) + seq![sep] + pieces.last()
    }
}

/// The pieces of a text hold no separator, and joined by it they are the text again.
pub proof fn law_pieces_join(s: Seq<char>, sep: char)
    ensures
        split_by(s, is_char(sep)).len() > 0,
        joined(split_by(s, is_char(sep)), sep) == s,
        forall|i: int|
            0 <= i < split_by(s, is_char(sep)).len() ==> !(
            #[trigger] split_by(s, is_char(sep))[i]).contains(sep),
    decreases s.len(),
{
    let f = is_char(sep);
    lemma_pieces_hold_no_separator(s, f);
    let pieces = split_by(s, f);
    assert forall|i: int| 0 <= i < pieces.len() implies !(#[trigger] pieces[i]).contains(sep) by {
        if pieces[i].contains(sep) {
            let k = choose|k: int| 0 <= k < pieces[i].len() && pieces[i][k] == sep;
            assert(!f(split_by(s, f)[i][k]));
        }
    }
    if s.len() > 0 {
        law_pieces_join(s.drop_last(), sep);
        let before = split_by(s.drop_last(), f);
        if s.last() == sep {
            assert(pieces.drop_last() =~= before);
            assert(joined(pieces, sep) =~= s);
        } else {
            assert(pieces.drop_last() =~= before.drop_last());
            assert(pieces.last() == before.last().push(s.last()));
            assert(joined(pieces, sep) =~= joined(before, sep).push(s.last()));
            assert(s =~= s.drop_last().push(s.last()));
        }
    } else {
        assert(joined(pieces, sep) =~= s);
    }
}

/// A text that is split at a character comes in pieces without it that it joins to the text.
pub proof fn law_split_char(s: &str, sep: char, r: Vec<String>)
    requires
        call_ensures(split_char, (s, sep), r),
    ensures
        r@.len() > 0,
        joined(r.deep_view(), sep) == s@,
        forall|i: int| 0 <= i < r@.len() ==> !(#[trigger] r.deep_view()[i]).contains(sep),
{
    law_pieces_join(s@, sep);
}

proof fn lemma_split_around(a: Seq<char>, c: char, b: Seq<char>, sep: spec_fn(char) -> bool)
    requires
        sep(c),
    ensures
        split_by(a.push(c) + b, sep) == split_by(a, sep) + split_by(b, sep),
    decreases b.len(),
{
    let s = a.push(c) + b;
    lemma_pieces_hold_no_separator(b, sep);
    if b.len() == 0 {
        assert(s =~= a.push(c));
        assert(s.drop_last() =~= a);
        assert(split_by(s, sep) =~= split_by(a, sep) + split_by(b, sep));
    } else {
        lemma_split_around(a, c, b.drop_last(), sep);
        lemma_pieces_hold_no_separator(b.drop_last(), sep);
        assert(s.drop_last() =~= a.push(c) + b.drop_last());
        assert(split_by(s, sep) =~= split_by(a, sep) + split_by(b, sep));
    }
}

proof fn lemma_unsplit(s: Seq<char>, sep: spec_fn(char) -> bool)
    requires
        forall|i: int| 0 <= i < s.len() ==> !sep(#[trigger] s[i]),
    ensures
        split_by(s, sep) == seq![s],
    decreases s.len(),
{
    if s.len() > 0 {
        lemma_unsplit(s.drop_last(), sep);
        assert(s =~= s.drop_last().push(s.last()));
        assert(split_by(s, sep) =~= seq![s]);
    } else {
        assert(s =~= Seq::empty());
        assert(split_by(s, sep) =~= seq![s]);
    }
}

/// The words of two texts with white space between them are those of the one and then those of
/// the other; a text without white space is one word, unless it is empty.
pub proof fn law_words(a: Seq<char>, c: char, b: Seq<char>)
    requires
        whitespace(c),
    ensures
        words(a.push(c) + b) == words(a) + words(b),
        (forall|i: int| 0 <= i < a.len() ==> !whitespace(#[trigger] a[i])) ==> words(a) == (
        if a.len() == 0 {
            Seq::<Seq<char>>::empty()
        } else {
            seq![a]
        }),
{
    let full = |w: Seq<char>| w.len() > 0;
    lemma_split_around(a, c, b, is_space());
    Seq::filter_distributes_over_add(split_by(a, is_space()), split_by(b, is_space()), full);
    if forall|i: int| 0 <= i < a.len() ==> !whitespace(#[trigger] a[i]) {
        lemma_unsplit(a, is_space());
        reveal(Seq::filter);
        let one = seq![a];
        assert(one.drop_last() =~= Seq::empty());
        assert(one.last() == a);
        assert(one.drop_last().filter(full) =~= Seq::empty());
        assert(one.filter(full) =~= if a.len() == 0 {
            Seq::<Seq<char>>::empty()
        } else {
            seq![a]
        });
    }
}

/// White space between two texts parts their words, and a text without white space is one word,
/// unless it is empty.
pub proof fn law_split_whitespace(
    s: &str,
    a: &str,
    c: char,
    b: &str,
    of_s: Vec<String>,
    of_a: Vec<String>,
    of_b: Vec<String>,
)
    requires
        call_ensures(split_whitespace, (s,), of_s),
        call_ensures(split_whitespace, (a,), of_a),
        call_ensures(split_whitespace, (b,), of_b),
        s@ == a@.push(c) + b@,
        whitespace(c),
    ensures
        of_s.deep_view() == of_a.deep_view() + of_b.deep_view(),
        (forall|i: int| 0 <= i < a@.len() ==> !whitespace(#[trigger] a@[i])) ==> of_a.deep_view()
            == (if a@.len() == 0 {
            Seq::<Seq<char>>::empty()
        } else {
            seq![a@]
        }),
{
    law_words(a@, c, b@);
}

/// The first line of a text ends at its first line feed, and a carriage return before that
/// belongs to the end of the line; the lines after it are those of the rest. A text without a
/// line feed is one line, unless it is empty.
pub proof fn law_split_lines(s: &str, a: &str, b: &str, of_s: Vec<String>, of_a: Vec<String>, of_b: Vec<
    String,
>)
    requires
        call_ensures(split_lines, (s,), of_s),
        call_ensures(split_lines, (a,), of_a),
        call_ensures(split_lines, (b,), of_b),
        s@ == a@.push('\n') + b@,
        !a@.contains('\n'),
    ensures
        of_s.deep_view() == seq![
            if a@.len() > 0 && a@.last() == '\r' {
                a@.drop_last()
            } else {
                a@
            },
        ] + of_b.deep_view(),
        of_a.deep_view() == (if a@.len() == 0 {
            Seq::<Seq<char>>::empty()
        } else {
            seq![a@]
        }),
{
    let f = is_char('\n');
    assert forall|i: int| 0 <= i < a@.len() implies !f(#[trigger] a@[i]) by {
        assert(a@.contains(a@[i]));
    }
    lemma_unsplit(a@, f);
    lemma_split_around(a@, '\n', b@, f);
    lemma_pieces_hold_no_separator(b@, f);
    let rest = split_by(b@, f);
    let all = split_by(s@, f);
    assert(all =~= seq![a@] + rest);
    assert(all.last() == rest.last());
    assert(all.drop_last() =~= seq![a@] + rest.drop_last());
    assert(split_by(a@, f).drop_last() =~= Seq::empty());
    assert(split_by(a@, f).last() == a@);
    assert(of_s.deep_view() =~= seq![
        if a@.len() > 0 && a@.last() == '\r' {
            a@.drop_last()
        } else {
            a@
        },
    ] + of_b.deep_view());
    assert(of_a.deep_view() =~= if a@.len() == 0 {
        Seq::<Seq<char>>::empty()
    } else {
        seq![a@]
    });
}

/// A text is split at the first separator in it: what stands before it does not hold it. There
/// is nothing to split exactly if it is not in the text.
pub proof fn law_split_at_char(s: &str, sep: char, r: Option<(String, String)>)
    requires
        call_ensures(split_at_char, (s, sep), r),
    ensures
        match r {
            Some((a, b)) => s@ == a@.push(sep) + b@ && !a@.contains(sep),
            None => !s@.contains(sep),
        },
{
    let p = seq![sep];
    lemma_find_from(s@, p, 0);
    match r {
        Some((a, b)) => {
            let i = find_from(s@, p, 0)->0;
            assert(s@.subrange(i, i + 1)[0] == sep);
            assert(s@ =~= a@.push(sep) + b@);
            if a@.contains(sep) {
                let k = choose|k: int| 0 <= k < a@.len() && a@[k] == sep;
                assert(s@.subrange(k, k + 1) =~= p);
                assert(occurs_at(s@, p, k));
            }
        },
        None => {
            if s@.contains(sep) {
                let k = choose|k: int| 0 <= k < s@.len() && s@[k] == sep;
                assert(s@.subrange(k, k + 1) =~= p);
                assert(occurs_at(s@, p, k));
            }
        },
    }
}

/// A number is read digit by digit: a further digit makes it ten times as great and adds its
/// value, as long as the number stays within the limit, and never brings one back that was over
/// it. One digit is its value.
pub proof fn law_parse_number_by_digits(
    s: &str,
    digit: char,
    longer: &str,
    max: u64,
    of_s: Option<u64>,
    of_longer: Option<u64>,
)
    requires
        call_ensures(parse_number, (s, max), of_s),
        call_ensures(parse_number, (longer, max), of_longer),
        longer@ == s@.push(digit),
        all_digits(s@),
        '0' <= digit <= '9',
    ensures
        s@.len() > 0 ==> match of_s {
            Some(n) => of_longer == (if 10 * n + (digit as u64 - '0' as u64) <= max {
                Some((10 * n + (digit as u64 - '0' as u64)) as u64)
            } else {
                None
            }),
            None => of_longer is None,
        },
        s@.len() == 0 ==> of_s is None && of_longer == (if digit as u64 - '0' as u64 <= max {
            Some((digit as u64 - '0' as u64) as u64)
        } else {
            None
        }),
{
    assert(longer@.drop_last() =~= s@);
    assert(longer@.last() == digit);
    assert forall|i: int| 0 <= i < longer@.len() implies is_digit(#[trigger] longer@[i]) by {
        if i < s@.len() {
            assert(is_digit(s@[i]));
        }
    }
    assert(all_digits(longer@));
    if s@.len() > 0 {
        assert(is_digit(s@[0]));
        assert(longer@[0] == s@[0]);
    } else {
        assert(decimal_value(s@) == 0);
        assert(longer@[0] == digit);
    }
}

/// A plus sign before a number changes nothing, and nothing but decimal digits and one such sign
/// can stand in a number.
pub proof fn law_parse_number_sign(
    s: &str,
    signed: &str,
    max: u64,
    of_s: Option<u64>,
    of_signed: Option<u64>,
)
    requires
        call_ensures(parse_number, (s, max), of_s),
        call_ensures(parse_number, (signed, max), of_signed),
        signed@ == seq!['+'] + s@,
    ensures
        s@.len() > 0 && s@[0] != '+' ==> of_signed == of_s,
        s@.len() > 0 && s@[0] == '+' ==> of_signed is None,
        s@.len() == 0 ==> of_signed is None,
        !all_digits(s@) && (s@[0] != '+' || !all_digits(s@.drop_first())) ==> of_s is None,
{
    assert(signed@.drop_first() =~= s@);
    if s@.len() > 0 && s@[0] == '+' {
        assert(!is_digit(s@[0]));
    }
}

/// A number is written without leading zeros, in a text that is read as the number.
pub proof fn law_number_string(n: u32, max: u64, r: String, text: &str, back: Option<u64>)
    requires
        call_ensures(number_string, (n,), r),
        call_ensures(parse_number, (text, max), back),
        text@ == r@,
        n <= max,
    ensures
        back == Some(n as u64),
        all_digits(r@),
        r@.len() > 1 ==> r@[0] != '0',
{
    law_written_number_is_read_back(n as nat, max as nat);
    lemma_no_leading_zero(n as nat);
    let digits = number_text(n as nat);
    if r@[0] == '+' {
        assert(digits.len() > 0);
    }
}

proof fn lemma_no_leading_zero(n: nat)
    ensures
        number_text(n).len() > 0,
        all_digits(number_text(n)),
        number_text(n).len() > 1 ==> number_text(n)[0] != '0',
        n > 0 ==> number_text(n)[0] != '0',
    decreases n,
{
    if n >= 10 {
        lemma_no_leading_zero(n / 10);
    }
}

/// Two texts are the same but for the case of letters of ASCII exactly if they are as long, and
/// each two characters are equal or the upper and the lower case of one such letter.
pub proof fn law_same_ignoring_ascii_case(a: &str, b: &str, r: bool)
    requires
        call_ensures(same_ignoring_ascii_case, (a, b), r),
    ensures
        r == (a@.len() == b@.len() && forall|i: int|
            0 <= i < a@.len() ==> {
                let (x, y) = (#[trigger] a@[i], b@[i]);
                ||| x == y
                ||| 'A' <= x <= 'Z' && y as u32 == x as u32 + 32
                ||| 'A' <= y <= 'Z' && x as u32 == y as u32 + 32
            }),
{
    assert forall|x: char, y: char|
        #![trigger crate::text::ascii_lower(x), crate::text::ascii_lower(y)]
        (crate::text::ascii_lower(x) == crate::text::ascii_lower(y)) == {
            ||| x == y
            ||| 'A' <= x <= 'Z' && y as u32 == x as u32 + 32
            ||| 'A' <= y <= 'Z' && x as u32 == y as u32 + 32
        } by {}
    if a@.len() == b@.len() {
        if forall|i: int|
            0 <= i < a@.len() ==> {
                let (x, y) = (#[trigger] a@[i], b@[i]);
                ||| x == y
                ||| 'A' <= x <= 'Z' && y as u32 == x as u32 + 32
                ||| 'A' <= y <= 'Z' && x as u32 == y as u32 + 32
            } {
            assert forall|i: int| 0 <= i < a@.len() implies #[trigger] crate::text::ascii_lower(
                a@[i],
            ) == crate::text::ascii_lower(b@[i]) by {}
        }
        if r {
            assert forall|i: int| 0 <= i < a@.len() implies {
                let (x, y) = (#[trigger] a@[i], b@[i]);
                ||| x == y
                ||| 'A' <= x <= 'Z' && y as u32 == x as u32 + 32
                ||| 'A' <= y <= 'Z' && x as u32 == y as u32 + 32
            } by {
                assert(crate::text::ascii_lower(a@[i]) == crate::text::ascii_lower(b@[i]));
            }
        }
    }
}

/// An identifier goes up to the first `?`, `&` or `/`, or to the end of the text.
pub proof fn law_identifier_prefix(s: &str, id: Seq<char>, rest: Seq<char>, r: String)
    requires
        call_ensures(identifier_prefix, (s,), r),
        s@ == id + rest,
        !id.contains('?') && !id.contains('&') && !id.contains('/'),
        rest.len() > 0 ==> rest[0] == '?' || rest[0] == '&' || rest[0] == '/',
    ensures
        r@ == id,
{
    lemma_identifier(s@, id, rest);
}

/// The first piece of a text that goes on with a character that ends an identifier.
pub proof fn lemma_identifier(s: Seq<char>, id: Seq<char>, rest: Seq<char>)
    requires
        s == id + rest,
        !id.contains('?') && !id.contains('&') && !id.contains('/'),
        rest.len() > 0 ==> rest[0] == '?' || rest[0] == '&' || rest[0] == '/',
    ensures
        split_by(s, crate::text::ends_identifier()).len() > 0,
        split_by(s, crate::text::ends_identifier())[0] == id,
{
    let f = crate::text::ends_identifier();
    assert forall|i: int| 0 <= i < id.len() implies !f(#[trigger] id[i]) by {
        assert(id.contains(id[i]));
    }
    lemma_unsplit(id, f);
    if rest.len() > 0 {
        let tail = rest.drop_first();
        lemma_split_around(id, rest[0], tail, f);
        assert(s =~= id.push(rest[0]) + tail);
    } else {
        assert(s =~= id);
    }
}

/// A text takes as many bytes as its encoding in UTF-8 has.
pub proof fn law_byte_len(s: Seq<char>)
    requires
        vstd::utf8::encode_utf8(s).len() <= usize::MAX,
    ensures
        crate::text::byte_len(s) == vstd::utf8::encode_utf8(s).len(),
{
}

/// Two texts are the same exactly if they have the same characters, and put together they are
/// the one and then the other.
pub proof fn law_same_and_concat(a: &str, b: &str, equal: bool, both: String)
    requires
        call_ensures(same, (a, b), equal),
        call_ensures(concat, (a, b), both),
    ensures
        equal == (a@ == b@),
        both@.len() == a@.len() + b@.len(),
        both@.take(a@.len() as int) == a@,
        both@.skip(a@.len() as int) == b@,
{
}

/// A text without a separator is its one piece.
pub proof fn lemma_one_piece(s: Seq<char>, sep: char)
    requires
        !s.contains(sep),
    ensures
        split_by(s, is_char(sep)) == seq![s],
{
    let f = is_char(sep);
    assert forall|i: int| 0 <= i < s.len() implies !f(#[trigger] s[i]) by {
        assert(s.contains(s[i]));
    }
    lemma_unsplit(s, f);
}

/// The piece between the first two separators.
pub proof fn lemma_second_piece(
    s: Seq<char>,
    first: Seq<char>,
    second: Seq<char>,
    rest: Seq<char>,
    sep: char,
)
    requires
        s == first + seq![sep] + second + rest,
        !first.contains(sep),
        !second.contains(sep),
        rest.len() > 0 ==> rest[0] == sep,
    ensures
        split_by(s, is_char(sep)).len() > 1,
        split_by(s, is_char(sep))[1] == second,
{
    let f = is_char(sep);
    let tail = second + rest;
    lemma_one_piece(first, sep);
    lemma_one_piece(second, sep);
    lemma_split_around(first, sep, tail, f);
    assert(s =~= first.push(sep) + tail);
    if rest.len() > 0 {
        lemma_split_around(second, sep, rest.drop_first(), f);
        assert(tail =~= second.push(sep) + rest.drop_first());
    } else {
        assert(tail =~= second);
    }
}

/// Splitting at the first separator.
pub proof fn lemma_split_once(s: Seq<char>, before: Seq<char>, sep: char, after: Seq<char>)
    ensures
        !s.contains(sep) ==> crate::text::split_once(s, sep) is None,
        s == before.push(sep) + after && !before.contains(sep) ==> crate::text::split_once(s, sep)
            == Some((before, after)),
{
    let p = seq![sep];
    lemma_find_from(s, p, 0);
    if let Some(i) = find_from(s, p, 0) {
        assert(s.subrange(i, i + 1)[0] == sep);
        assert(s[i] == sep);
        if s == before.push(sep) + after && !before.contains(sep) {
            assert(s.subrange(before.len() as int, before.len() as int + 1) =~= p);
            assert(occurs_at(s, p, before.len() as int));
            if i < before.len() {
                assert(before[i] == sep);
            }
            assert(s.take(i) =~= before);
            assert(s.skip(i + 1) =~= after);
        }
    } else if s == before.push(sep) + after {
        assert(s.subrange(before.len() as int, before.len() as int + 1) =~= p);
        assert(occurs_at(s, p, before.len() as int));
    }
}

} // verus!
