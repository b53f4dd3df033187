//! Text operations, each stated over the sequence of characters of its arguments.
//!
//! Unicode's larger tables (which characters are alphanumeric, what the lower case of a text
//! is) stay with the standard library; everything that is built on them is proved here.
use vstd::prelude::*;
use vstd::utf8::encode_utf8;

verus! {

/// The character has Unicode's property `White_Space`.
pub open spec fn whitespace(c: char) -> bool {
    ||| '\u{9}' <= c <= '\u{d}'
    ||| c == ' '
    ||| c == '\u{85}'
    ||| c == '\u{a0}'
    ||| c == '\u{1680}'
    ||| '\u{2000}' <= c <= '\u{200a}'
    ||| c == '\u{2028}'
    ||| c == '\u{2029}'
    ||| c == '\u{202f}'
    ||| c == '\u{205f}'
    ||| c == '\u{3000}'
}

/// `char::is_whitespace`: the character has Unicode's property `White_Space`.
pub assume_specification[ char::is_whitespace ](c: char) -> (r: bool)
    ensures
        r == whitespace(c),
;

/// Whether `char::is_alphanumeric` holds of the character.
pub uninterp spec fn alphanumeric(c: char) -> bool;

/// A letter or a decimal digit of ASCII.
pub open spec fn ascii_alphanumeric(c: char) -> bool {
    ||| 'a' <= c && c <= 'z'
    ||| 'A' <= c && c <= 'Z'
    ||| is_digit(c)
}

/// `char::is_alphanumeric`: a fixed property of the character. Of the characters of ASCII, the
/// letters and the decimal digits have it.
pub assume_specification[ char::is_alphanumeric ](c: char) -> (r: bool)
    ensures
        r == alphanumeric(c),
        c <= '\u{7f}' ==> r == ascii_alphanumeric(c),
;

/// The text that `str::to_lowercase` gives for a text.
pub uninterp spec fn lowercase(s: Seq<char>) -> Seq<char>;

/// `str::to_lowercase`: the lower-case equivalent of the text, a function of the text alone. Of
/// a text in ASCII it is the text with each letter `A` to `Z` in lower case.
pub assume_specification[ str::to_lowercase ](s: &str) -> (r: String)
    ensures
        r@ == lowercase(s@),
        ascii_only(s@) ==> r@ == ascii_lowered(s@),
;

/// `String::push` appends the character to the end of the string.
pub assume_specification[ String::push ](s: &mut String, c: char)
    ensures
        final(s)@ == old(s)@.push(c),
;

/// `p` stands in `s` at position `i`.
pub open spec fn occurs_at(s: Seq<char>, p: Seq<char>, i: int) -> bool {
    &&& 0 <= i
    &&& i + p.len() <= s.len()
    &&& s.subrange(i, i + p.len()) == p
}

/// `p` stands somewhere in `s`.
pub open spec fn has_text(s: Seq<char>, p: Seq<char>) -> bool {
    exists|i: int| occurs_at(s, p, i)
}

/// `s` begins with `p`.
pub open spec fn has_prefix(s: Seq<char>, p: Seq<char>) -> bool {
    occurs_at(s, p, 0)
}

/// The first position, from `from` on, at which `p` stands in `s`.
pub open spec fn find_from(s: Seq<char>, p: Seq<char>, from: int) -> Option<int>
    decreases s.len() + 1 - from,
{
    if from < 0 || from + p.len() > s.len() {
        None
    } else if occurs_at(s, p, from) {
        Some(from)
    } else {
        find_from(s, p, from + 1)
    }
}

/// `s` without the white space at its start.
pub open spec fn trim_start(s: Seq<char>) -> Seq<char>
    decreases s.len(),
{
    if s.len() > 0 && whitespace(s[0]) {
        trim_start(s.drop_first())
    } else {
        s
    }
}

/// `s` without the white space at its end.
pub open spec fn trim_end(s: Seq<char>) -> Seq<char>
    decreases s.len(),
{
    if s.len() > 0 && whitespace(s.last()) {
        trim_end(s.drop_last())
    } else {
        s
    }
}

/// `s` without the white space at its start and at its end.
pub open spec fn trimmed(s: Seq<char>) -> Seq<char> {
    trim_end(trim_start(s))
}

/// The pieces of `s` between the characters that `sep` holds of; there is always one
/// piece more than there are separators.
pub open spec fn split_by(s: Seq<char>, sep: spec_fn(char) -> bool) -> Seq<Seq<char>>
    decreases s.len(),
{
    if s.len() == 0 {
        seq![Seq::<char>::empty()]
    } else {
        let before = split_by(s.drop_last(), sep);
        if sep(s.last()) {
            before.push(Seq::<char>::empty())
        } else {
            before.drop_last().push(before.last().push(s.last()))
        }
    }
}

/// The separator test for one character.
pub open spec fn is_char(sep: char) -> spec_fn(char) -> bool {
    |c: char| c == sep
}

/// The separator test for white space.
pub open spec fn is_space() -> spec_fn(char) -> bool {
    |c: char| whitespace(c)
}

/// The words of `s`: its longest runs of characters that are not white space.
pub open spec fn words(s: Seq<char>) -> Seq<Seq<char>> {
    split_by(s, is_space()).filter(|w: Seq<char>| w.len() > 0)
}

/// A line without the carriage return before its line feed.
pub open spec fn strip_carriage_return(line: Seq<char>) -> Seq<char> {
    if line.len() > 0 && line.last() == '\r' {
        line.drop_last()
    } else {
        line
    }
}

/// The lines of `s`. A line ends in a line feed, which a carriage return may precede; the
/// last line need not end.
pub open spec fn lines(s: Seq<char>) -> Seq<Seq<char>> {
    let pieces = split_by(s, is_char('\n'));
    let ended = pieces.drop_last().map_values(|line: Seq<char>| strip_carriage_return(line));
    if pieces.last().len() == 0 {
        ended
    } else {
        ended.push(pieces.last())
    }
}

/// The text before the first `sep` in `s` and the text after it.
pub open spec fn split_once(s: Seq<char>, sep: char) -> Option<(Seq<char>, Seq<char>)> {
    match find_from(s, seq![sep], 0) {
        Some(i) => Some((s.take(i), s.skip(i + 1))),
        None => None,
    }
}

/// A decimal digit of ASCII.
pub open spec fn is_digit(c: char) -> bool {
    '0' <= c && c <= '9'
}

/// The text holds decimal digits of ASCII only.
pub open spec fn all_digits(s: Seq<char>) -> bool {
    forall|i: int| 0 <= i < s.len() ==> is_digit(#[trigger] s[i])
}

/// The value of a row of decimal digits.
pub open spec fn decimal_value(s: Seq<char>) -> nat
    decreases s.len(),
{
    if s.len() == 0 {
        0
    } else {
        decimal_value(s.drop_last()) * 10 + (s.last() as nat - '0' as nat) as nat
    }
}

/// The number that a text denotes: an optional plus sign, then at least one decimal digit
/// and nothing else. A number over `max` is not denoted.
pub open spec fn parse_decimal(s: Seq<char>, max: nat) -> Option<nat> {
    let digits = if s.len() > 0 && s[0] == '+' {
        s.drop_first()
    } else {
        s
    };
    if digits.len() > 0 && all_digits(digits) && decimal_value(digits) <= max {
        Some(decimal_value(digits))
    } else {
        None
    }
}

/// A number in decimal digits, without leading zeros.
pub open spec fn number_text(n: nat) -> Seq<char>
    decreases n,
{
    let digit = ('0' as nat + n % 10) as char;
    if n < 10 {
        seq![digit]
    } else {
        number_text(n / 10).push(digit)
    }
}

/// An upper-case letter of ASCII in lower case; every other character as it is.
pub open spec fn ascii_lower(c: char) -> char {
    if 'A' <= c && c <= 'Z' {
        ((c as u32 + 32) as u8) as char
    } else {
        c
    }
}

/// A lower-case letter of ASCII in upper case; every other character as it is.
pub open spec fn ascii_upper(c: char) -> char {
    if 'a' <= c && c <= 'z' {
        ((c as u32 - 32) as u8) as char
    } else {
        c
    }
}

/// The text with its letters of ASCII in lower case.
pub open spec fn ascii_lowered(s: Seq<char>) -> Seq<char> {
    s.map_values(|c: char| ascii_lower(c))
}

/// The text with its letters of ASCII in upper case.
pub open spec fn ascii_raised(s: Seq<char>) -> Seq<char> {
    s.map_values(|c: char| ascii_upper(c))
}

/// The text holds characters of ASCII only.
pub open spec fn ascii_only(s: Seq<char>) -> bool {
    forall|i: int| 0 <= i < s.len() ==> #[trigger] s[i] <= '\u{7f}'
}

/// The two texts are equal but for the case of the letters of ASCII.
pub open spec fn eq_ignoring_ascii_case(a: Seq<char>, b: Seq<char>) -> bool {
    &&& a.len() == b.len()
    &&& forall|i: int| 0 <= i < a.len() ==> #[trigger] ascii_lower(a[i]) == ascii_lower(b[i])
}

/// The number of bytes that the text takes in UTF-8.
pub open spec fn byte_len(s: Seq<char>) -> usize {
    encode_utf8(s).len() as usize
}

/// The characters of a text.
pub fn chars_of(s: &str) -> (r: Vec<char>)
    ensures
        r@ == s@,
{
    let mut out: Vec<char> = Vec::new();
    for c in it: s.chars()
        invariant
            it.seq() == s@,
            out@ == s@.take(it.index() as int),
    {
        out.push(c);
        assert(s@.take(it.index() + 1) =~= s@.take(it.index() as int).push(
            s@[it.index() as int],
        ));
    }
    assert(s@.take(s@.len() as int) =~= s@);
    out
}

/// The text that a row of characters spells.
pub fn string_of(s: &[char]) -> (r: String)
    ensures
        r@ == s@,
{
    let mut out = String::new();
    for i in 0..s.len()
        invariant
            out@ == s@.take(i as int),
    {
        out.push(s[i]);
        assert(s@.take(i + 1) =~= s@.take(i as int).push(s@[i as int]));
    }
    assert(s@.take(s@.len() as int) =~= s@);
    out
}

/// Whether `p` stands in `s` at position `i`.
fn matches_at(s: &Vec<char>, p: &Vec<char>, i: usize) -> (r: bool)
    requires
        i + p@.len() <= s@.len(),
    ensures
        r == occurs_at(s@, p@, i as int),
{
    for k in 0..p.len()
        invariant
            i + p.len() <= s.len(),
            forall|j: int| 0 <= j < k ==> s@[i + j] == p@[j],
    {
        if s[i + k] != p[k] {
            assert(s@.subrange(i as int, i + p@.len())[k as int] != p@[k as int]);
            return false;
        }
    }
    assert(s@.subrange(i as int, i + p@.len()) =~= p@);
    true
}

proof fn lemma_find_skip(s: Seq<char>, p: Seq<char>, from: int, to: int)
    requires
        0 <= from <= to,
        forall|j: int| from <= j < to ==> !occurs_at(s, p, j),
    ensures
        find_from(s, p, from) == find_from(s, p, to),
    decreases to - from,
{
    if from < to {
        lemma_find_skip(s, p, from + 1, to);
        if from + p.len() > s.len() {
            assert(find_from(s, p, to) is None);
        }
    }
}

/// The first position found from `from` on is the least one at which `p` stands.
pub proof fn lemma_find_from(s: Seq<char>, p: Seq<char>, from: int)
    requires
        0 <= from,
    ensures
        match find_from(s, p, from) {
            Some(i) => from <= i && occurs_at(s, p, i) && forall|j: int|
                from <= j < i ==> !occurs_at(s, p, j),
            None => forall|j: int| from <= j ==> !occurs_at(s, p, j),
        },
    decreases s.len() + 1 - from,
{
    if from + p.len() <= s.len() && !occurs_at(s, p, from) {
        lemma_find_from(s, p, from + 1);
    }
}

fn find_chars(s: &Vec<char>, p: &Vec<char>) -> (r: Option<usize>)
    ensures
        match r {
            Some(i) => find_from(s@, p@, 0) == Some(i as int),
            None => find_from(s@, p@, 0) is None,
        },
        r matches Some(i) ==> i + p@.len() <= s@.len(),
{
    if p.len() > s.len() {
        return None;
    }
    let last: usize = s.len() - p.len();
    let mut i: usize = 0;
    while i <= last
        invariant
            last == s@.len() - p@.len(),
            i <= last + 1,
            forall|j: int| 0 <= j < i ==> !occurs_at(s@, p@, j),
        decreases last + 1 - i,
    {
        if matches_at(s, p, i) {
            proof {
                lemma_find_skip(s@, p@, 0, i as int);
            }
            return Some(i);
        }
        if i == last {
            proof {
                lemma_find_skip(s@, p@, 0, last + 1);
            }
            return None;
        }
        i += 1;
    }
    proof {
        lemma_find_skip(s@, p@, 0, i as int);
    }
    None
}

/// The position of the first `p` in `s`, counted in characters.
pub fn find(s: &str, p: &str) -> (r: Option<usize>)
    ensures
        match r {
            Some(i) => find_from(s@, p@, 0) == Some(i as int),
            None => find_from(s@, p@, 0) is None,
        },
        r matches Some(i) ==> i + p@.len() <= s@.len(),
{
    let hay = chars_of(s);
    let needle = chars_of(p);
    find_chars(&hay, &needle)
}

/// Whether `p` stands somewhere in `s`.
pub fn contains(s: &str, p: &str) -> (r: bool)
    ensures
        r == has_text(s@, p@),
{
    let found = find(s, p);
    proof {
        lemma_find_from(s@, p@, 0);
    }
    found.is_some()
}

/// Whether `s` begins with `p`.
pub fn starts_with(s: &str, p: &str) -> (r: bool)
    ensures
        r == has_prefix(s@, p@),
{
    let hay = chars_of(s);
    let needle = chars_of(p);
    if needle.len() > hay.len() {
        return false;
    }
    matches_at(&hay, &needle, 0)
}

proof fn lemma_trim_start(s: Seq<char>, n: int)
    requires
        0 <= n <= s.len(),
        forall|j: int| 0 <= j < n ==> whitespace(#[trigger] s[j]),
        n < s.len() ==> !whitespace(s[n]),
    ensures
        trim_start(s) == s.skip(n),
    decreases n,
{
    if n > 0 {
        let rest = s.drop_first();
        assert forall|j: int| 0 <= j < n - 1 implies whitespace(#[trigger] rest[j]) by {
            assert(rest[j] == s[j + 1]);
        }
        lemma_trim_start(rest, n - 1);
        assert(rest.skip(n - 1) =~= s.skip(n));
    } else {
        assert(s.skip(0) =~= s);
    }
}

proof fn lemma_trim_end(s: Seq<char>, n: int)
    requires
        0 <= n <= s.len(),
        forall|j: int| n <= j < s.len() ==> whitespace(#[trigger] s[j]),
        n > 0 ==> !whitespace(s[n - 1]),
    ensures
        trim_end(s) == s.take(n),
    decreases s.len() - n,
{
    if n < s.len() {
        lemma_trim_end(s.drop_last(), n);
        assert(s.drop_last().take(n) =~= s.take(n));
    } else {
        assert(s.take(n) =~= s);
    }
}

/// The text without the white space at its start and at its end.
pub fn trim(s: &str) -> (r: String)
    ensures
        r@ == trimmed(s@),
{
    let chars = chars_of(s);
    let mut from: usize = 0;
    while from < chars.len() && chars[from].is_whitespace()
        invariant
            from <= chars@.len(),
            forall|j: int| 0 <= j < from ==> whitespace(#[trigger] chars@[j]),
        decreases chars@.len() - from,
    {
        from += 1;
    }
    let mut to: usize = chars.len();
    while to > from && chars[to - 1].is_whitespace()
        invariant
            from <= to <= chars@.len(),
            forall|j: int| to <= j < chars@.len() ==> whitespace(#[trigger] chars@[j]),
        decreases to,
    {
        to -= 1;
    }
    proof {
        lemma_trim_start(chars@, from as int);
        let rest = chars@.skip(from as int);
        assert forall|j: int| to - from <= j < rest.len() implies whitespace(
            #[trigger] rest[j],
        ) by {
            assert(rest[j] == chars@[j + from]);
        }
        lemma_trim_end(rest, to - from);
        assert(rest.take(to - from) =~= chars@.subrange(from as int, to as int));
    }
    string_of(&chars[from..to])
}

/// Whether the text holds nothing but white space.
pub fn is_blank(s: &str) -> (r: bool)
    ensures
        r == (trimmed(s@).len() == 0),
{
    trim(s).as_str().is_empty()
}

/// The pieces of `s` between the characters that `is_sep` holds of.
fn split_where<F: Fn(char) -> bool>(
    s: &str,
    is_sep: F,
    Ghost(sep): Ghost<spec_fn(char) -> bool>,
) -> (r: Vec<String>)
    requires
        forall|c: char| is_sep.requires((c,)),
        forall|c: char, b: bool| is_sep.ensures((c,), b) ==> b == sep(c),
    ensures
        r.deep_view() == split_by(s@, sep),
        r@.len() > 0,
{
    let chars = chars_of(s);
    let mut out: Vec<String> = Vec::new();
    let mut piece = String::new();
    for i in 0..chars.len()
        invariant
            forall|c: char| is_sep.requires((c,)),
            forall|c: char, b: bool| is_sep.ensures((c,), b) ==> b == sep(c),
            out.deep_view().push(piece@) == split_by(chars@.take(i as int), sep),
    {
        assert(chars@.take(i + 1).drop_last() =~= chars@.take(i as int));
        let ghost before = out.deep_view();
        if is_sep(chars[i]) {
            out.push(piece);
            assert(out.deep_view() =~= before.push(out@.last()@));
            piece = String::new();
        } else {
            let ghost start = piece@;
            piece.push(chars[i]);
            assert(before.push(start).drop_last() =~= before);
        }
    }
    assert(chars@.take(chars@.len() as int) =~= chars@);
    let ghost before = out.deep_view();
    out.push(piece);
    assert(out.deep_view() =~= before.push(out@.last()@));
    out
}

/// The pieces of `s` between the separators `sep`.
pub fn split_char(s: &str, sep: char) -> (r: Vec<String>)
    ensures
        r.deep_view() == split_by(s@, is_char(sep)),
        r@.len() > 0,
{
    let is_sep = |c: char| -> (b: bool)
        ensures
            b == (c == sep),
    { c == sep };
    split_where(s, is_sep, Ghost(is_char(sep)))
}

/// The separator test for the characters that end an identifier in a link.
pub open spec fn ends_identifier() -> spec_fn(char) -> bool {
    |c: char| c == '?' || c == '&' || c == '/'
}

/// The text up to the first `?`, `&` or `/`.
pub fn identifier_prefix(s: &str) -> (r: String)
    ensures
        r@ == split_by(s@, ends_identifier())[0],
{
    let is_sep = |c: char| -> (b: bool)
        ensures
            b == (c == '?' || c == '&' || c == '/'),
    { c == '?' || c == '&' || c == '/' };
    let pieces = split_where(s, is_sep, Ghost(ends_identifier()));
    assert(pieces.deep_view()[0] == pieces@[0]@);
    pieces[0].clone()
}

/// The words of `s`: its longest runs of characters that are not white space.
pub fn split_whitespace(s: &str) -> (r: Vec<String>)
    ensures
        r.deep_view() == words(s@),
{
    let is_sep = |c: char| -> (b: bool)
        ensures
            b == whitespace(c),
    { c.is_whitespace() };
    let pieces = split_where(s, is_sep, Ghost(is_space()));
    let ghost all = pieces.deep_view();
    let ghost keep = |w: Seq<char>| w.len() > 0;
    let mut out: Vec<String> = Vec::new();
    for i in 0..pieces.len()
        invariant
            all == pieces.deep_view(),
            keep == (|w: Seq<char>| w.len() > 0),
            out.deep_view() == all.take(i as int).filter(keep),
    {
        let ghost before = out.deep_view();
        proof {
            reveal(Seq::filter);
            assert(all.take(i + 1).drop_last() =~= all.take(i as int));
            assert(all.take(i + 1).last() == pieces@[i as int]@);
        }
        if !pieces[i].as_str().is_empty() {
            out.push(pieces[i].clone());
            assert(out.deep_view() =~= before.push(pieces@[i as int]@));
        }
    }
    assert(all.take(all.len() as int) =~= all);
    out
}

/// The lines of `s`.
pub fn split_lines(s: &str) -> (r: Vec<String>)
    ensures
        r.deep_view() == lines(s@),
{
    let pieces = split_char(s, '\n');
    let ghost all = pieces.deep_view();
    let ghost strip = |line: Seq<char>| strip_carriage_return(line);
    let last: usize = pieces.len() - 1;
    let mut out: Vec<String> = Vec::new();
    for i in 0..last
        invariant
            last == pieces@.len() - 1,
            all == pieces.deep_view(),
            out.deep_view() == all.take(i as int).map_values(strip),
            strip == (|line: Seq<char>| strip_carriage_return(line)),
    {
        let ghost before = out.deep_view();
        let chars = chars_of(&pieces[i]);
        let n: usize = chars.len();
        if n > 0 && chars[n - 1] == '\r' {
            out.push(string_of(&chars[0..n - 1]));
            assert(chars@.subrange(0, n - 1) =~= chars@.drop_last());
        } else {
            out.push(pieces[i].clone());
        }
        assert(out@.last()@ == strip_carriage_return(all[i as int]));
        assert(out.deep_view() =~= before.push(out@.last()@));
        assert(all.take(i + 1).map_values(strip) =~= all.take(i as int).map_values(strip).push(
            strip(all[i as int]),
        ));
    }
    assert(all.drop_last() =~= all.take(last as int));
    if !pieces[last].as_str().is_empty() {
        let ghost before = out.deep_view();
        out.push(pieces[last].clone());
        assert(out.deep_view() =~= before.push(pieces@[last as int]@));
    }
    out
}

/// The text before the first `sep` in `s` and the text after it.
pub fn split_at_char(s: &str, sep: char) -> (r: Option<(String, String)>)
    ensures
        match r {
            Some((a, b)) => split_once(s@, sep) == Some((a@, b@)),
            None => split_once(s@, sep) is None,
        },
{
    let chars = chars_of(s);
    let mut needle: Vec<char> = Vec::new();
    needle.push(sep);
    assert(needle@ =~= seq![sep]);
    match find_chars(&chars, &needle) {
        Some(i) => {
            assert(chars@.subrange(0, i as int) =~= chars@.take(i as int));
            assert(chars@.subrange(i + 1, chars@.len() as int) =~= chars@.skip(i + 1));
            let n: usize = chars.len();
            Some((string_of(&chars[0..i]), string_of(&chars[i + 1..n])))
        },
        None => None,
    }
}

proof fn lemma_decimal_prefix(s: Seq<char>, n: int)
    requires
        0 <= n <= s.len(),
    ensures
        decimal_value(s.take(n)) <= decimal_value(s),
    decreases s.len() - n,
{
    if n < s.len() {
        lemma_decimal_prefix(s.drop_last(), n);
        assert(s.drop_last().take(n) =~= s.take(n));
    } else {
        assert(s.take(n) =~= s);
    }
}

/// The number that a text denotes, if it denotes one that is at most `max`.
pub fn parse_number(s: &str, max: u64) -> (r: Option<u64>)
    ensures
        match r {
            Some(n) => parse_decimal(s@, max as nat) == Some(n as nat),
            None => parse_decimal(s@, max as nat) is None,
        },
{
    let chars = chars_of(s);
    let from: usize = if chars.len() > 0 && chars[0] == '+' {
        1
    } else {
        0
    };
    let ghost digits = chars@.skip(from as int);
    proof {
        if from == 0 {
            assert(digits =~= chars@);
        } else {
            assert(digits =~= chars@.drop_first());
        }
    }
    if from == chars.len() {
        return None;
    }
    let mut value: u64 = 0;
    for i in from..chars.len()
        invariant
            from <= i <= chars@.len(),
            digits == chars@.skip(from as int),
            digits == (if s@.len() > 0 && s@[0] == '+' {
                s@.drop_first()
            } else {
                s@
            }),
            forall|j: int| 0 <= j < i - from ==> is_digit(#[trigger] digits[j]),
            value == decimal_value(digits.take(i - from)),
            value <= max,
    {
        let c = chars[i];
        let ghost k = i - from;
        assert(digits[k] == c);
        if c < '0' || c > '9' {
            assert(!is_digit(digits[k]));
            assert(!all_digits(digits));
            return None;
        }
        let digit: u64 = (c as u32 - '0' as u32) as u64;
        proof {
            assert(digits.take(k + 1).drop_last() =~= digits.take(k));
            assert(digits.take(k + 1).last() == c);
            lemma_decimal_prefix(digits, k + 1);
        }
        if digit > max || value > (max - digit) / 10 {
            assert(value * 10 + digit > max);
            return None;
        }
        value = value * 10 + digit;
    }
    assert(digits.take(digits.len() as int) =~= digits);
    Some(value)
}

/// A number in decimal digits.
pub fn number_string(n: u32) -> (r: String)
    ensures
        r@ == number_text(n as nat),
    decreases n,
{
    let digit: char = (48 + (n % 10) as u8) as char;
    if n < 10 {
        let mut out = String::new();
        out.push(digit);
        assert(out@ =~= number_text(n as nat));
        out
    } else {
        let mut out = number_string(n / 10);
        out.push(digit);
        out
    }
}

/// An upper-case letter of ASCII in lower case; every other character as it is.
fn lower_ascii(c: char) -> (r: char)
    ensures
        r == ascii_lower(c),
{
    if 'A' <= c && c <= 'Z' {
        ((c as u32 + 32) as u8) as char
    } else {
        c
    }
}

/// Whether the two texts are equal but for the case of the letters of ASCII.
pub fn same_ignoring_ascii_case(a: &str, b: &str) -> (r: bool)
    ensures
        r == eq_ignoring_ascii_case(a@, b@),
{
    let x = chars_of(a);
    let y = chars_of(b);
    if x.len() != y.len() {
        return false;
    }
    for i in 0..x.len()
        invariant
            x@ == a@,
            y@ == b@,
            x@.len() == y@.len(),
            forall|j: int| 0 <= j < i ==> #[trigger] ascii_lower(x@[j]) == ascii_lower(y@[j]),
    {
        if lower_ascii(x[i]) != lower_ascii(y[i]) {
            assert(ascii_lower(x@[i as int]) != ascii_lower(y@[i as int]));
            return false;
        }
    }
    true
}

/// Whether the two texts are equal.
pub fn same(a: &str, b: &str) -> (r: bool)
    ensures
        r == (a@ == b@),
{
    let x = chars_of(a);
    let y = chars_of(b);
    if x.len() != y.len() {
        return false;
    }
    let r = matches_at(&x, &y, 0);
    assert(x@.subrange(0, x@.len() as int) =~= x@);
    r
}

/// One text after the other.
pub fn concat(a: &str, b: &str) -> (r: String)
    ensures
        r@ == a@ + b@,
{
    let mut out = String::from_str(a);
    out.append(b);
    out
}

/// There is a piece, and no piece holds a separator.
pub proof fn lemma_pieces_hold_no_separator(s: Seq<char>, sep: spec_fn(char) -> bool)
    ensures
        split_by(s, sep).len() > 0,
        forall|i: int, k: int|
            0 <= i < split_by(s, sep).len() && 0 <= k < split_by(s, sep)[i].len() ==> !sep(
                #[trigger] split_by(s, sep)[i][k],
            ),
    decreases s.len(),
{
    if s.len() > 0 {
        lemma_pieces_hold_no_separator(s.drop_last(), sep);
        let before = split_by(s.drop_last(), sep);
        let after = split_by(s, sep);
        assert forall|i: int, k: int| 0 <= i < after.len() && 0 <= k < after[i].len() implies !sep(
            #[trigger] after[i][k],
        ) by {
            if i < before.len() {
                if k < before[i].len() {
                    assert(after[i][k] == before[i][k]);
                }
            }
        }
    }
}

/// A trimmed text has no white space at its ends, so that trimming it again changes nothing.
pub proof fn law_trimming_is_idempotent(s: Seq<char>)
    ensures
        trimmed(trimmed(s)) == trimmed(s),
        trimmed(s).len() > 0 ==> !whitespace(trimmed(s)[0]) && !whitespace(trimmed(s).last()),
{
    lemma_trim_start_ends(s);
    lemma_trim_end_ends(trim_start(s));
}

proof fn lemma_trim_start_ends(s: Seq<char>)
    ensures
        trim_start(s).len() > 0 ==> !whitespace(trim_start(s)[0]),
    decreases s.len(),
{
    if s.len() > 0 && whitespace(s[0]) {
        lemma_trim_start_ends(s.drop_first());
    }
}

proof fn lemma_trim_end_ends(s: Seq<char>)
    ensures
        trim_end(s).len() > 0 ==> !whitespace(trim_end(s).last()),
        trim_end(s).len() > 0 ==> trim_end(s)[0] == s[0],
        trim_end(s).len() <= s.len(),
    decreases s.len(),
{
    if s.len() > 0 && whitespace(s.last()) {
        lemma_trim_end_ends(s.drop_last());
    }
}

/// A number that is written in decimal digits is read back.
pub proof fn law_written_number_is_read_back(n: nat, max: nat)
    requires
        n <= max,
    ensures
        parse_decimal(number_text(n), max) == Some(n),
{
    lemma_number_text(n);
    let s = number_text(n);
    assert(is_digit(s[0]));
}

proof fn lemma_number_text(n: nat)
    ensures
        number_text(n).len() > 0,
        all_digits(number_text(n)),
        decimal_value(number_text(n)) == n,
    decreases n,
{
    let digit = ('0' as nat + n % 10) as char;
    let s = number_text(n);
    if n < 10 {
        assert(s.drop_last() =~= Seq::empty());
        assert(decimal_value(s.drop_last()) == 0);
        assert(s.last() == digit);
    } else {
        lemma_number_text(n / 10);
        assert(s.drop_last() =~= number_text(n / 10));
        assert(s.last() == digit);
    }
}

/// Raising the letters of ASCII before they are lowered changes nothing, and lowering them twice
/// is lowering them once.
pub proof fn law_ascii_case_is_forgotten(s: Seq<char>)
    ensures
        ascii_lowered(ascii_raised(s)) == ascii_lowered(s),
        ascii_lowered(ascii_lowered(s)) == ascii_lowered(s),
        ascii_only(s) ==> ascii_only(ascii_raised(s)) && ascii_only(ascii_lowered(s)),
{
    assert(ascii_lowered(ascii_raised(s)) =~= ascii_lowered(s));
    assert(ascii_lowered(ascii_lowered(s)) =~= ascii_lowered(s));
}

proof fn lemma_split_after_separator(s: Seq<char>, sep: spec_fn(char) -> bool)
    requires
        s.len() > 0,
        sep(s[0]),
    ensures
        split_by(s, sep) == seq![Seq::<char>::empty()] + split_by(s.drop_first(), sep),
    decreases s.len(),
{
    let none = seq![Seq::<char>::empty()];
    let rest = s.drop_first();
    if s.len() == 1 {
        assert(s.drop_last() =~= Seq::empty());
        assert(rest =~= Seq::empty());
        assert(split_by(s, sep) =~= none + split_by(rest, sep));
    } else {
        lemma_split_after_separator(s.drop_last(), sep);
        lemma_pieces_hold_no_separator(rest.drop_last(), sep);
        assert(s.drop_last().drop_first() =~= rest.drop_last());
        assert(rest.last() == s.last());
        assert(split_by(s, sep) =~= none + split_by(rest, sep));
    }
}

proof fn lemma_words_after_space(s: Seq<char>)
    requires
        s.len() > 0,
        whitespace(s[0]),
    ensures
        words(s) == words(s.drop_first()),
{
    let full = |w: Seq<char>| w.len() > 0;
    let none = seq![Seq::<char>::empty()];
    let rest = split_by(s.drop_first(), is_space());
    lemma_split_after_separator(s, is_space());
    Seq::filter_distributes_over_add(none, rest, full);
    assert(none.filter(full) =~= Seq::empty()) by {
        reveal(Seq::filter);
        assert(none.drop_last() =~= Seq::empty());
        assert(none.last().len() == 0);
        assert(none.drop_last().filter(full) =~= Seq::empty());
    }
    assert(none.filter(full) + rest.filter(full) =~= rest.filter(full));
}

proof fn lemma_words_before_space(s: Seq<char>)
    requires
        s.len() > 0,
        whitespace(s.last()),
    ensures
        words(s) == words(s.drop_last()),
{
    reveal(Seq::filter);
    let before = split_by(s.drop_last(), is_space());
    assert(split_by(s, is_space()).drop_last() =~= before);
    assert(split_by(s, is_space()).last().len() == 0);
}

proof fn lemma_words_of_trim_start(s: Seq<char>)
    ensures
        words(trim_start(s)) == words(s),
    decreases s.len(),
{
    if s.len() > 0 && whitespace(s[0]) {
        lemma_words_of_trim_start(s.drop_first());
        lemma_words_after_space(s);
    }
}

proof fn lemma_words_of_trim_end(s: Seq<char>)
    ensures
        words(trim_end(s)) == words(s),
    decreases s.len(),
{
    if s.len() > 0 && whitespace(s.last()) {
        lemma_words_of_trim_end(s.drop_last());
        lemma_words_before_space(s);
    }
}

/// Trimming takes no word away: the words of a trimmed text are those of the text.
pub proof fn law_trimming_keeps_words(s: Seq<char>)
    ensures
        words(trimmed(s)) == words(s),
{
    lemma_words_of_trim_start(s);
    lemma_words_of_trim_end(trim_start(s));
}

} // verus!
