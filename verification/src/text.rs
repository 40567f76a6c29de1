use vstd::prelude::*;
use vstd::utf8::{valid_utf8, decode_utf8};

verus! {

/// The Unicode `White_Space` characters, which `str::trim` removes.
pub open spec fn is_white_space(c: char) -> bool {
    let u = c as u32;
    ||| 0x09 <= u <= 0x0D
    ||| u == 0x20
    ||| u == 0x85
    ||| u == 0xA0
    ||| u == 0x1680
    ||| 0x2000 <= u <= 0x200A
    ||| u == 0x2028
    ||| u == 0x2029
    ||| u == 0x202F
    ||| u == 0x205F
    ||| u == 0x3000
}

/// `s` without its leading white space.
pub open spec fn trim_start(s: Seq<char>) -> Seq<char>
    decreases s.len(),
{
    if s.len() > 0 && is_white_space(s[0]) {
        trim_start(s.drop_first())
    } else {
        s
    }
}

/// `s` without its trailing white space.
pub open spec fn trim_end(s: Seq<char>) -> Seq<char>
    decreases s.len(),
{
    if s.len() > 0 && is_white_space(s.last()) {
        trim_end(s.drop_last())
    } else {
        s
    }
}

/// `s` without leading and trailing white space.
pub open spec fn spec_trim(s: Seq<char>) -> Seq<char> {
    trim_end(trim_start(s))
}

/// An ASCII decimal digit character.
pub open spec fn is_digit_char(c: char) -> bool {
    48 <= (c as u32) <= 57
}

/// The decimal value of a sequence of digit characters.
pub open spec fn digit_chars_value(digits: Seq<char>) -> int
    decreases digits.len(),
{
    if digits.len() == 0 {
        0
    } else {
        digit_chars_value(digits.drop_last()) * 10 + ((digits.last() as u32) - 48)
    }
}

/// Every character is an ASCII decimal digit.
pub open spec fn all_digit_chars(digits: Seq<char>) -> bool {
    forall|i: int| 0 <= i < digits.len() ==> is_digit_char(#[trigger] digits[i])
}

/// The text after an optional leading `+` or `-`.
pub open spec fn unsigned_part(s: Seq<char>) -> Seq<char> {
    if s.len() > 0 && (s[0] == '-' || s[0] == '+') {
        s.drop_first()
    } else {
        s
    }
}

/// What `i64::from_str` accepts: an optional `+` or `-`, then one or more
/// ASCII digits, whose value fits in `i64`.
pub open spec fn spec_parse_i64(s: Seq<char>) -> Option<i64> {
    let negative = s.len() > 0 && s[0] == '-';
    let digits = unsigned_part(s);
    let magnitude = digit_chars_value(digits);
    let value = if negative {
        -magnitude
    } else {
        magnitude
    };
    if digits.len() > 0 && all_digit_chars(digits) && i64::MIN <= value <= i64::MAX {
        Some(value as i64)
    } else {
        None
    }
}

/// `spec_trim` removes white space only at the ends: the result is a
/// contiguous part of the text that neither starts nor ends with white
/// space, and a text without white space at its ends is left unchanged.
pub proof fn lemma_trim_ends(s: Seq<char>)
    ensures
        exists|i: int, j: int| 0 <= i <= j <= s.len() && spec_trim(s) == s.subrange(i, j),
        spec_trim(s).len() > 0 ==> !is_white_space(spec_trim(s)[0]) && !is_white_space(
            spec_trim(s).last(),
        ),
        (s.len() == 0 || (!is_white_space(s[0]) && !is_white_space(s.last()))) ==> spec_trim(s)
            == s,
{
    lemma_trim_start_part(s);
    let t = trim_start(s);
    lemma_trim_end_part(t);
    let k = choose|k: int| 0 <= k <= s.len() && t == s.subrange(k, s.len() as int);
    let m = choose|m: int| 0 <= m <= t.len() && trim_end(t) == t.subrange(0, m);
    assert(spec_trim(s) =~= s.subrange(k, k + m));
    if s.len() > 0 && !is_white_space(s[0]) && !is_white_space(s.last()) {
        assert(t == s);
    }
}

proof fn lemma_trim_start_part(s: Seq<char>)
    ensures
        exists|k: int| 0 <= k <= s.len() && trim_start(s) == s.subrange(k, s.len() as int),
        trim_start(s).len() > 0 ==> !is_white_space(trim_start(s)[0]),
        trim_start(s).len() > 0 ==> trim_start(s).last() == s.last(),
    decreases s.len(),
{
    if s.len() > 0 && is_white_space(s[0]) {
        lemma_trim_start_part(s.drop_first());
        let k = choose|k: int|
            0 <= k <= s.drop_first().len() && trim_start(s.drop_first()) == s.drop_first().subrange(
                k,
                s.drop_first().len() as int,
            );
        assert(s.drop_first().subrange(k, s.drop_first().len() as int) =~= s.subrange(
            k + 1,
            s.len() as int,
        ));
    } else {
        assert(s.subrange(0, s.len() as int) =~= s);
    }
}

proof fn lemma_trim_end_part(s: Seq<char>)
    ensures
        exists|m: int| 0 <= m <= s.len() && trim_end(s) == s.subrange(0, m),
        trim_end(s).len() > 0 ==> !is_white_space(trim_end(s).last()),
        trim_end(s).len() > 0 && s.len() > 0 ==> trim_end(s)[0] == s[0],
    decreases s.len(),
{
    if s.len() > 0 && is_white_space(s.last()) {
        lemma_trim_end_part(s.drop_last());
        let m = choose|m: int|
            0 <= m <= s.drop_last().len() && trim_end(s.drop_last()) == s.drop_last().subrange(0, m);
        assert(s.drop_last().subrange(0, m) =~= s.subrange(0, m));
    } else {
        assert(s.subrange(0, s.len() as int) =~= s);
    }
}

/// How integers are read: a single digit reads as its value; a leading `+`
/// keeps it and a leading `-` negates it; an empty text or a lone sign is
/// not a number; a text with a non-digit after the sign is not a number.
pub proof fn lemma_parse_i64_basics(c: char, rest: Seq<char>)
    ensures
        is_digit_char(c) ==> spec_parse_i64(seq![c]) == Some(((c as u32) - 48) as i64),
        is_digit_char(c) ==> spec_parse_i64(seq!['+', c]) == Some(((c as u32) - 48) as i64),
        is_digit_char(c) ==> spec_parse_i64(seq!['-', c]) == Some((48 - (c as u32)) as i64),
        spec_parse_i64(Seq::<char>::empty()) is None,
        spec_parse_i64(seq!['-']) is None,
        spec_parse_i64(seq!['+']) is None,
        !is_digit_char(c) && c != '-' && c != '+' ==> spec_parse_i64(seq![c] + rest) is None,
{
    assert(seq![c].drop_last() =~= Seq::<char>::empty());
    assert(digit_chars_value(Seq::<char>::empty()) == 0);
    assert(seq![c].last() == c);
    assert(seq![c][0] == c);
    assert(digit_chars_value(seq![c]) == (c as u32) - 48);
    if is_digit_char(c) {
        assert(all_digit_chars(seq![c]));
    }
    assert(seq!['+', c].drop_first() =~= seq![c]);
    assert(seq!['-', c].drop_first() =~= seq![c]);
    assert(seq!['-'].drop_first() =~= Seq::<char>::empty());
    assert(seq!['+'].drop_first() =~= Seq::<char>::empty());
    assert((seq![c] + rest)[0] == c);
    if !is_digit_char(c) && c != '-' && c != '+' {
        let t = seq![c] + rest;
        assert(t.len() > 0);
        assert(!is_digit_char(t[0]));
        assert(!(t[0] == '-' || t[0] == '+'));
        assert(unsigned_part(t) == t);
        assert(!all_digit_chars(t));
    }
}

/// `str::trim`: returns `s` without leading and trailing Unicode white
/// space, as std documents it.
#[verifier::external_body]
pub(crate) fn trim_text(s: &str) -> (t: &str)
    ensures
        t@ == spec_trim(s@),
{
    s.trim()
}

/// `std::str::from_utf8`: the bytes as text when they are valid UTF-8, as
/// std documents it.
#[verifier::external_body]
pub(crate) fn utf8_text(bytes: &[u8]) -> (r: Option<&str>)
    ensures
        r is Some <==> valid_utf8(bytes@),
        r matches Some(s) ==> s@ == decode_utf8(bytes@),
{
    std::str::from_utf8(bytes).ok()
}

/// `str::parse::<i64>`: the decimal integer that `s` spells, as std
/// documents `i64::from_str`.
#[verifier::external_body]
pub(crate) fn parse_i64(s: &str) -> (r: Option<i64>)
    ensures
        r == spec_parse_i64(s@),
{
    s.parse::<i64>().ok()
}

} // verus!
