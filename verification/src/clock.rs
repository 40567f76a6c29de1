use vstd::prelude::*;

verus! {

/// Seconds in a day.
pub const SECS_PER_DAY: u64 = 86400;

/// The character of a decimal digit `0..=9`.
pub open spec fn digit_char(d: int) -> char {
    if d == 0 {
        '0'
    } else if d == 1 {
        '1'
    } else if d == 2 {
        '2'
    } else if d == 3 {
        '3'
    } else if d == 4 {
        '4'
    } else if d == 5 {
        '5'
    } else if d == 6 {
        '6'
    } else if d == 7 {
        '7'
    } else if d == 8 {
        '8'
    } else {
        '9'
    }
}

/// A number below 100 written with two digits, zero-padded.
pub open spec fn two_digits(n: int) -> Seq<char> {
    seq![digit_char(n / 10), digit_char(n % 10)]
}

/// `HH:MM:SS` of the time of day (UTC) of a UNIX timestamp.
pub open spec fn spec_clock_text(epoch_secs: u64) -> Seq<char> {
    let secs = (epoch_secs % 86400) as int;
    two_digits(secs / 3600) + seq![':'] + two_digits((secs % 3600) / 60) + seq![':'] + two_digits(
        secs % 60,
    )
}

/// `digit_char(d)` is the ASCII digit of `d`.
pub proof fn lemma_digit_char_is_ascii_digit(d: int)
    requires
        0 <= d <= 9,
    ensures
        (digit_char(d) as u32) == 48 + d,
{
}

/// The numeric value of an ASCII digit character.
pub open spec fn char_digit_value(c: char) -> int {
    (c as u32) - 48
}

/// The clock text reads back as the time of day: eight characters, colons
/// at positions 2 and 5, and ASCII digits whose two-digit fields are the
/// hours, minutes and seconds of the timestamp within its day.
pub proof fn lemma_clock_text_reads_back(epoch_secs: u64)
    ensures
        ({
            let text = spec_clock_text(epoch_secs);
            let secs = (epoch_secs % 86400) as int;
            &&& text.len() == 8
            &&& text[2] == ':' && text[5] == ':'
            &&& forall|i: int|
                0 <= i < 8 && i != 2 && i != 5 ==> 48 <= (#[trigger] text[i] as u32) <= 57
            &&& 10 * char_digit_value(text[0]) + char_digit_value(text[1]) == secs / 3600
            &&& 10 * char_digit_value(text[3]) + char_digit_value(text[4]) == (secs % 3600) / 60
            &&& 10 * char_digit_value(text[6]) + char_digit_value(text[7]) == secs % 60
        }),
{
    let secs = (epoch_secs % 86400) as int;
    let text = spec_clock_text(epoch_secs);
    lemma_digit_char_is_ascii_digit((secs / 3600) / 10);
    lemma_digit_char_is_ascii_digit((secs / 3600) % 10);
    lemma_digit_char_is_ascii_digit(((secs % 3600) / 60) / 10);
    lemma_digit_char_is_ascii_digit(((secs % 3600) / 60) % 10);
    lemma_digit_char_is_ascii_digit((secs % 60) / 10);
    lemma_digit_char_is_ascii_digit((secs % 60) % 10);
    assert(text[0] == digit_char((secs / 3600) / 10));
    assert(text[1] == digit_char((secs / 3600) % 10));
    assert(text[3] == digit_char(((secs % 3600) / 60) / 10));
    assert(text[4] == digit_char(((secs % 3600) / 60) % 10));
    assert(text[6] == digit_char((secs % 60) / 10));
    assert(text[7] == digit_char((secs % 60) % 10));
}

fn digit_str(d: u64) -> (s: &'static str)
    requires
        d < 10,
    ensures
        s@ == seq![digit_char(d as int)],
{
    if d == 0 {
        proof { reveal_strlit("0"); }
        "0"
    } else if d == 1 {
        proof { reveal_strlit("1"); }
        "1"
    } else if d == 2 {
        proof { reveal_strlit("2"); }
        "2"
    } else if d == 3 {
        proof { reveal_strlit("3"); }
        "3"
    } else if d == 4 {
        proof { reveal_strlit("4"); }
        "4"
    } else if d == 5 {
        proof { reveal_strlit("5"); }
        "5"
    } else if d == 6 {
        proof { reveal_strlit("6"); }
        "6"
    } else if d == 7 {
        proof { reveal_strlit("7"); }
        "7"
    } else if d == 8 {
        proof { reveal_strlit("8"); }
        "8"
    } else {
        proof { reveal_strlit("9"); }
        "9"
    }
}

fn append_two_digits(text: &mut String, n: u64)
    requires
        n < 100,
    ensures
        final(text)@ == old(text)@ + two_digits(n as int),
{
    text.append(digit_str(n / 10));
    text.append(digit_str(n % 10));
}

/// Formats the time of day (UTC) of a UNIX timestamp as `HH:MM:SS`.
pub fn clock_text(epoch_secs: u64) -> (text: String)
    ensures
        text@ == spec_clock_text(epoch_secs),
        text@.len() == 8,
{
    let secs = epoch_secs % SECS_PER_DAY;
    let hours = secs / 3600;
    let mins = (secs % 3600) / 60;
    let s = secs % 60;
    let mut text = String::new();
    append_two_digits(&mut text, hours);
    proof { reveal_strlit(":"); }
    text.append(":");
    append_two_digits(&mut text, mins);
    text.append(":");
    append_two_digits(&mut text, s);
    proof {
        assert(text@ =~= spec_clock_text(epoch_secs));
    }
    text
}

/// `std::time::SystemTime::now`, taken as whole seconds since the UNIX
/// epoch (0 when the clock is set before the epoch).  Nothing is stated of
/// the value: it is the current time.
#[verifier::external_body]
fn unix_time_secs() -> u64 {
    std::time::SystemTime::now().duration_since(std::time::UNIX_EPOCH).unwrap_or_default().as_secs()
}

/// The current time of day (UTC) as `HH:MM:SS`.
pub fn chrono_like_time() -> (text: String)
    ensures
        exists|t: u64| text@ == spec_clock_text(t),
        text@.len() == 8,
{
    let now = unix_time_secs();
    clock_text(now)
}

} // verus!
