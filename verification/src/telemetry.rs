use vstd::prelude::*;

verus! {

/// Size of the buffer that each raw sensor read fills.
pub const READ_BUFFER_LEN: usize = 16;

/// An ASCII decimal digit.
pub open spec fn is_digit(b: u8) -> bool {
    48 <= b <= 57
}

/// The value of an ASCII decimal digit.
pub open spec fn digit_value(b: u8) -> int {
    b - 48
}

/// Scans raw sensor text from the left: digits accumulate into a decimal
/// value; a non-digit ends the scan once the value is nonzero and is
/// skipped before that.  Gives the value and whether the scan has ended.
pub open spec fn scan_reading(bytes: Seq<u8>) -> (int, bool)
    decreases bytes.len(),
{
    if bytes.len() == 0 {
        (0, false)
    } else {
        let (v, done) = scan_reading(bytes.drop_last());
        let b = bytes.last();
        if done {
            (v, true)
        } else if is_digit(b) {
            (v * 10 + digit_value(b), false)
        } else if v > 0 {
            (v, true)
        } else {
            (v, false)
        }
    }
}

/// The reading of raw sensor text: the value of its first run of digits
/// whose value is nonzero, or zero.
pub open spec fn spec_sensor_reading(bytes: Seq<u8>) -> int {
    scan_reading(bytes).0
}

/// The decimal value of a sequence of digits.
pub open spec fn decimal_value(digits: Seq<u8>) -> int
    decreases digits.len(),
{
    if digits.len() == 0 {
        0
    } else {
        decimal_value(digits.drop_last()) * 10 + digit_value(digits.last())
    }
}

/// `10^n`.
pub open spec fn pow10(n: nat) -> int
    decreases n,
{
    if n == 0 {
        1
    } else {
        10 * pow10((n - 1) as nat)
    }
}

proof fn lemma_scan_bounds(bytes: Seq<u8>)
    ensures
        0 <= scan_reading(bytes).0 < pow10(bytes.len()),
    decreases bytes.len(),
{
    if bytes.len() > 0 {
        lemma_scan_bounds(bytes.drop_last());
    }
}

proof fn lemma_pow10_monotone(a: nat, b: nat)
    requires
        a <= b,
    ensures
        pow10(a) <= pow10(b),
    decreases b,
{
    if a < b {
        lemma_pow10_monotone(a, (b - 1) as nat);
        lemma_pow10_positive((b - 1) as nat);
    }
}

proof fn lemma_pow10_positive(n: nat)
    ensures
        pow10(n) >= 1,
    decreases n,
{
    if n > 0 {
        lemma_pow10_positive((n - 1) as nat);
    }
}

/// Decodes the text of a raw sensor read.  At most 18 bytes, so that the
/// decimal value always fits in `i64`.
pub fn parse_sensor_text(bytes: &[u8]) -> (v: i64)
    requires
        bytes@.len() <= 18,
    ensures
        v == spec_sensor_reading(bytes@),
        v >= 0,
{
    let mut val: i64 = 0;
    let mut i: usize = 0;
    let n = bytes.len();
    proof {
        lemma_pow10_monotone(n as nat, 18);
        reveal_with_fuel(pow10, 19);
        assert(pow10(18) == 1_000_000_000_000_000_000int);
    }
    while i < n
        invariant
            n == bytes@.len(),
            n <= 18,
            i <= n,
            pow10(n as nat) <= 1_000_000_000_000_000_000,
            scan_reading(bytes@.take(i as int)) == (val as int, false),
        decreases n - i,
    {
        let b = bytes[i];
        proof {
            assert(bytes@.take(i + 1).drop_last() =~= bytes@.take(i as int));
            assert(bytes@.take(i + 1).last() == b);
            lemma_scan_bounds(bytes@.take(i + 1));
            lemma_pow10_monotone((i + 1) as nat, n as nat);
        }
        if b >= 48 && b <= 57 {
            val = val * 10 + (b - 48) as i64;
        } else if val > 0 {
            proof {
                lemma_scan_prefix_done(bytes@, i + 1);
                assert(bytes@.take(n as int) =~= bytes@);
            }
            return val;
        }
        i = i + 1;
    }
    proof {
        assert(bytes@.take(n as int) =~= bytes@);
        lemma_scan_bounds(bytes@);
    }
    val
}

/// Once the scan of a prefix has ended, the rest of the text does not
/// change the reading.
proof fn lemma_scan_prefix_done(bytes: Seq<u8>, k: int)
    requires
        0 <= k <= bytes.len(),
        scan_reading(bytes.take(k)).1,
    ensures
        scan_reading(bytes) == scan_reading(bytes.take(k)),
    decreases bytes.len() - k,
{
    if k < bytes.len() {
        assert(bytes.take(k + 1).drop_last() =~= bytes.take(k));
        lemma_scan_prefix_done(bytes, k + 1);
    } else {
        assert(bytes.take(k) =~= bytes);
    }
}

/// Decodes the result of a positional read of at most 16 bytes into `buf`:
/// `n` is the byte count that the read returned, or a negative error.
/// A failed or empty read gives zero.
pub fn reading_from_read_result(buf: &[u8], n: isize) -> (v: i64)
    requires
        buf@.len() <= 18,
        n <= buf@.len(),
    ensures
        n <= 0 ==> v == 0,
        n > 0 ==> v == spec_sensor_reading(buf@.take(n as int)),
{
    if n <= 0 {
        return 0;
    }
    let count = n as usize;
    let mut prefix: Vec<u8> = Vec::new();
    let mut i: usize = 0;
    while i < count
        invariant
            count == n,
            count <= buf@.len(),
            i <= count,
            prefix@ =~= buf@.take(i as int),
        decreases count - i,
    {
        prefix.push(buf[i]);
        i = i + 1;
    }
    parse_sensor_text(prefix.as_slice())
}

/// A sensor file holding a decimal number followed by a newline (or any
/// other non-digit) reads as that number.
pub proof fn lemma_decimal_line_reads_as_value(digits: Seq<u8>, rest: Seq<u8>)
    requires
        forall|i: int| 0 <= i < digits.len() ==> is_digit(#[trigger] digits[i]),
        decimal_value(digits) > 0,
        rest.len() > 0,
        !is_digit(rest[0]),
    ensures
        spec_sensor_reading(digits + rest) == decimal_value(digits),
{
    lemma_scan_of_digits(digits);
    let all = digits + rest;
    let k = digits.len() as int;
    assert(all.take(k) =~= digits);
    assert(all.take(k + 1).drop_last() =~= digits);
    assert(all.take(k + 1).last() == rest[0]);
    lemma_scan_prefix_done(all, k + 1);
}

/// Each ASCII digit reads as its own value, `'0'` (48) as 0 up to `'9'` (57)
/// as 9, and no other byte is a digit.
pub proof fn lemma_digit_bytes(b: u8)
    ensures
        is_digit(b) <==> 48 <= b <= 57,
        is_digit(b) ==> spec_sensor_reading(seq![b]) == b - 48,
        !is_digit(b) ==> spec_sensor_reading(seq![b]) == 0,
{
    let s = seq![b];
    assert(s.drop_last() =~= Seq::<u8>::empty());
    assert(scan_reading(Seq::<u8>::empty()) == (0int, false));
    assert(s.last() == b);
}

/// A non-digit byte in front of the text changes nothing: leading blanks,
/// signs or other noise are skipped.
pub proof fn lemma_leading_noise_skipped(noise: u8, text: Seq<u8>)
    requires
        !is_digit(noise),
    ensures
        spec_sensor_reading(seq![noise] + text) == spec_sensor_reading(text),
{
    lemma_scan_after_noise(noise, text);
}

proof fn lemma_scan_after_noise(noise: u8, text: Seq<u8>)
    requires
        !is_digit(noise),
    ensures
        scan_reading(seq![noise] + text) == scan_reading(text),
    decreases text.len(),
{
    let all = seq![noise] + text;
    if text.len() == 0 {
        assert(text =~= Seq::<u8>::empty());
        assert(all =~= seq![noise]);
        assert(all.drop_last() =~= Seq::<u8>::empty());
        assert(scan_reading(Seq::<u8>::empty()) == (0int, false));
        assert(all.last() == noise);
        assert(scan_reading(all) == (0int, false));
    } else {
        assert(all.drop_last() =~= seq![noise] + text.drop_last());
        assert(all.last() == text.last());
        lemma_scan_after_noise(noise, text.drop_last());
        assert(scan_reading(all.drop_last()) == scan_reading(text.drop_last()));
    }
}

/// Appending a digit while the scan is still running shifts the reading
/// one decimal place and adds the digit.
pub proof fn lemma_digit_appended(text: Seq<u8>, b: u8)
    requires
        is_digit(b),
        !scan_reading(text).1,
    ensures
        spec_sensor_reading(text.push(b)) == 10 * spec_sensor_reading(text) + (b - 48),
{
    assert(text.push(b).drop_last() =~= text);
}

proof fn lemma_scan_of_digits(digits: Seq<u8>)
    requires
        forall|i: int| 0 <= i < digits.len() ==> is_digit(#[trigger] digits[i]),
    ensures
        scan_reading(digits) == (decimal_value(digits), false),
    decreases digits.len(),
{
    if digits.len() > 0 {
        let d = digits.drop_last();
        assert forall|i: int| 0 <= i < d.len() implies is_digit(#[trigger] d[i]) by {
            assert(d[i] == digits[i]);
        }
        lemma_scan_of_digits(d);
        assert(is_digit(digits[digits.len() - 1]));
    }
}

} // verus!
