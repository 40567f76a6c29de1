use vstd::prelude::*;
use vstd::utf8::{valid_utf8, decode_utf8};
use crate::text::{parse_i64, spec_parse_i64, spec_trim, trim_text, utf8_text};

verus! {

/// Size of the buffer that one sysfs read fills.
pub const SYSFS_READ_LEN: usize = 32;

/// The integer that a sysfs attribute file holds: its bytes as UTF-8 text,
/// trimmed of white space, read as a decimal `i64`; `None` when nothing was
/// read or the text is not such a number.
pub open spec fn spec_sysfs_value(bytes: Seq<u8>) -> Option<i64> {
    if bytes.len() > 0 && valid_utf8(bytes) {
        spec_parse_i64(spec_trim(decode_utf8(bytes)))
    } else {
        None
    }
}

/// Decodes the bytes read from a sysfs attribute file into its integer.
pub fn parse_sysfs_value(bytes: &[u8]) -> (r: Option<i64>)
    ensures
        r == spec_sysfs_value(bytes@),
{
    if bytes.len() == 0 {
        return None;
    }
    match utf8_text(bytes) {
        Some(text) => parse_i64(trim_text(text)),
        None => None,
    }
}

} // verus!
