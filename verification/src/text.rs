//! UTF-8 checks on raw bytes, through the standard library.

use vstd::prelude::*;

use vstd::utf8::{decode_utf8, valid_utf8};

verus! {

/// Why a byte string is not UTF-8, as `std::str::Utf8Error` reports it.
#[derive(Clone, Copy, Debug, PartialEq, Eq)]
pub struct Utf8Failure {
    /// The length of the longest valid prefix.
    pub valid_up_to: usize,
    /// The length of the invalid sequence at `valid_up_to`, or `None` when the
    /// input ended in the middle of a character.
    pub error_len: Option<usize>,
}

/// `std::str::from_utf8`. The documentation promises that it succeeds
/// exactly on valid UTF-8, giving the string those bytes encode, and on
/// failure that `valid_up_to` is the longest valid prefix and `error_len`,
/// when present, is 1 to 3 bytes that fit in the input. Nothing is said of
/// which of several invalid prefixes a failure reports beyond that.
#[verifier::external_body]
pub(crate) fn check_utf8(bytes: &[u8]) -> (r: Result<&str, Utf8Failure>)
    ensures
        (r is Ok) == valid_utf8(bytes@),
        r matches Ok(s) ==> s@ == decode_utf8(bytes@),
        r matches Err(f) ==> f.valid_up_to < bytes@.len() && valid_utf8(bytes@.subrange(0, f.valid_up_to as int)),
        r matches Err(f) ==> (f.error_len matches Some(l) ==> 1 <= l <= 3 && f.valid_up_to + l <= bytes@.len()),
{
    match std::str::from_utf8(bytes) {
        Ok(s) => Ok(s),
        Err(e) => Err(Utf8Failure { valid_up_to: e.valid_up_to(), error_len: e.error_len() }),
    }
}

/// `String::from_utf8`, keeping only the string. The documentation promises
/// success exactly on valid UTF-8, the string then holding the decoded
/// characters.
#[verifier::external_body]
pub(crate) fn string_from_utf8(bytes: Vec<u8>) -> (r: Option<String>)
    ensures
        (r is Some) == valid_utf8(bytes@),
        r matches Some(s) ==> s@ == decode_utf8(bytes@),
{
    String::from_utf8(bytes).ok()
}

/// The characters of `bytes` when they are UTF-8, and the empty string when
/// they are not.
pub open spec fn utf8_or_empty(bytes: Seq<u8>) -> Seq<char> {
    if valid_utf8(bytes) {
        decode_utf8(bytes)
    } else {
        Seq::empty()
    }
}

/// `bytes` as a string, or the empty string if they are not UTF-8.
pub fn string_or_empty(bytes: Vec<u8>) -> (r: String)
    ensures
        r@ == utf8_or_empty(bytes@),
{
    let ghost b = bytes@;
    match string_from_utf8(bytes) {
        Some(s) => s,
        None => String::new(),
    }
}

/// `String::push_str`: appends the characters of `t`, as its documentation
/// says.
#[verifier::external_body]
pub(crate) fn string_push_str(s: &mut String, t: &str)
    ensures
        final(s)@ == old(s)@ + t@,
{
    s.push_str(t);
}

/// `String::push`: appends one character, as its documentation says.
#[verifier::external_body]
pub(crate) fn string_push(s: &mut String, c: char)
    ensures
        final(s)@ == old(s)@.push(c),
{
    s.push(c);
}


/// `s` without its trailing `'\0'` characters.
pub open spec fn trim_nul_chars(s: Seq<char>) -> Seq<char>
    decreases s.len(),
{
    if s.len() > 0 && s.last() == '\0' {
        trim_nul_chars(s.drop_last())
    } else {
        s
    }
}

/// `str::trim_end_matches` with the pattern `'\0'`: its documentation says
/// it returns the string with every trailing match removed, repeatedly.
#[verifier::external_body]
pub(crate) fn str_trim_end_nuls(s: &str) -> (r: &str)
    ensures
        r@ == trim_nul_chars(s@),
{
    s.trim_end_matches('\0')
}

} // verus!
