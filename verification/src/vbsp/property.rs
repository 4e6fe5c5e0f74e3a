//! Typed values of entity properties, parsed from their text.

use vstd::prelude::*;

verus! {

#[verifier::external_type_specification]
#[verifier::external_body]
pub struct ExParseIntError(core::num::ParseIntError);

#[verifier::external_type_specification]
#[verifier::external_body]
pub struct ExParseFloatError(core::num::ParseFloatError);

/// Why a property value could not be parsed.
#[derive(Debug)]
pub enum EntityParseError {
    /// The value held the wrong number of elements.
    ElementCount,
    Float(core::num::ParseFloatError),
    Int(core::num::ParseIntError),
}

/// What `u8::from_str` gives for text `s`, or `None` when it refuses it.
pub uninterp spec fn u8_from_str(s: Seq<char>) -> Option<u8>;

/// What `u16::from_str` gives for text `s`, or `None` when it refuses it.
pub uninterp spec fn u16_from_str(s: Seq<char>) -> Option<u16>;

/// What `u32::from_str` gives for text `s`, or `None` when it refuses it.
pub uninterp spec fn u32_from_str(s: Seq<char>) -> Option<u32>;

/// What `i32::from_str` gives for text `s`, or `None` when it refuses it.
pub uninterp spec fn i32_from_str(s: Seq<char>) -> Option<i32>;

/// `u8::from_str` (`str::parse::<u8>`). Its result is a function of the text
/// alone; nothing is said here of what that function is.
#[verifier::external_body]
fn parse_u8(s: &str) -> (r: Result<u8, core::num::ParseIntError>)
    ensures
        (r is Ok) == (u8_from_str(s@) is Some),
        r matches Ok(v) ==> u8_from_str(s@) == Some(v),
{
    s.parse::<u8>()
}

/// `u16::from_str` (`str::parse::<u16>`). Its result is a function of the
/// text alone; nothing is said here of what that function is.
#[verifier::external_body]
fn parse_u16(s: &str) -> (r: Result<u16, core::num::ParseIntError>)
    ensures
        (r is Ok) == (u16_from_str(s@) is Some),
        r matches Ok(v) ==> u16_from_str(s@) == Some(v),
{
    s.parse::<u16>()
}

/// `u32::from_str` (`str::parse::<u32>`). Its result is a function of the
/// text alone; nothing is said here of what that function is.
#[verifier::external_body]
fn parse_u32(s: &str) -> (r: Result<u32, core::num::ParseIntError>)
    ensures
        (r is Ok) == (u32_from_str(s@) is Some),
        r matches Ok(v) ==> u32_from_str(s@) == Some(v),
{
    s.parse::<u32>()
}

/// `i32::from_str` (`str::parse::<i32>`). Its result is a function of the
/// text alone; nothing is said here of what that function is.
#[verifier::external_body]
fn parse_i32(s: &str) -> (r: Result<i32, core::num::ParseIntError>)
    ensures
        (r is Ok) == (i32_from_str(s@) is Some),
        r matches Ok(v) ==> i32_from_str(s@) == Some(v),
{
    s.parse::<i32>()
}

/// A type an entity property's text parses into.
pub trait EntityProp<'a>: Sized {
    /// Whether `raw` parses.
    spec fn parses(raw: Seq<char>) -> bool;

    /// Whether `raw` parses to `v`.
    spec fn parses_to(raw: Seq<char>, v: Self) -> bool;

    /// Parse the property text `raw`.
    fn parse(raw: &'a str) -> (r: Result<Self, EntityParseError>)
        ensures
            (r is Ok) == Self::parses(raw@),
            r matches Ok(v) ==> Self::parses_to(raw@, v),
    ;
}

/// The integer types whose property text parses through their `FromStr`.
pub trait FromStrProp: Sized {

}

impl FromStrProp for u8 {

}

impl FromStrProp for u16 {

}

impl FromStrProp for u32 {

}

impl FromStrProp for i32 {

}

impl<'a> EntityProp<'a> for u8 {
    open spec fn parses(raw: Seq<char>) -> bool {
        u8_from_str(raw) is Some
    }

    open spec fn parses_to(raw: Seq<char>, v: u8) -> bool {
        u8_from_str(raw) == Some(v)
    }

    fn parse(raw: &'a str) -> (r: Result<u8, EntityParseError>)
        ensures
            r matches Err(e) ==> e is Int,
    {
        match parse_u8(raw) {
            Ok(v) => Ok(v),
            Err(e) => Err(EntityParseError::Int(e)),
        }
    }
}

impl<'a> EntityProp<'a> for u16 {
    open spec fn parses(raw: Seq<char>) -> bool {
        u16_from_str(raw) is Some
    }

    open spec fn parses_to(raw: Seq<char>, v: u16) -> bool {
        u16_from_str(raw) == Some(v)
    }

    fn parse(raw: &'a str) -> (r: Result<u16, EntityParseError>)
        ensures
            r matches Err(e) ==> e is Int,
    {
        match parse_u16(raw) {
            Ok(v) => Ok(v),
            Err(e) => Err(EntityParseError::Int(e)),
        }
    }
}

impl<'a> EntityProp<'a> for u32 {
    open spec fn parses(raw: Seq<char>) -> bool {
        u32_from_str(raw) is Some
    }

    open spec fn parses_to(raw: Seq<char>, v: u32) -> bool {
        u32_from_str(raw) == Some(v)
    }

    fn parse(raw: &'a str) -> (r: Result<u32, EntityParseError>)
        ensures
            r matches Err(e) ==> e is Int,
    {
        match parse_u32(raw) {
            Ok(v) => Ok(v),
            Err(e) => Err(EntityParseError::Int(e)),
        }
    }
}

impl<'a> EntityProp<'a> for i32 {
    open spec fn parses(raw: Seq<char>) -> bool {
        i32_from_str(raw) is Some
    }

    open spec fn parses_to(raw: Seq<char>, v: i32) -> bool {
        i32_from_str(raw) == Some(v)
    }

    fn parse(raw: &'a str) -> (r: Result<i32, EntityParseError>)
        ensures
            r matches Err(e) ==> e is Int,
    {
        match parse_i32(raw) {
            Ok(v) => Ok(v),
            Err(e) => Err(EntityParseError::Int(e)),
        }
    }
}

impl<'a> EntityProp<'a> for &'a str {
    open spec fn parses(raw: Seq<char>) -> bool {
        true
    }

    open spec fn parses_to(raw: Seq<char>, v: &'a str) -> bool {
        v@ == raw
    }

    fn parse(raw: &'a str) -> (r: Result<&'a str, EntityParseError>) {
        Ok(raw)
    }
}

/// A flag property is set unless its text is `0` or `no`.
pub open spec fn spec_flag(raw: Seq<char>) -> bool {
    raw != seq!['0'] && raw != seq!['n', 'o']
}

impl<'a> EntityProp<'a> for bool {
    open spec fn parses(raw: Seq<char>) -> bool {
        true
    }

    open spec fn parses_to(raw: Seq<char>, v: bool) -> bool {
        v == spec_flag(raw)
    }

    fn parse(raw: &'a str) -> (r: Result<bool, EntityParseError>) {
        let n = raw.unicode_len();
        let zero = n == 1 && raw.get_char(0) == '0';
        let no = n == 2 && raw.get_char(0) == 'n' && raw.get_char(1) == 'o';
        proof {
            if zero {
                assert(raw@ =~= seq!['0']);
            }
            if no {
                assert(raw@ =~= seq!['n', 'o']);
            }
            if raw@ == seq!['0'] {
                assert(raw@[0] == '0');
            }
            if raw@ == seq!['n', 'o'] {
                assert(raw@[0] == 'n' && raw@[1] == 'o');
            }
        }
        Ok(!zero && !no)
    }
}

impl<'a, T: EntityProp<'a>> EntityProp<'a> for Option<T> {
    open spec fn parses(raw: Seq<char>) -> bool {
        T::parses(raw)
    }

    open spec fn parses_to(raw: Seq<char>, v: Option<T>) -> bool {
        v matches Some(x) && T::parses_to(raw, x)
    }

    fn parse(raw: &'a str) -> (r: Result<Option<T>, EntityParseError>) {
        match T::parse(raw) {
            Ok(v) => Ok(Some(v)),
            Err(e) => Err(e),
        }
    }
}

} // verus!
