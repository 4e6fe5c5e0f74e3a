//! Small values whose on-disk form depends on the format, and fixed-size
//! strings.

use vstd::prelude::*;

use crate::file::spec_find_nul;
use crate::file::find_nul;
use crate::qbsp::reader::{can_read, out_of_bounds, BspByteReader};
use crate::qbsp::{BspFormat, BspParseError};
use crate::le::{le_i16, le_i32, le_u16, le_u32};
use crate::text::{check_utf8, str_trim_end_nuls, trim_nul_chars, Utf8Failure};
use vstd::string::StringSliceAdditionalSpecFns;
use vstd::utf8::{decode_utf8, valid_utf8};

verus! {

/// A field that some formats do not have: reads nothing.
#[derive(Debug, Copy, Clone, PartialEq, Eq, PartialOrd, Ord, Hash)]
pub struct NoField;

/// Whether the format stores its "variable" integers in 32 bits (BSP2 and
/// Qbism) rather than 16.
pub open spec fn wide_values(f: BspFormat) -> bool {
    f is BSP2 || f is BSP38Qbism
}

/// An unsigned integer stored as `u32` by BSP2 and Qbism, `u16` otherwise.
#[derive(Debug, Copy, Clone, PartialEq, Eq, PartialOrd, Ord, Hash)]
pub struct UBspValue(pub u32);

/// A signed integer stored as `i32` by BSP2 and Qbism, `i16` otherwise.
#[derive(Debug, Copy, Clone, PartialEq, Eq, PartialOrd, Ord, Hash)]
pub struct IBspValue(pub i32);

impl UBspValue {
    /// Read one value in the reader's format.
    pub fn parse(reader: &mut BspByteReader) -> (r: Result<UBspValue, BspParseError>)
        requires
            old(reader).cursor() + 4 <= usize::MAX,
        ensures
            final(reader).data() == old(reader).data(),
            final(reader).context() == old(reader).context(),
            ({
                let n: int = if wide_values(old(reader).context().format) { 4 } else { 2 };
                let d = old(reader).data();
                let c = old(reader).cursor();
                &&& can_read(*old(reader), n) ==> r == Ok::<UBspValue, BspParseError>(
                    UBspValue(if n == 4 { le_u32(d, c) } else { le_u16(d, c) as u32 }),
                ) && final(reader).cursor() == c + n
                &&& !can_read(*old(reader), n) ==> (r matches Err(e) && out_of_bounds(*old(reader), n, e))
            }),
    {
        match reader.format() {
            BspFormat::BSP2 | BspFormat::BSP38Qbism => {
                let v = reader.read_u32()?;
                Ok(UBspValue(v))
            },
            _ => {
                let v = reader.read_u16()?;
                Ok(UBspValue(v as u32))
            },
        }
    }
}

impl IBspValue {
    /// Read one value in the reader's format.
    pub fn parse(reader: &mut BspByteReader) -> (r: Result<IBspValue, BspParseError>)
        requires
            old(reader).cursor() + 4 <= usize::MAX,
        ensures
            final(reader).data() == old(reader).data(),
            final(reader).context() == old(reader).context(),
            ({
                let n: int = if wide_values(old(reader).context().format) { 4 } else { 2 };
                let d = old(reader).data();
                let c = old(reader).cursor();
                &&& can_read(*old(reader), n) ==> r == Ok::<IBspValue, BspParseError>(
                    IBspValue(if n == 4 { le_i32(d, c) } else { le_i16(d, c) as i32 }),
                ) && final(reader).cursor() == c + n
                &&& !can_read(*old(reader), n) ==> (r matches Err(e) && out_of_bounds(*old(reader), n, e))
            }),
    {
        match reader.format() {
            BspFormat::BSP2 | BspFormat::BSP38Qbism => {
                let v = reader.read_i32()?;
                Ok(IBspValue(v))
            },
            _ => {
                let v = reader.read_i16()?;
                Ok(IBspValue(v as i32))
            },
        }
    }
}

/// A count, then that many elements.
#[derive(Debug, Clone, Default)]
pub struct BspVariableArray<T> {
    pub inner: Vec<T>,
}

/// The bytes of a fixed-size string once everything from its first zero byte
/// on is cleared.
pub open spec fn clear_after_nul(s: Seq<u8>) -> Seq<u8> {
    let end = spec_find_nul(s, 0);
    Seq::new(s.len(), |k: int| if k < end { s[k] } else { 0u8 })
}

/// A fixed-size, zero-padded UTF-8 string of `N` bytes.
#[derive(Clone, PartialEq, Eq, Hash, Debug)]
pub struct FixedStr<const N: usize> {
    data: Vec<u8>,
}

impl<const N: usize> FixedStr<N> {
    /// The string's `N` bytes.
    pub closed spec fn bytes(&self) -> Seq<u8> {
        self.data@
    }

    /// The string holds exactly `N` bytes.
    pub open spec fn wf(&self) -> bool {
        self.bytes().len() == N
    }

    /// The string length: the index of the first zero byte, or `N`.
    pub open spec fn spec_len(&self) -> int {
        spec_find_nul(self.bytes(), 0)
    }

    /// The empty string: `N` zero bytes.
    pub fn empty() -> (r: Self)
        ensures
            r.wf(),
            r.bytes() == Seq::new(N as nat, |k: int| 0u8),
    {
        let mut data: Vec<u8> = Vec::new();
        let mut i: usize = 0;
        while i < N
            invariant
                i <= N,
                data@ == Seq::new(i as nat, |k: int| 0u8),
            decreases N - i,
        {
            data.push(0);
            i = i + 1;
            assert(data@ =~= Seq::new(i as nat, |k: int| 0u8));
        }
        FixedStr { data }
    }

    /// A string from `N` bytes. Anything after the first zero byte is
    /// cleared; the rest must be UTF-8.
    pub fn new(data: [u8; N]) -> (r: Result<Self, Utf8Failure>)
        ensures
            (r is Ok) == valid_utf8(clear_after_nul(data@)),
            r matches Ok(s) ==> s.wf() && s.bytes() == clear_after_nul(data@),
            r matches Err(f) ==> f.valid_up_to < N && valid_utf8(clear_after_nul(data@).subrange(0, f.valid_up_to as int)),
            r matches Err(f) ==> (f.error_len matches Some(l) ==> 1 <= l <= 3 && f.valid_up_to + l <= N),
    {
        let mut v: Vec<u8> = Vec::new();
        let mut i: usize = 0;
        while i < N
            invariant
                i <= N,
                data@.len() == N,
                v@ == data@.subrange(0, i as int),
            decreases N - i,
        {
            v.push(data[i]);
            i = i + 1;
            assert(v@ =~= data@.subrange(0, i as int));
        }
        assert(v@ =~= data@);
        Self::from_vec(v)
    }

    /// A string from a slice of exactly `N` bytes, like [`FixedStr::new`].
    pub fn from_slice(data: &[u8]) -> (r: Result<Self, Utf8Failure>)
        requires
            data@.len() == N,
        ensures
            (r is Ok) == valid_utf8(clear_after_nul(data@)),
            r matches Ok(s) ==> s.wf() && s.bytes() == clear_after_nul(data@),
            r matches Err(f) ==> f.valid_up_to < N && valid_utf8(clear_after_nul(data@).subrange(0, f.valid_up_to as int)),
            r matches Err(f) ==> (f.error_len matches Some(l) ==> 1 <= l <= 3 && f.valid_up_to + l <= N),
    {
        let v = crate::le::copy_range(data, 0, data.len());
        assert(v@ =~= data@);
        Self::from_vec(v)
    }

    fn from_vec(v: Vec<u8>) -> (r: Result<Self, Utf8Failure>)
        requires
            v@.len() == N,
        ensures
            (r is Ok) == valid_utf8(clear_after_nul(v@)),
            r matches Ok(s) ==> s.wf() && s.bytes() == clear_after_nul(v@),
            r matches Err(f) ==> f.valid_up_to < N && valid_utf8(clear_after_nul(v@).subrange(0, f.valid_up_to as int)),
            r matches Err(f) ==> (f.error_len matches Some(l) ==> 1 <= l <= 3 && f.valid_up_to + l <= N),
    {
        let ghost data = v@;
        let mut v = v;
        let end = find_nul(v.as_slice(), 0);
        let mut j: usize = end;
        while j < N
            invariant
                end <= j <= N,
                v@.len() == N,
                data.len() == N,
                end == spec_find_nul(data, 0),
                forall|k: int| 0 <= k < N ==> #[trigger] v@[k] == if k < end || k >= j { data[k] } else { 0u8 },
            decreases N - j,
        {
            v.set(j, 0);
            j = j + 1;
        }
        assert(v@ =~= clear_after_nul(data));
        match check_utf8(v.as_slice()) {
            Ok(_) => Ok(FixedStr { data: v }),
            Err(f) => Err(f),
        }
    }

    /// Read `N` bytes as a string; invalid UTF-8 is an `InvalidString`
    /// error naming the bad sequence.
    pub fn parse(reader: &mut BspByteReader) -> (r: Result<Self, BspParseError>)
        requires
            old(reader).cursor() + N <= usize::MAX,
        ensures
            final(reader).data() == old(reader).data(),
            final(reader).context() == old(reader).context(),
            !can_read(*old(reader), N as int) ==> (r matches Err(e) && out_of_bounds(*old(reader), N as int, e)),
            r is Ok ==> final(reader).cursor() == old(reader).cursor() + N,
            can_read(*old(reader), N as int) ==> {
                let raw = old(reader).data().subrange(old(reader).cursor(), old(reader).cursor() + N);
                &&& (r is Ok) == valid_utf8(clear_after_nul(raw))
                &&& r matches Ok(s) ==> s.wf() && s.bytes() == clear_after_nul(raw)
                &&& r matches Err(e) ==> e is InvalidString
            },
    {
        proof {
            reader.lemma_cursor_nonneg();
        }
        let raw = reader.read_bytes(N)?;
        match Self::from_slice(raw) {
            Ok(s) => Ok(s),
            Err(f) => {
                proof {
                    assert(f.valid_up_to < N);
                }
                Err(BspParseError::map_utf8_error(raw, f))
            },
        }
    }

    /// The string length: bytes before the first zero byte.
    pub fn len(&self) -> (r: usize)
        requires
            self.wf(),
        ensures
            r == self.spec_len(),
    {
        find_nul(self.data.as_slice(), 0)
    }

    /// Whether every byte is zero.
    pub fn is_empty(&self) -> (r: bool)
        requires
            self.wf(),
        ensures
            r == (forall|k: int| 0 <= k < N ==> #[trigger] self.bytes()[k] == 0),
    {
        let mut i: usize = 0;
        while i < self.data.len()
            invariant
                i <= self.data@.len() == N,
                forall|k: int| 0 <= k < i ==> #[trigger] self.data@[k] == 0,
            decreases self.data@.len() - i,
        {
            if self.data[i] != 0 {
                assert(self.bytes()[i as int] != 0);
                return false;
            }
            i = i + 1;
        }
        true
    }

    /// The string as text, without its zero padding. The bytes must be
    /// UTF-8.
    pub fn as_str(&self) -> (r: &str)
        requires
            valid_utf8(self.bytes()),
        ensures
            r@ == trim_nul_chars(decode_utf8(self.bytes())),
    {
        match check_utf8(self.data.as_slice()) {
            Ok(s) => str_trim_end_nuls(s),
            Err(_) => {
                assert(false);
                ""
            },
        }
    }

    pub fn as_bytes(&self) -> (r: &[u8])
        ensures
            r@ == self.bytes(),
    {
        self.data.as_slice()
    }

    /// A copy of the string.
    pub fn copy(&self) -> (r: Self)
        ensures
            r.bytes() == self.bytes(),
    {
        FixedStr { data: crate::le::copy_range(self.data.as_slice(), 0, self.data.len()) }
    }

    /// The string's bytes.
    pub fn to_bytes(self) -> (r: Vec<u8>)
        ensures
            r@ == self.bytes(),
    {
        self.data
    }

    /// The same string in a larger buffer, zero-padded.
    pub fn extend<const NEW_N: usize>(&self) -> (r: FixedStr<NEW_N>)
        requires
            self.wf(),
            NEW_N >= N,
        ensures
            r.wf(),
            r.bytes() == self.bytes() + Seq::new((NEW_N - N) as nat, |k: int| 0u8),
    {
        let mut data: Vec<u8> = Vec::new();
        let mut i: usize = 0;
        while i < NEW_N
            invariant
                i <= NEW_N,
                NEW_N >= N,
                self.data@.len() == N,
                data@ == (self.data@ + Seq::new((NEW_N - N) as nat, |k: int| 0u8)).subrange(0, i as int),
            decreases NEW_N - i,
        {
            if i < N {
                data.push(self.data[i]);
            } else {
                data.push(0);
            }
            i = i + 1;
            assert(data@ =~= (self.data@ + Seq::new((NEW_N - N) as nat, |k: int| 0u8)).subrange(0, i as int));
        }
        assert(data@ =~= self.data@ + Seq::new((NEW_N - N) as nat, |k: int| 0u8));
        FixedStr { data }
    }

    /// The first `NEW_N` bytes, when the string fits in them.
    pub fn truncate<const NEW_N: usize>(&self) -> (r: Option<FixedStr<NEW_N>>)
        requires
            self.wf(),
            NEW_N <= N,
        ensures
            (r is Some) == (self.spec_len() <= NEW_N),
            r matches Some(t) ==> t.wf() && t.bytes() == self.bytes().subrange(0, NEW_N as int),
    {
        if self.len() > NEW_N {
            return None;
        }
        let data = crate::le::copy_range(self.data.as_slice(), 0, NEW_N);
        Some(FixedStr { data })
    }

    /// The string whose bytes are `s`'s, zero-padded to `N`, if `s` fits.
    pub fn from_str(s: &str) -> (r: Result<Self, ()>)
        ensures
            (r is Ok) == (s.spec_bytes().len() <= N),
            r matches Ok(f) ==> f.wf() && f.bytes() == s.spec_bytes() + Seq::new(
                (N - s.spec_bytes().len()) as nat,
                |k: int| 0u8,
            ),
    {
        let b = s.as_bytes();
        if b.len() > N {
            return Err(());
        }
        let mut data: Vec<u8> = Vec::new();
        let mut i: usize = 0;
        let ghost want = b@ + Seq::new((N - b@.len()) as nat, |k: int| 0u8);
        while i < N
            invariant
                i <= N,
                b@.len() <= N,
                want == b@ + Seq::new((N - b@.len()) as nat, |k: int| 0u8),
                data@ == want.subrange(0, i as int),
            decreases N - i,
        {
            if i < b.len() {
                data.push(b[i]);
            } else {
                data.push(0);
            }
            i = i + 1;
            assert(data@ =~= want.subrange(0, i as int));
        }
        assert(data@ =~= want);
        Ok(FixedStr { data })
    }
}


proof fn lemma_padded_nul_within(bytes: Seq<u8>, pad: nat, from: int)
    requires
        0 <= from <= bytes.len(),
    ensures
        spec_find_nul(bytes + Seq::new(pad, |k: int| 0u8), from) <= bytes.len(),
    decreases bytes.len() - from,
{
    let t = bytes + Seq::new(pad, |k: int| 0u8);
    if from < bytes.len() {
        assert(t[from] == bytes[from]);
        if t[from] != 0 {
            lemma_padded_nul_within(bytes, pad, from + 1);
        }
    } else if pad > 0 {
        assert(t[from] == 0u8);
    }
}

/// Widening a string and cutting it back to its old size gives it back:
/// the padding is all zero, so the string still ends within the old size,
/// and its first bytes are the string's own.
pub proof fn lemma_extend_then_truncate(bytes: Seq<u8>, pad: nat)
    ensures
        spec_find_nul(bytes + Seq::new(pad, |k: int| 0u8), 0) <= bytes.len(),
        (bytes + Seq::new(pad, |k: int| 0u8)).subrange(0, bytes.len() as int) == bytes,
{
    lemma_padded_nul_within(bytes, pad, 0);
    assert((bytes + Seq::new(pad, |k: int| 0u8)).subrange(0, bytes.len() as int) =~= bytes);
}

proof fn lemma_find_nul_props(s: Seq<u8>, from: int)
    requires
        0 <= from <= s.len(),
    ensures
        from <= spec_find_nul(s, from) <= s.len(),
        spec_find_nul(s, from) < s.len() ==> s[spec_find_nul(s, from)] == 0,
        forall|k: int| from <= k < spec_find_nul(s, from) ==> s[k] != 0,
    decreases s.len() - from,
{
    if from < s.len() && s[from] != 0 {
        lemma_find_nul_props(s, from + 1);
    }
}

proof fn lemma_find_nul_unique(s: Seq<u8>, from: int, e: int)
    requires
        0 <= from <= e <= s.len(),
        forall|k: int| from <= k < e ==> s[k] != 0,
        e < s.len() ==> s[e] == 0,
    ensures
        spec_find_nul(s, from) == e,
    decreases e - from,
{
    if from < e {
        lemma_find_nul_unique(s, from + 1, e);
    }
}

/// Clearing past the first zero byte ends the string where it ended: its
/// length is that of the bytes it came from.
pub proof fn lemma_cleared_len(data: Seq<u8>)
    ensures
        spec_find_nul(clear_after_nul(data), 0) == spec_find_nul(data, 0),
{
    let c = clear_after_nul(data);
    let end = spec_find_nul(data, 0);
    lemma_find_nul_props(data, 0);
    assert forall|k: int| 0 <= k < end implies c[k] != 0 by {
        assert(c[k] == data[k]);
    }
    lemma_find_nul_unique(c, 0, end);
}

/// Clearing past the first zero byte is idempotent, so that
/// [`FixedStr::new`] given a string's own bytes gives the string back.
pub proof fn lemma_clear_after_nul_idempotent(data: Seq<u8>)
    ensures
        clear_after_nul(clear_after_nul(data)) == clear_after_nul(data),
{
    lemma_cleared_len(data);
    assert(clear_after_nul(clear_after_nul(data)) =~= clear_after_nul(data));
}

/// For a string made by [`FixedStr::new`] or [`FixedStr::parse`], whose bytes
/// are cleared past the first zero, [`FixedStr::is_empty`] agrees with a
/// zero [`FixedStr::len`].
pub proof fn lemma_is_empty_iff_len_zero<const N: usize>(s: FixedStr<N>, data: Seq<u8>)
    requires
        s.wf(),
        s.bytes() == clear_after_nul(data),
    ensures
        (forall|k: int| 0 <= k < N ==> #[trigger] s.bytes()[k] == 0) <==> s.spec_len() == 0,
{
    let c = s.bytes();
    lemma_cleared_len(data);
    lemma_find_nul_props(data, 0);
    if s.spec_len() == 0 {
        assert forall|k: int| 0 <= k < N implies #[trigger] c[k] == 0 by {}
    }
    if forall|k: int| 0 <= k < N ==> #[trigger] c[k] == 0 {
        if N > 0 {
            assert(c[0] == 0);
        }
    }
}

/// A string widened from `N` to `M` bytes and cut back to `N` is the
/// string again: [`FixedStr::truncate`] succeeds on the widened string and
/// gives the original bytes.
pub proof fn lemma_widened_truncates_back<const N: usize, const M: usize>(s: FixedStr<N>, t: FixedStr<M>)
    requires
        s.wf(),
        M >= N,
        t.bytes() == s.bytes() + Seq::new((M - N) as nat, |k: int| 0u8),
    ensures
        t.spec_len() <= N,
        t.bytes().subrange(0, N as int) == s.bytes(),
{
    lemma_extend_then_truncate(s.bytes(), (M - N) as nat);
}

} // verus!
