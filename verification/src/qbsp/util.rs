//! Utilities shared by the Quake-family readers: the run-length encoded
//! visibility decoder, rectangles, and Quake string conversion.

use vstd::prelude::*;

use crate::le::copy_range;
use crate::text::{check_utf8, string_push, string_push_str};
use vstd::utf8::{decode_utf8, is_leading_byte_width_1, partial_valid_utf8, partial_valid_utf8_extend_ascii_block, valid_utf8};

verus! {

/// Whether bit `shift` (counting from the least significant) of `byte` is set.
pub open spec fn bit_is_set(byte: u8, shift: nat) -> bool {
    shift < 8 && (byte & (1u8 << shift)) != 0
}

/// Iterate over the bits of a byte, from least- to most-significant.
pub struct BitsIter {
    pub byte: u8,
    pub shift: u8,
}

impl BitsIter {
    /// A fresh iterator over the bits of `byte`.
    pub fn new(byte: u8) -> (r: Self)
        ensures
            r.byte == byte,
            r.shift == 0,
    {
        BitsIter { byte, shift: 0 }
    }

    /// The next bit, or `None` once all eight have been produced.
    pub fn next(&mut self) -> (r: Option<bool>)
        ensures
            old(self).shift >= 8 ==> r is None && *final(self) == *old(self),
            old(self).shift < 8 ==> r == Some(bit_is_set(old(self).byte, old(self).shift as nat))
                && final(self).byte == old(self).byte && final(self).shift == old(self).shift + 1,
    {
        if self.shift >= 8 {
            None
        } else {
            let out = (self.byte & (1u8 << self.shift)) != 0;
            self.shift = self.shift + 1;
            Some(out)
        }
    }
}

/// The leaf indices that Quake's run-length encoded visibility data lists,
/// starting from the decoder state `(pos, byte, shift, leaf)`.
///
/// `shift < 8` means bits `shift..8` of `byte` are still pending; `shift == 8`
/// means the next step reads a byte at `pos`. A zero byte is followed by a
/// count of whole bytes (8 leaves each) to skip. Each pending bit accounts for
/// the next leaf below `end`; a set bit lists that leaf. A set bit met once
/// the leaves below `end` are used up ends the listing, as does running out of
/// data.
pub open spec fn vis_run(data: Seq<u8>, pos: int, byte: u8, shift: nat, leaf: int, end: int) -> Seq<int>
    decreases data.len() - pos, 8 - shift,
{
    if shift < 8 {
        if leaf < end {
            if bit_is_set(byte, shift) {
                seq![leaf] + vis_run(data, pos, byte, shift + 1, leaf + 1, end)
            } else {
                vis_run(data, pos, byte, shift + 1, leaf + 1, end)
            }
        } else if bit_is_set(byte, shift) {
            seq![]
        } else {
            vis_run(data, pos, byte, shift + 1, leaf, end)
        }
    } else if pos < 0 || pos >= data.len() {
        seq![]
    } else if data[pos] == 0 {
        if pos + 1 >= data.len() {
            seq![]
        } else {
            vis_run(data, pos + 2, 0, 8, leaf + 8 * data[pos + 1], end)
        }
    } else {
        vis_run(data, pos + 1, data[pos], 0, leaf, end)
    }
}

/// The potentially visible leaves listed by `data` for a map of `num_leaves`
/// leaves. Leaf 0 is never stored, so counting starts at 1.
pub open spec fn spec_visdata_indices(data: Seq<u8>, num_leaves: int) -> Seq<int> {
    vis_run(data, 0, 0, 8, 1, num_leaves)
}

/// Every leaf that the decoder lists lies in `leaf..end` and comes after all
/// those listed before it.
pub proof fn lemma_vis_run_increasing(data: Seq<u8>, pos: int, byte: u8, shift: nat, leaf: int, end: int)
    ensures
        forall|i: int| 0 <= i < vis_run(data, pos, byte, shift, leaf, end).len() ==>
            leaf <= #[trigger] vis_run(data, pos, byte, shift, leaf, end)[i] < end,
        forall|i: int, j: int| 0 <= i < j < vis_run(data, pos, byte, shift, leaf, end).len() ==>
            vis_run(data, pos, byte, shift, leaf, end)[i] < vis_run(data, pos, byte, shift, leaf, end)[j],
    decreases data.len() - pos, 8 - shift,
{
    let all = vis_run(data, pos, byte, shift, leaf, end);
    if shift < 8 {
        if leaf < end {
            lemma_vis_run_increasing(data, pos, byte, shift + 1, leaf + 1, end);
            let rest = vis_run(data, pos, byte, shift + 1, leaf + 1, end);
            if bit_is_set(byte, shift) {
                assert(all == seq![leaf] + rest);
                assert forall|i: int| 0 <= i < all.len() implies leaf <= #[trigger] all[i] < end by {
                    if i > 0 {
                        assert(all[i] == rest[i - 1]);
                    }
                }
                assert forall|i: int, j: int| 0 <= i < j < all.len() implies all[i] < all[j] by {
                    assert(all[j] == rest[j - 1]);
                    if i > 0 {
                        assert(all[i] == rest[i - 1]);
                    }
                }
            } else {
                assert(all == rest);
            }
        } else if !bit_is_set(byte, shift) {
            lemma_vis_run_increasing(data, pos, byte, shift + 1, leaf, end);
            assert(all == vis_run(data, pos, byte, shift + 1, leaf, end));
        } else {
            assert(all.len() == 0);
        }
    } else if pos < 0 || pos >= data.len() {
        assert(all.len() == 0);
    } else if data[pos] == 0 {
        if pos + 1 < data.len() {
            lemma_vis_run_increasing(data, pos + 2, 0, 8, leaf + 8 * data[pos + 1], end);
            assert(all == vis_run(data, pos + 2, 0, 8, leaf + 8 * data[pos + 1], end));
        } else {
            assert(all.len() == 0);
        }
    } else {
        lemma_vis_run_increasing(data, pos + 1, data[pos], 0, leaf, end);
        assert(all == vis_run(data, pos + 1, data[pos], 0, leaf, end));
    }
}

/// A lazy walk over Quake's run-length encoded visibility data; see
/// [`calculate_visdata_indices`].
pub struct VisdataIter {
    data: Vec<u8>,
    pos: usize,
    /// The next leaf to account for, and the end of the leaf range.
    leaf: usize,
    end: usize,
    /// If `Some`, we are currently iterating over the bits in a byte.
    cur_byte: Option<BitsIter>,
}

impl VisdataIter {
    pub closed spec fn wf(&self) -> bool {
        &&& self.pos <= self.data@.len()
        &&& self.data@.len() * 2048 + self.end + 8 < usize::MAX
        &&& self.leaf <= self.pos * 1024 + self.end + 8
        &&& self.cur_byte matches Some(b) ==> b.shift <= 8
    }

    /// The leaves this iterator has yet to produce.
    pub closed spec fn remaining(&self) -> Seq<int> {
        match self.cur_byte {
            Some(b) => vis_run(self.data@, self.pos as int, b.byte, b.shift as nat, self.leaf as int, self.end as int),
            None => vis_run(self.data@, self.pos as int, 0, 8, self.leaf as int, self.end as int),
        }
    }

    /// The next potentially visible leaf, or `None` when the listing is over.
    pub fn next(&mut self) -> (r: Option<usize>)
        requires
            old(self).wf(),
        ensures
            final(self).wf(),
            old(self).remaining().len() == 0 ==> r is None,
            old(self).remaining().len() > 0 ==> r is Some && final(self).remaining() == old(self).remaining().drop_first(),
            r matches Some(v) ==> v as int == old(self).remaining()[0],
    {
        loop
            invariant
                self.wf(),
                self.remaining() == old(self).remaining(),
            decreases self.data@.len() - self.pos, (match self.cur_byte {
                Some(b) => 8 - b.shift,
                None => 9int,
            }),
        {
            let ghost before = self.remaining();
            let cur = match &mut self.cur_byte {
                Some(bits) => bits.next(),
                None => None,
            };
            match cur {
                Some(is_visible) => {
                    if self.leaf < self.end {
                        let value = self.leaf;
                        self.leaf = self.leaf + 1;
                        if is_visible {
                            assert(before == seq![value as int] + self.remaining());
                            assert(before[0] == value as int);
                            assert(self.remaining() == before.drop_first());
                            return Some(value);
                        }
                    } else if is_visible {
                        return None;
                    }
                },
                None => {
                    if let Some(b) = &self.cur_byte {
                        assert(b.shift == 8);
                    }
                    if self.pos >= self.data.len() {
                        return None;
                    }
                    let next_byte = self.data[self.pos];
                    self.pos = self.pos + 1;
                    if next_byte == 0 {
                        if self.pos >= self.data.len() {
                            return None;
                        }
                        let advance_by = self.data[self.pos];
                        self.pos = self.pos + 1;
                        self.leaf = self.leaf + 8 * (advance_by as usize);
                        self.cur_byte = None;
                    } else {
                        self.cur_byte = Some(BitsIter::new(next_byte));
                    }
                },
            }
        }
    }

    /// Every leaf still to come, in order.
    pub fn collect_all(self) -> (r: Vec<usize>)
        requires
            self.wf(),
        ensures
            r@.len() == self.remaining().len(),
            forall|i: int| 0 <= i < r@.len() ==> r@[i] as int == #[trigger] self.remaining()[i],
    {
        let ghost all = self.remaining();
        let mut it = self;
        let mut out: Vec<usize> = Vec::new();
        loop
            invariant
                it.wf(),
                all == self.remaining(),
                out@.len() + it.remaining().len() == all.len(),
                forall|i: int| 0 <= i < out@.len() ==> out@[i] as int == #[trigger] all[i],
                forall|i: int| 0 <= i < it.remaining().len() ==>
                    #[trigger] it.remaining()[i] == all[out@.len() + i],
            decreases it.remaining().len(),
        {
            let ghost before = it.remaining();
            match it.next() {
                Some(v) => {
                    out.push(v);
                    assert(before.len() > 0);
                    assert(out@[out@.len() - 1] as int == all[out@.len() - 1]);
                },
                None => {
                    assert(before.len() == 0);
                    assert(out@.len() == all.len());
                    return out;
                },
            }
        }
    }
}

/// Iterate over the potentially visible leaf indices (starting at 1) that the
/// run-length encoded `vis_data` lists, for a map of `num_leaves` leaves.
pub fn calculate_visdata_indices(vis_data: &[u8], num_leaves: usize) -> (r: VisdataIter)
    requires
        vis_data@.len() * 2048 + num_leaves + 8 < usize::MAX,
    ensures
        r.wf(),
        r.remaining() == spec_visdata_indices(vis_data@, num_leaves as int),
{
    let data = copy_range(vis_data, 0, vis_data.len());
    assert(data@ =~= vis_data@);
    VisdataIter { data, pos: 0, leaf: 1, end: num_leaves, cur_byte: None }
}

/// A rectangle from `min` to `max`.
#[derive(Debug, Clone, Copy, PartialEq, Eq, Default)]
pub struct Rect<T> {
    pub min: T,
    pub max: T,
}

impl<T> Rect<T> {
    pub fn new(min: T, max: T) -> (r: Self)
        ensures
            r.min == min,
            r.max == max,
    {
        Rect { min, max }
    }
}

impl Rect<u32> {
    /// `max - min`.
    pub fn size(self) -> (r: u32)
        requires
            self.min <= self.max,
        ensures
            r == self.max - self.min,
    {
        self.max - self.min
    }
}

/// The text of a Quake string from byte `i` on, where `was_alt` tells
/// whether the byte before was in the alternate character set (high bit
/// set). Alternate runs are wrapped in `pre` and `suf`, their bytes taken
/// without the high bit; a zero byte ends the string.
pub open spec fn quake_text(s: Seq<u8>, i: int, was_alt: bool, pre: Seq<char>, suf: Seq<char>) -> Seq<char>
    decreases s.len() - i,
{
    if i >= s.len() || i < 0 {
        if was_alt {
            suf
        } else {
            Seq::empty()
        }
    } else {
        let b = s[i];
        let alt = b > 127;
        let lead = if alt && !was_alt {
            pre
        } else if !alt && was_alt {
            suf
        } else {
            Seq::empty()
        };
        let c = if alt {
            (b - 128) as u8
        } else {
            b
        };
        if c == 0 {
            lead
        } else {
            lead + seq![c as char] + quake_text(s, i + 1, alt, pre, suf)
        }
    }
}

/// A Quake string as UTF-8: its alternate-character-set runs wrapped in
/// `alt_prefix` and `alt_suffix`, up to the first zero byte.
pub fn quake_string_to_utf8(quake_str: &[u8], alt_prefix: &str, alt_suffix: &str) -> (r: String)
    ensures
        r@ == quake_text(quake_str@, 0, false, alt_prefix@, alt_suffix@),
{
    let mut s = String::new();
    let mut was_alt = false;
    let mut i: usize = 0;
    let ghost pre = alt_prefix@;
    let ghost suf = alt_suffix@;
    while i < quake_str.len()
        invariant
            i <= quake_str@.len(),
            pre == alt_prefix@,
            suf == alt_suffix@,
            s@ + quake_text(quake_str@, i as int, was_alt, pre, suf) == quake_text(quake_str@, 0, false, pre, suf),
        decreases quake_str@.len() - i,
    {
        let ghost before = s@;
        let ghost rest = quake_text(quake_str@, i as int, was_alt, pre, suf);
        let mut byte = quake_str[i];
        let is_alt = byte > 127;
        if is_alt && !was_alt {
            string_push_str(&mut s, alt_prefix);
        } else if !is_alt && was_alt {
            string_push_str(&mut s, alt_suffix);
        }
        if is_alt {
            byte = byte - 128;
        }
        if byte == 0 {
            assert(s@ =~= before + rest);
            return s;
        }
        string_push(&mut s, byte as char);
        was_alt = is_alt;
        i = i + 1;
        proof {
            assert(before + rest == s@ + quake_text(quake_str@, i as int, was_alt, pre, suf)) by {
                assert(rest == (s@.subrange(before.len() as int, s@.len() as int)) + quake_text(
                    quake_str@,
                    i as int,
                    was_alt,
                    pre,
                    suf,
                ));
                assert(s@ =~= before + s@.subrange(before.len() as int, s@.len() as int));
            }
        }
    }
    if was_alt {
        string_push_str(&mut s, alt_suffix);
    }
    proof {
        assert(s@ =~= s@ + Seq::<char>::empty());
    }
    s
}


/// A Quake string's bytes with the alternate character set folded onto the
/// plain one (the high bit cleared).
pub open spec fn quake_folded(s: Seq<u8>) -> Seq<u8> {
    Seq::new(s.len(), |i: int| if s[i] > 127 { (s[i] - 128) as u8 } else { s[i] })
}

/// What [`quake_string_to_utf8_lossy`] leaves of a Quake string: its folded
/// bytes, without a trailing zero byte.
pub open spec fn quake_plain(s: Seq<u8>) -> Seq<u8> {
    let f = quake_folded(s);
    if f.len() > 0 && f.last() == 0 {
        f.drop_last()
    } else {
        f
    }
}

proof fn lemma_ascii_is_utf8(b: Seq<u8>)
    requires
        forall|i: int| 0 <= i < b.len() ==> b[i] < 128,
    ensures
        valid_utf8(b),
{
    assert(b.subrange(0, 0) =~= Seq::<u8>::empty());
    assert(partial_valid_utf8(b, 0));
    assert forall|i: int| 0 <= 0 <= i < b.len() <= b.len() implies #[trigger] is_leading_byte_width_1(b[i]) by {
        assert(b[i] < 128);
    }
    partial_valid_utf8_extend_ascii_block(b, 0, b.len() as int);
    assert(b.subrange(0, b.len() as int) =~= b);
}

/// Convert a Quake string to UTF-8 in place, dropping the alternate
/// character set: every byte loses its high bit, and a trailing zero byte is
/// removed. Every byte is then ASCII.
pub fn quake_string_to_utf8_lossy(quake_str: &mut Vec<u8>) -> (r: &str)
    ensures
        final(quake_str)@ == quake_plain(old(quake_str)@),
        valid_utf8(quake_plain(old(quake_str)@)),
        r@ == decode_utf8(quake_plain(old(quake_str)@)),
{
    let ghost orig = quake_str@;
    let mut i: usize = 0;
    while i < quake_str.len()
        invariant
            quake_str@.len() == orig.len(),
            i <= orig.len(),
            forall|k: int| 0 <= k < orig.len() ==> #[trigger] quake_str@[k] == if k < i {
                quake_folded(orig)[k]
            } else {
                orig[k]
            },
        decreases orig.len() - i,
    {
        let b = quake_str[i];
        if b > 127 {
            quake_str.set(i, b - 128);
        }
        i = i + 1;
    }
    assert(quake_str@ =~= quake_folded(orig));
    let n = quake_str.len();
    if n > 0 && quake_str[n - 1] == 0 {
        quake_str.pop();
    }
    assert(quake_str@ =~= quake_plain(orig));
    proof {
        lemma_ascii_is_utf8(quake_str@);
    }
    let plain: &Vec<u8> = quake_str;
    match check_utf8(plain.as_slice()) {
        Ok(s) => s,
        Err(_) => {
            assert(false);
            ""
        },
    }
}

} // verus!
