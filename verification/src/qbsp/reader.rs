//! A cursor over a BSP file's bytes, reading little-endian values.

use vstd::prelude::*;

use crate::le::{le_i16, le_i32, le_u16, le_u32, lemma_le_uint_window, read_i16, read_i32, read_u16, read_u32};
use crate::qbsp::{BspFormat, BspParseContext, BspParseError};

verus! {

/// A position in a borrowed byte buffer, and the parse context.
#[derive(Clone)]
pub struct BspByteReader<'a> {
    pub ctx: &'a BspParseContext,
    bytes: &'a [u8],
    pos: usize,
}

impl<'a> BspByteReader<'a> {
    /// The whole buffer.
    pub closed spec fn data(&self) -> Seq<u8> {
        self.bytes@
    }

    /// The parse context.
    pub closed spec fn context(&self) -> BspParseContext {
        *self.ctx
    }

    /// The read position.
    pub closed spec fn cursor(&self) -> int {
        self.pos as int
    }

    pub proof fn lemma_cursor_nonneg(&self)
        ensures
            0 <= self.cursor(),
    {
    }

    /// A reader at the start of `bytes`.
    pub fn new(bytes: &'a [u8], ctx: &'a BspParseContext) -> (r: Self)
        ensures
            r.data() == bytes@,
            r.cursor() == 0,
            r.context() == *ctx,
    {
        BspByteReader { ctx, bytes, pos: 0 }
    }

    /// Bytes left to read.
    pub fn len(&self) -> (r: usize)
        requires
            self.cursor() <= self.data().len(),
        ensures
            r == self.data().len() - self.cursor(),
    {
        self.bytes.len() - self.pos
    }

    pub fn is_empty(&self) -> (r: bool)
        requires
            self.cursor() <= self.data().len(),
        ensures
            r == (self.cursor() == self.data().len()),
    {
        self.bytes.len() - self.pos == 0
    }

    /// Consume the rest of the reader, returning all remaining bytes.
    pub fn read_rest(&mut self) -> (r: &'a [u8])
        requires
            old(self).cursor() <= old(self).data().len(),
        ensures
            r@ == old(self).data().subrange(old(self).cursor(), old(self).data().len() as int),
            final(self).data() == old(self).data(),
            final(self).cursor() == old(self).data().len(),
            final(self).context() == old(self).context(),
    {
        let pos = self.pos;
        let bytes: &'a [u8] = self.bytes;
        self.pos = bytes.len();
        &bytes[pos..bytes.len()]
    }

    /// The next `count` bytes, or an error naming the range when fewer are
    /// left.
    pub fn read_bytes(&mut self, count: usize) -> (r: Result<&'a [u8], BspParseError>)
        requires
            old(self).cursor() + count <= usize::MAX,
        ensures
            final(self).data() == old(self).data(),
            final(self).context() == old(self).context(),
            old(self).cursor() + count <= old(self).data().len() ==> (r matches Ok(b) && b@ == old(self).data().subrange(
                old(self).cursor(),
                old(self).cursor() + count,
            ) && final(self).cursor() == old(self).cursor() + count),
            old(self).cursor() + count > old(self).data().len() ==> (r matches Err(
                BspParseError::BufferOutOfBounds { from, to, size },
            ) && from == old(self).cursor() && to == old(self).cursor() + count && size == old(self).data().len()
                && final(self).cursor() == old(self).cursor()),
    {
        let from = self.pos;
        let to = self.pos + count;
        let bytes: &'a [u8] = self.bytes;
        if to > bytes.len() {
            return Err(BspParseError::BufferOutOfBounds { from, to, size: bytes.len() });
        }
        self.pos = to;
        Ok(&bytes[from..to])
    }

    /// The same buffer and context, at `pos`.
    pub fn with_pos(&self, pos: usize) -> (r: Self)
        ensures
            r.data() == self.data(),
            r.cursor() == pos,
            r.context() == self.context(),
    {
        BspByteReader { ctx: self.ctx, bytes: self.bytes, pos }
    }

    /// The same buffer and position, under another context.
    pub fn with_context(&self, ctx: &'a BspParseContext) -> (r: Self)
        ensures
            r.data() == self.data(),
            r.cursor() == self.cursor(),
            r.context() == *ctx,
    {
        BspByteReader { ctx, bytes: self.bytes, pos: self.pos }
    }

    /// Length of the whole buffer.
    pub fn data_len(&self) -> (r: usize)
        ensures
            r == self.data().len(),
    {
        self.bytes.len()
    }

    /// The format being read.
    pub fn format(&self) -> (r: BspFormat)
        ensures
            r == self.context().format,
    {
        self.ctx.format
    }

    pub fn pos(&self) -> (r: usize)
        ensures
            r == self.cursor(),
    {
        self.pos
    }

    /// Whether the position is inside the buffer.
    pub fn in_bounds(&self) -> (r: bool)
        ensures
            r == (self.cursor() < self.data().len()),
    {
        self.pos < self.bytes.len()
    }
}

/// Whether `n` more bytes can be read.
pub open spec fn can_read(r: BspByteReader, n: int) -> bool {
    r.cursor() + n <= r.data().len()
}

/// What reading `n` bytes too many reports.
pub open spec fn out_of_bounds(r: BspByteReader, n: int, e: BspParseError) -> bool {
    e matches BspParseError::BufferOutOfBounds { from, to, size } && from == r.cursor() && to == r.cursor() + n && size
        == r.data().len()
}

impl<'a> BspByteReader<'a> {
    /// Read an `n`-byte value at the cursor with `read`, advancing past it.
    pub fn read_u8(&mut self) -> (r: Result<u8, BspParseError>)
        requires
            old(self).cursor() + 1 <= usize::MAX,
        ensures
            final(self).data() == old(self).data(),
            final(self).context() == old(self).context(),
            can_read(*old(self), 1) ==> r == Ok::<u8, BspParseError>(old(self).data()[old(self).cursor()])
                && final(self).cursor() == old(self).cursor() + 1,
            !can_read(*old(self), 1) ==> (r matches Err(e) && out_of_bounds(*old(self), 1, e)) && final(self).cursor()
                == old(self).cursor(),
    {
        let b = self.read_bytes(1)?;
        Ok(b[0])
    }

    pub fn read_u16(&mut self) -> (r: Result<u16, BspParseError>)
        requires
            old(self).cursor() + 2 <= usize::MAX,
        ensures
            final(self).data() == old(self).data(),
            final(self).context() == old(self).context(),
            can_read(*old(self), 2) ==> r == Ok::<u16, BspParseError>(le_u16(old(self).data(), old(self).cursor()))
                && final(self).cursor() == old(self).cursor() + 2,
            !can_read(*old(self), 2) ==> (r matches Err(e) && out_of_bounds(*old(self), 2, e)) && final(self).cursor()
                == old(self).cursor(),
    {
        let b = self.read_bytes(2)?;
        let v = read_u16(b, 0);
        proof {
            lemma_le_uint_window(old(self).data(), old(self).cursor(), old(self).cursor() + 2, 0, 2);
        }
        Ok(v)
    }

    pub fn read_i16(&mut self) -> (r: Result<i16, BspParseError>)
        requires
            old(self).cursor() + 2 <= usize::MAX,
        ensures
            final(self).data() == old(self).data(),
            final(self).context() == old(self).context(),
            can_read(*old(self), 2) ==> r == Ok::<i16, BspParseError>(le_i16(old(self).data(), old(self).cursor()))
                && final(self).cursor() == old(self).cursor() + 2,
            !can_read(*old(self), 2) ==> (r matches Err(e) && out_of_bounds(*old(self), 2, e)) && final(self).cursor()
                == old(self).cursor(),
    {
        let b = self.read_bytes(2)?;
        let v = read_i16(b, 0);
        proof {
            lemma_le_uint_window(old(self).data(), old(self).cursor(), old(self).cursor() + 2, 0, 2);
        }
        Ok(v)
    }

    pub fn read_u32(&mut self) -> (r: Result<u32, BspParseError>)
        requires
            old(self).cursor() + 4 <= usize::MAX,
        ensures
            final(self).data() == old(self).data(),
            final(self).context() == old(self).context(),
            can_read(*old(self), 4) ==> r == Ok::<u32, BspParseError>(le_u32(old(self).data(), old(self).cursor()))
                && final(self).cursor() == old(self).cursor() + 4,
            !can_read(*old(self), 4) ==> (r matches Err(e) && out_of_bounds(*old(self), 4, e)) && final(self).cursor()
                == old(self).cursor(),
    {
        let b = self.read_bytes(4)?;
        let v = read_u32(b, 0);
        proof {
            lemma_le_uint_window(old(self).data(), old(self).cursor(), old(self).cursor() + 4, 0, 4);
        }
        Ok(v)
    }

    pub fn read_i32(&mut self) -> (r: Result<i32, BspParseError>)
        requires
            old(self).cursor() + 4 <= usize::MAX,
        ensures
            final(self).data() == old(self).data(),
            final(self).context() == old(self).context(),
            can_read(*old(self), 4) ==> r == Ok::<i32, BspParseError>(le_i32(old(self).data(), old(self).cursor()))
                && final(self).cursor() == old(self).cursor() + 4,
            !can_read(*old(self), 4) ==> (r matches Err(e) && out_of_bounds(*old(self), 4, e)) && final(self).cursor()
                == old(self).cursor(),
    {
        let b = self.read_bytes(4)?;
        let v = read_i32(b, 0);
        proof {
            lemma_le_uint_window(old(self).data(), old(self).cursor(), old(self).cursor() + 4, 0, 4);
        }
        Ok(v)
    }

    /// The next four bytes, as a magic number.
    pub fn read_magic(&mut self) -> (r: Result<[u8; 4], BspParseError>)
        requires
            old(self).cursor() + 4 <= usize::MAX,
        ensures
            final(self).data() == old(self).data(),
            final(self).context() == old(self).context(),
            can_read(*old(self), 4) ==> (r matches Ok(m) && m@ == old(self).data().subrange(
                old(self).cursor(),
                old(self).cursor() + 4,
            )) && final(self).cursor() == old(self).cursor() + 4,
            !can_read(*old(self), 4) ==> (r matches Err(e) && out_of_bounds(*old(self), 4, e)) && final(self).cursor()
                == old(self).cursor(),
    {
        let b = self.read_bytes(4)?;
        let m = [b[0], b[1], b[2], b[3]];
        assert(m@ =~= b@);
        Ok(m)
    }
}

} // verus!
