//! The data that stages read besides the lanes: constant colours, coverage
//! masks, the target pixmap and the rectangle to fill.
use vstd::prelude::*;

use crate::pixel::PremultipliedColorU8;

verus! {

/// A constant premultiplied colour, one value per channel.
#[derive(Clone, Copy, Debug)]
pub struct UniformColorCtx {
    pub rgba: [u16; 4],
}

/// A coverage mask of one byte per pixel, `real_width` bytes per row.
#[derive(Clone, Debug)]
pub struct MaskCtx {
    pub data: Vec<u8>,
    pub real_width: usize,
}

impl MaskCtx {
    /// Index of the byte for pixel `(dx, dy)`.
    pub open spec fn offset(&self, dx: int, dy: int) -> int {
        self.real_width * dy + dx
    }

    /// The mask is long enough for the bytes read at `(dx, dy)` with `tail`
    /// lanes in use.
    pub open spec fn covers(&self, dx: int, dy: int, tail: int) -> bool {
        self.offset(dx, dy) + if tail < 2 {
            tail
        } else {
            2
        } <= self.data@.len()
    }

    /// Byte `k` of the pair read at `(dx, dy)`: the mask byte while `k` is
    /// below both `tail` and two, zero after.
    pub open spec fn byte_at(&self, dx: int, dy: int, tail: int, k: int) -> u8 {
        if k < tail && k < 2 {
            self.data@[self.offset(dx, dy) + k]
        } else {
            0
        }
    }

    /// The two mask bytes that a stage at `(dx, dy)` with `tail` lanes in use
    /// consumes.
    pub fn copy_at_xy(&self, dx: usize, dy: usize, tail: usize) -> (c: [u8; 2])
        requires
            self.covers(dx as int, dy as int, tail as int),
        ensures
            c@[0] == self.byte_at(dx as int, dy as int, tail as int, 0),
            c@[1] == self.byte_at(dx as int, dy as int, tail as int, 1),
    {
        let mut c = [0u8; 2];
        if tail >= 1 {
            let len = self.data.len();
            let offset = self.real_width * dy + dx;
            c[0] = self.data[offset];
            if tail >= 2 {
                c[1] = self.data[offset + 1];
            }
        }
        c
    }
}

/// The target pixmap: `stride` pixels per row, rows one after another.
#[derive(Clone, Debug)]
pub struct PixelsCtx {
    pub pixels: Vec<PremultipliedColorU8>,
    pub stride: usize,
}

/// `row` written over `pixels` from index `off` on, `n` pixels of it.
pub open spec fn write_row(
    pixels: Seq<PremultipliedColorU8>,
    off: int,
    n: int,
    row: Seq<PremultipliedColorU8>,
) -> Seq<PremultipliedColorU8> {
    Seq::new(pixels.len(), |j: int| if off <= j < off + n { row[j - off] } else { pixels[j] })
}

impl PixelsCtx {
    /// Index of pixel `(dx, dy)`.
    pub open spec fn offset(&self, dx: int, dy: int) -> int {
        self.stride * dy + dx
    }

    /// The `n` pixels from `(dx, dy)` on.
    pub open spec fn window(&self, dx: int, dy: int, n: int) -> Seq<PremultipliedColorU8> {
        self.pixels@.subrange(self.offset(dx, dy), self.offset(dx, dy) + n)
    }

    /// Index of pixel `(dx, dy)`, where `n` pixels from there on lie in the
    /// pixmap.
    fn index_of(&self, dx: usize, dy: usize, n: usize) -> (r: usize)
        requires
            self.offset(dx as int, dy as int) + n <= self.pixels@.len(),
        ensures
            r == self.offset(dx as int, dy as int),
            r + n <= usize::MAX,
    {
        let len = self.pixels.len();
        self.stride * dy + dx
    }

    /// A copy of the sixteen pixels from `(dx, dy)` on.
    pub fn slice16_at_xy(&self, dx: usize, dy: usize) -> (r: [PremultipliedColorU8; 16])
        requires
            self.offset(dx as int, dy as int) + 16 <= self.pixels@.len(),
        ensures
            r@ == self.window(dx as int, dy as int, 16),
    {
        let offset = self.index_of(dx, dy, 16);
        let mut r = [PremultipliedColorU8::transparent(); 16];
        let mut i: usize = 0;
        while i < 16
            invariant
                0 <= i <= 16,
                offset == self.offset(dx as int, dy as int),
                offset + 16 <= self.pixels@.len(),
                offset + 16 <= usize::MAX,
                forall|j: int| 0 <= j < i ==> r@[j] == self.pixels@[offset + j],
            decreases 16 - i,
        {
            r[i] = self.pixels[offset + i];
            i += 1;
        }
        assert(r@ =~= self.window(dx as int, dy as int, 16));
        r
    }

    /// A copy of the `n` pixels from `(dx, dy)` on.
    pub fn slice_at_xy(&self, dx: usize, dy: usize, n: usize) -> (r: Vec<PremultipliedColorU8>)
        requires
            self.offset(dx as int, dy as int) + n <= self.pixels@.len(),
        ensures
            r@ == self.window(dx as int, dy as int, n as int),
    {
        let offset = self.index_of(dx, dy, n);
        let mut r: Vec<PremultipliedColorU8> = Vec::new();
        let mut i: usize = 0;
        while i < n
            invariant
                0 <= i <= n,
                offset == self.offset(dx as int, dy as int),
                offset + n <= self.pixels@.len(),
                offset + n <= usize::MAX,
                r@ =~= self.pixels@.subrange(offset as int, offset + i),
            decreases n - i,
        {
            r.push(self.pixels[offset + i]);
            i += 1;
        }
        r
    }

    /// Writes `row` over the pixels from `(dx, dy)` on.
    pub fn write_at_xy(&mut self, dx: usize, dy: usize, row: &[PremultipliedColorU8])
        requires
            old(self).offset(dx as int, dy as int) + row@.len() <= old(self).pixels@.len(),
        ensures
            final(self).stride == old(self).stride,
            final(self).pixels@ == write_row(
                old(self).pixels@,
                old(self).offset(dx as int, dy as int),
                row@.len() as int,
                row@,
            ),
    {
        let offset = self.index_of(dx, dy, row.len());
        let mut i: usize = 0;
        while i < row.len()
            invariant
                0 <= i <= row@.len(),
                self.stride == old(self).stride,
                offset == old(self).offset(dx as int, dy as int),
                offset + row@.len() <= old(self).pixels@.len(),
                offset + row@.len() <= usize::MAX,
                self.pixels@ =~= write_row(old(self).pixels@, offset as int, i as int, row@),
            decreases row@.len() - i,
        {
            self.pixels.set(offset + i, row[i]);
            i += 1;
        }
    }
}

/// A rectangle of pixels: columns `x .. x + width`, rows `y .. y + height`.
#[derive(Clone, Copy, Debug, PartialEq, Eq, Structural)]
pub struct ScreenIntRect {
    pub x: u32,
    pub y: u32,
    pub width: u32,
    pub height: u32,
}

impl ScreenIntRect {
    /// One past the last column.
    pub open spec fn spec_right(&self) -> int {
        self.x + self.width
    }

    /// One past the last row.
    pub open spec fn spec_bottom(&self) -> int {
        self.y + self.height
    }
}

} // verus!
