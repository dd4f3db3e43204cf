//! Row-stride arithmetic for GPU-to-CPU image copies.
//!
//! A texture-to-buffer copy requires each destination row to start at a
//! multiple of the device's copy alignment, so a row of `width × 4` pixel
//! bytes is padded up to the next multiple of that alignment. Getting this
//! wrong silently corrupts exported images, so the layout and its invariant
//! are stated and proved here.

use vstd::prelude::*;

verus! {

use vstd::arithmetic::div_mod::{
    lemma_fundamental_div_mod,
    lemma_mod_multiples_basic,
    lemma_mod_self_0,
    lemma_small_mod,
};

/// Bytes in one pixel of the readback format (four 8-bit channels).
pub const BYTES_PER_PIXEL: usize = 4;

/// Padding appended to a row of `unpadded` bytes so that its total length
/// becomes a multiple of `align`.
pub open spec fn row_padding(unpadded: int, align: int) -> int {
    (align - unpadded % align) % align
}

/// Length of a row of `unpadded` bytes once padded to a multiple of `align`.
pub open spec fn padded_row(unpadded: int, align: int) -> int {
    unpadded + row_padding(unpadded, align)
}

/// The padded row length is the least multiple of `align` that holds a full
/// row: it is aligned, no shorter than the row, and within one alignment
/// step of it.
pub proof fn lemma_padded_row_aligned(unpadded: int, align: int)
    requires
        unpadded >= 0,
        align > 0,
    ensures
        padded_row(unpadded, align) % align == 0,
        padded_row(unpadded, align) >= unpadded,
        padded_row(unpadded, align) < unpadded + align,
{
    let r = unpadded % align;
    lemma_fundamental_div_mod(unpadded, align);
    if r == 0 {
        lemma_mod_self_0(align);
        assert(row_padding(unpadded, align) == 0);
        lemma_mod_multiples_basic(unpadded / align, align);
    } else {
        let q = unpadded / align;
        lemma_small_mod((align - r) as nat, align as nat);
        assert(padded_row(unpadded, align) == align * q + align);
        assert(align * q + align == (q + 1) * align) by (nonlinear_arith);
        lemma_mod_multiples_basic(q + 1, align);
    }
}

/// For every positive width, height and alignment, the padded row length is
/// a multiple of the alignment and at least the unpadded row length of
/// `width × 4` bytes.
pub proof fn lemma_padding_invariant(width: int, height: int, alignment: int)
    requires
        width > 0,
        height > 0,
        alignment > 0,
    ensures
        padded_row(width * BYTES_PER_PIXEL, alignment) % alignment == 0,
        padded_row(width * BYTES_PER_PIXEL, alignment) >= width * BYTES_PER_PIXEL,
{
    lemma_padded_row_aligned(width * BYTES_PER_PIXEL, alignment);
}

/// A row that is already aligned gets no padding at all.
pub proof fn lemma_no_unnecessary_padding(width: int, alignment: int)
    requires
        width >= 0,
        alignment > 0,
        (width * BYTES_PER_PIXEL) % alignment == 0,
    ensures
        padded_row(width * BYTES_PER_PIXEL, alignment) == width * BYTES_PER_PIXEL,
{
    lemma_mod_self_0(alignment);
}

/// Row layout of one frame's staging buffer: the image size, the natural
/// (unpadded) row length, and the row stride the GPU copy must use.
pub struct BufferDimensions {
    pub width: usize,
    pub height: usize,
    pub unpadded_bytes_per_row: usize,
    pub padded_bytes_per_row: usize,
}

impl BufferDimensions {
    /// The fields agree with the image size and the alignment rule.
    pub open spec fn wf(self, bytes_per_pixel: int, alignment: int) -> bool {
        &&& self.unpadded_bytes_per_row == self.width * bytes_per_pixel
        &&& self.padded_bytes_per_row == padded_row(self.unpadded_bytes_per_row as int, alignment)
    }

    /// Computes the layout for an image of `width × height` pixels of
    /// `bytes_per_pixel` bytes each, padding each row to a multiple of
    /// `alignment` (the copy alignment the graphics device imposes; this
    /// code does not choose it).
    pub fn new(
        width: usize,
        height: usize,
        bytes_per_pixel: usize,
        alignment: usize,
    ) -> (dims: BufferDimensions)
        requires
            alignment > 0,
            width * bytes_per_pixel + alignment <= usize::MAX,
        ensures
            dims.wf(bytes_per_pixel as int, alignment as int),
            dims.width == width,
            dims.height == height,
            dims.unpadded_bytes_per_row == width * bytes_per_pixel,
            dims.padded_bytes_per_row % alignment == 0,
            dims.padded_bytes_per_row >= dims.unpadded_bytes_per_row,
            dims.padded_bytes_per_row < dims.unpadded_bytes_per_row + alignment,
    {
        let unpadded_bytes_per_row = width * bytes_per_pixel;
        let padding = (alignment - unpadded_bytes_per_row % alignment) % alignment;
        let padded_bytes_per_row = unpadded_bytes_per_row + padding;
        proof {
            lemma_padded_row_aligned(unpadded_bytes_per_row as int, alignment as int);
        }
        BufferDimensions {
            width,
            height,
            unpadded_bytes_per_row,
            padded_bytes_per_row,
        }
    }

    /// Size of the staging buffer: one padded row per image row.
    pub fn staging_buffer_size(&self) -> (size: usize)
        requires
            self.padded_bytes_per_row * self.height <= usize::MAX,
        ensures
            size == self.padded_bytes_per_row * self.height,
    {
        self.padded_bytes_per_row * self.height
    }
}

} // verus!
