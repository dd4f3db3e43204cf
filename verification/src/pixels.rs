//! Stripping row padding from a mapped staging buffer.
//!
//! The GPU copy writes each image row at a padded stride, so the mapped
//! buffer holds `padded_bytes_per_row` bytes per row of which only the first
//! `unpadded_bytes_per_row` are pixel data. The export format wants tightly
//! packed rows, so the padding is stripped before encoding.

use vstd::prelude::*;

verus! {

use crate::stride::BufferDimensions;
use vstd::arithmetic::div_mod::{
    lemma_fundamental_div_mod,
    lemma_fundamental_div_mod_converse,
    lemma_multiply_divide_lt,
};
use vstd::arithmetic::mul::lemma_mul_inequality;

/// The payload of row `row` in `data`, whose rows lie `stride` bytes apart
/// and carry `len` bytes of pixel data each.
pub open spec fn row_bytes(data: Seq<u8>, stride: int, len: int, row: int) -> Seq<u8> {
    data.subrange(row * stride, row * stride + len)
}

/// `tight` holds, at each flat index, the byte the padded buffer holds at
/// the same row and column under the padded stride.
pub open spec fn is_stripped_of(tight: Seq<u8>, padded: Seq<u8>, unpadded: int, stride: int) -> bool {
    forall|j: int|
        0 <= j < tight.len() ==> #[trigger] tight[j] == padded[(j / unpadded) * stride + j % unpadded]
}

/// Copies the pixel payload of every row of `padded`, dropping the alignment
/// padding, into a tightly packed buffer: row `r` of the result is exactly
/// the first `unpadded_bytes_per_row` bytes of row `r` of `padded`.
pub fn strip_padding(padded: &Vec<u8>, dims: &BufferDimensions) -> (tight: Vec<u8>)
    requires
        dims.unpadded_bytes_per_row <= dims.padded_bytes_per_row,
        padded@.len() == dims.padded_bytes_per_row * dims.height,
    ensures
        tight@.len() == dims.unpadded_bytes_per_row * dims.height,
        is_stripped_of(
            tight@,
            padded@,
            dims.unpadded_bytes_per_row as int,
            dims.padded_bytes_per_row as int,
        ),
        forall|r: int|
            0 <= r < dims.height ==> row_bytes(
                tight@,
                dims.unpadded_bytes_per_row as int,
                dims.unpadded_bytes_per_row as int,
                r,
            ) == row_bytes(
                padded@,
                dims.padded_bytes_per_row as int,
                dims.unpadded_bytes_per_row as int,
                r,
            ),
{
    let unpadded = dims.unpadded_bytes_per_row;
    let stride = dims.padded_bytes_per_row;
    let height = dims.height;
    let buffer_len = padded.len();
    proof {
        lemma_mul_inequality(unpadded as int, stride as int, height as int);
    }
    let total = unpadded * height;
    let mut tight: Vec<u8> = Vec::new();
    let mut j: usize = 0;
    while j < total
        invariant
            tight@.len() == j,
            j <= total,
            total == unpadded * height,
            unpadded <= stride,
            padded@.len() == stride * height,
            padded@.len() == buffer_len,
            is_stripped_of(tight@, padded@, unpadded as int, stride as int),
        decreases total - j,
    {
        proof {
            assert(unpadded > 0) by (nonlinear_arith)
                requires
                    0 <= j < unpadded * height,
                    unpadded >= 0,
            ;
        }
        let row = j / unpadded;
        let col = j % unpadded;
        proof {
            lemma_fundamental_div_mod(j as int, unpadded as int);
            lemma_multiply_divide_lt(j as int, unpadded as int, height as int);
            assert(0 <= row * stride && row * stride + col < stride * height)
                by (nonlinear_arith)
                requires
                    0 <= col < unpadded <= stride,
                    0 <= row < height,
            ;
        }
        let src = row * stride + col;
        let byte = padded[src];
        tight.push(byte);
        j = j + 1;
    }
    proof {
        lemma_stripped_rows(
            tight@,
            padded@,
            unpadded as int,
            stride as int,
            height as int,
        );
    }
    tight
}

/// Row by row, a stripped buffer carries exactly the padded buffer's pixel
/// payload: the flat-index description above pins every row's bytes.
pub proof fn lemma_stripped_rows(tight: Seq<u8>, padded: Seq<u8>, unpadded: int, stride: int, rows: int)
    requires
        0 <= unpadded <= stride,
        rows >= 0,
        tight.len() == unpadded * rows,
        padded.len() == stride * rows,
        is_stripped_of(tight, padded, unpadded, stride),
    ensures
        forall|r: int|
            0 <= r < rows ==> row_bytes(tight, unpadded, unpadded, r) == row_bytes(
                padded,
                stride,
                unpadded,
                r,
            ),
{
    assert forall|r: int| 0 <= r < rows implies row_bytes(tight, unpadded, unpadded, r)
        == row_bytes(padded, stride, unpadded, r) by {
        assert(0 <= r * unpadded && r * unpadded + unpadded <= unpadded * rows && 0 <= r * stride
            && r * stride + unpadded <= stride * rows) by (nonlinear_arith)
            requires
                0 <= r < rows,
                0 <= unpadded <= stride,
        ;
        let a = row_bytes(tight, unpadded, unpadded, r);
        let b = row_bytes(padded, stride, unpadded, r);
        assert forall|c: int| 0 <= c < unpadded implies a[c] == b[c] by {
            let j = r * unpadded + c;
            lemma_fundamental_div_mod_converse(j, unpadded, r, c);
            assert(tight[j] == padded[(j / unpadded) * stride + j % unpadded]);
        }
        assert(a =~= b);
    }
}

/// Stripping reproduces the unpadded source exactly: any two tightly packed
/// buffers that agree with the same padded buffer row by row are equal, so
/// padding rows out and stripping them again is a round trip.
pub proof fn lemma_strip_recovers_source(
    stripped: Seq<u8>,
    source: Seq<u8>,
    padded: Seq<u8>,
    unpadded: int,
    stride: int,
    rows: int,
)
    requires
        unpadded >= 0,
        rows >= 0,
        stripped.len() == unpadded * rows,
        source.len() == unpadded * rows,
        forall|r: int|
            0 <= r < rows ==> row_bytes(stripped, unpadded, unpadded, r) == row_bytes(
                padded,
                stride,
                unpadded,
                r,
            ),
        forall|r: int|
            0 <= r < rows ==> row_bytes(source, unpadded, unpadded, r) == row_bytes(
                padded,
                stride,
                unpadded,
                r,
            ),
    ensures
        stripped == source,
{
    assert forall|j: int| 0 <= j < stripped.len() implies stripped[j] == source[j] by {
        assert(unpadded > 0) by (nonlinear_arith)
            requires
                unpadded >= 0,
                0 <= j < unpadded * rows,
        ;
        let r = j / unpadded;
        let c = j % unpadded;
        lemma_fundamental_div_mod(j, unpadded);
        lemma_multiply_divide_lt(j, unpadded, rows);
        assert(row_bytes(stripped, unpadded, unpadded, r) == row_bytes(padded, stride, unpadded, r));
        assert(row_bytes(source, unpadded, unpadded, r) == row_bytes(padded, stride, unpadded, r));
        assert(0 <= r * unpadded && r * unpadded + unpadded <= unpadded * rows)
            by (nonlinear_arith)
            requires
                0 <= r < rows,
                unpadded > 0,
        ;
        assert(stripped[j] == row_bytes(stripped, unpadded, unpadded, r)[c]);
        assert(source[j] == row_bytes(source, unpadded, unpadded, r)[c]);
    }
    assert(stripped =~= source);
}

} // verus!
