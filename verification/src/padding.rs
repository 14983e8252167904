//! Removal of per-row alignment padding from a staging buffer.
//!
//! A device row copy pads every row of `out_stride` payload bytes up to
//! `padded_stride` bytes; the readback keeps, for each row independently,
//! exactly the payload prefix, in row order.

use vstd::prelude::*;

verus! {

/// The first `rows` rows of `src`, each `padded` bytes long, with every
/// row cut down to its first `out` payload bytes, in row order.
pub open spec fn stripped_rows(src: Seq<u8>, rows: nat, padded: int, out: int) -> Seq<u8>
    decreases rows,
{
    if rows == 0 {
        Seq::empty()
    } else {
        stripped_rows(src, (rows - 1) as nat, padded, out) + src.subrange(
            (rows - 1) * padded,
            (rows - 1) * padded + out,
        )
    }
}

/// [`stripped_rows`] keeps `out` bytes per row.
pub proof fn lemma_stripped_rows_len(src: Seq<u8>, rows: nat, padded: int, out: int)
    requires
        0 <= out <= padded,
        rows * padded <= src.len(),
    ensures
        stripped_rows(src, rows, padded, out).len() == rows * out,
    decreases rows,
{
    if rows > 0 {
        assert((rows - 1) * padded <= rows * padded && 0 <= (rows - 1) * padded && (rows - 1)
            * padded + out <= rows * padded) by (nonlinear_arith)
            requires
                rows >= 1,
                0 <= out <= padded,
        ;
        lemma_stripped_rows_len(src, (rows - 1) as nat, padded, out);
        assert(rows * out == (rows - 1) * out + out) by (nonlinear_arith);
    } else {
        assert(rows * out == 0) by (nonlinear_arith)
            requires
                rows == 0,
        ;
    }
}

/// Padding removal preserves row order and exact byte content: row `r` of
/// the stripped buffer is, byte for byte, the payload prefix of row `r`
/// of the padded buffer.
pub proof fn lemma_stripped_rows_preserved(
    src: Seq<u8>,
    rows: nat,
    padded: int,
    out: int,
    r: int,
)
    requires
        0 <= out <= padded,
        rows * padded <= src.len(),
        0 <= r < rows,
    ensures
        stripped_rows(src, rows, padded, out).subrange(r * out, r * out + out) == src.subrange(
            r * padded,
            r * padded + out,
        ),
    decreases rows,
{
    assert((rows - 1) * padded <= rows * padded && 0 <= r * padded && r * padded + out <= rows
        * padded) by (nonlinear_arith)
        requires
            rows >= 1,
            0 <= r < rows,
            0 <= out <= padded,
    ;
    lemma_stripped_rows_len(src, rows, padded, out);
    lemma_stripped_rows_len(src, (rows - 1) as nat, padded, out);
    if r == rows - 1 {
        assert(0 <= r * out && r * out + out == rows * out) by (nonlinear_arith)
            requires
                0 <= r,
                r == rows - 1,
                0 <= out,
        ;
        assert(stripped_rows(src, rows, padded, out).subrange(r * out, r * out + out) =~= src
            .subrange(r * padded, r * padded + out));
    } else {
        lemma_stripped_rows_preserved(src, (rows - 1) as nat, padded, out, r);
        assert(0 <= r * out && r * out + out <= (rows - 1) * out) by (nonlinear_arith)
            requires
                0 <= r,
                r < rows - 1,
                0 <= out,
        ;
        assert(stripped_rows(src, rows, padded, out).subrange(r * out, r * out + out)
            =~= stripped_rows(src, (rows - 1) as nat, padded, out).subrange(
            r * out,
            r * out + out,
        ));
    }
}

/// Copies the payload prefix of each staging row into a tightly packed
/// buffer, dropping the per-row alignment padding.
pub fn strip_row_padding(src: &[u8], rows: usize, padded_stride: usize, out_stride: usize) -> (dst:
    Vec<u8>)
    requires
        out_stride <= padded_stride,
        rows * padded_stride <= src.len(),
    ensures
        dst@ == stripped_rows(src@, rows as nat, padded_stride as int, out_stride as int),
        dst.len() == rows * out_stride,
{
    let mut dst: Vec<u8> = Vec::new();
    let mut r: usize = 0;
    while r < rows
        invariant
            r <= rows,
            out_stride <= padded_stride,
            rows * padded_stride <= src.len(),
            dst@ == stripped_rows(src@, r as nat, padded_stride as int, out_stride as int),
        decreases rows - r,
    {
        let row_start: usize = {
            proof {
                assert((r + 1) * padded_stride <= rows * padded_stride) by (nonlinear_arith)
                    requires
                        r < rows,
                        padded_stride >= 0,
                ;
                assert(r * padded_stride + padded_stride == (r + 1) * padded_stride) by (
                nonlinear_arith);
            }
            r * padded_stride
        };
        let ghost dst_row_start = dst@;
        let mut j: usize = 0;
        while j < out_stride
            invariant
                j <= out_stride,
                out_stride <= padded_stride,
                rows * padded_stride <= src.len(),
                r < rows,
                row_start == r * padded_stride,
                row_start + padded_stride <= src.len(),
                dst@ == dst_row_start + src@.subrange(
                    row_start as int,
                    row_start as int + j as int,
                ),
            decreases out_stride - j,
        {
            let b = src[row_start + j];
            dst.push(b);
            proof {
                assert(dst@ =~= dst_row_start + src@.subrange(
                    row_start as int,
                    row_start as int + j as int + 1,
                ));
            }
            j += 1;
        }
        proof {
            assert(dst@ =~= stripped_rows(
                src@,
                (r + 1) as nat,
                padded_stride as int,
                out_stride as int,
            ));
        }
        r += 1;
    }
    proof {
        lemma_stripped_rows_len(src@, rows as nat, padded_stride as int, out_stride as int);
    }
    dst
}

} // verus!
