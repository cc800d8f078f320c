//! Row-major byte-rectangle copies between dense RGBA8 buffers.

use vstd::prelude::*;

verus! {

/// Byte `b` of row `y` in a row-major buffer whose rows are `n` bytes long.
pub open spec fn at(s: Seq<u8>, n: int, y: int, b: int) -> u8 {
    s[y * n + b]
}

/// The byte at (`y`, `b`) after copying the `h` rows of `m` bytes of `src` to
/// rows `dy..dy + h`, bytes `db..db + m` of a buffer `dst` with `n`-byte rows.
pub open spec fn blitted(dst: Seq<u8>, n: int, src: Seq<u8>, m: int, h: int, dy: int, db: int, y: int, b: int) -> u8 {
    if dy <= y < dy + h && db <= b < db + m {
        at(src, m, y - dy, b - db)
    } else {
        at(dst, n, y, b)
    }
}

/// In a row-major layout with rows of `n` bytes, each position has one (row, byte) pair.
pub proof fn lemma_row_major_unique(y1: int, b1: int, y2: int, b2: int, n: int)
    requires
        0 <= y1,
        0 <= y2,
        0 <= b1 < n,
        0 <= b2 < n,
        y1 * n + b1 == y2 * n + b2,
    ensures
        y1 == y2,
        b1 == b2,
{
    if y1 < y2 {
        assert(y1 * n + n <= y2 * n) by (nonlinear_arith)
            requires y1 < y2, n > 0;
        assert(false);
    } else if y2 < y1 {
        assert(y2 * n + n <= y1 * n) by (nonlinear_arith)
            requires y2 < y1, n > 0;
        assert(false);
    }
}

/// A position (`y`, `b`) inside `rows` rows of `n` bytes lies inside the buffer.
pub proof fn lemma_row_major_bound(y: int, b: int, rows: int, n: int)
    requires
        0 <= y < rows,
        0 <= b < n,
    ensures
        0 <= y * n + b < rows * n,
{
    assert(0 <= y * n + b < rows * n) by (nonlinear_arith)
        requires 0 <= y < rows, 0 <= b < n;
}

/// Copies `h` rows of `m` bytes from `src` into `dst` (rows of `n` bytes),
/// starting at row `dy`, byte `db` of `dst`.
pub fn blit_rows(dst: &mut Vec<u8>, n: usize, src: &Vec<u8>, m: usize, h: usize, dy: usize, db: usize)
    requires
        db + m <= n,
        (dy + h) * n <= old(dst)@.len(),
        h * m <= src@.len(),
    ensures
        final(dst)@.len() == old(dst)@.len(),
        forall|y: int, b: int|
            0 <= y && 0 <= b < n && y * n + b < old(dst)@.len() ==> #[trigger] at(final(dst)@, n as int, y, b)
                == blitted(old(dst)@, n as int, src@, m as int, h as int, dy as int, db as int, y, b),
{
    let ghost orig = dst@;
    let dst_len = dst.len();
    let src_len = src.len();
    let mut r: usize = 0;
    while r < h
        invariant
            0 <= r <= h,
            dst@.len() == orig.len(),
            dst_len == orig.len(),
            src_len == src@.len(),
            db + m <= n,
            (dy + h) * n <= orig.len(),
            h * m <= src@.len(),
            forall|y: int, b: int|
                0 <= y && 0 <= b < n && y * n + b < orig.len() ==> #[trigger] at(dst@, n as int, y, b)
                    == blitted(orig, n as int, src@, m as int, r as int, dy as int, db as int, y, b),
        decreases h - r,
    {
        let mut c: usize = 0;
        proof {
            assert((dy + r) * n + n <= (dy + h) * n) by (nonlinear_arith)
                requires r < h, n >= 0;
            assert(r * m + m <= h * m) by (nonlinear_arith)
                requires r < h, m >= 0;
        }
        while c < m
            invariant
                0 <= c <= m,
                r < h,
                dst@.len() == orig.len(),
                db + m <= n,
                (dy + r) * n + n <= orig.len(),
                dst_len == orig.len(),
                src_len == src@.len(),
                r * m + m <= src@.len(),
                forall|y: int, b: int|
                    0 <= y && 0 <= b < n && y * n + b < orig.len() ==> #[trigger] at(dst@, n as int, y, b)
                        == (if y == dy + r && db <= b < db + c {
                            at(src@, m as int, r as int, b - db)
                        } else {
                            blitted(orig, n as int, src@, m as int, r as int, dy as int, db as int, y, b)
                        }),
            decreases m - c,
        {
            assert(dy + r <= (dy + r) * n) by (nonlinear_arith)
                requires n >= 1;
            let di = (dy + r) * n + db + c;
            let si = r * m + c;
            let v = src[si];
            let ghost before = dst@;
            dst.set(di, v);
            proof {
                assert forall|y: int, b: int|
                    0 <= y && 0 <= b < n && y * n + b < orig.len() implies #[trigger] at(dst@, n as int, y, b)
                        == (if y == dy + r && db <= b < db + c + 1 {
                            at(src@, m as int, r as int, b - db)
                        } else {
                            blitted(orig, n as int, src@, m as int, r as int, dy as int, db as int, y, b)
                        }) by {
                    if y * n + b == di as int {
                        lemma_row_major_unique(y, b, (dy + r) as int, (db + c) as int, n as int);
                    } else {
                        assert(at(before, n as int, y, b) == at(dst@, n as int, y, b));
                        if y == dy + r && b == db + c {
                            assert(false);
                        }
                    }
                }
            }
            c = c + 1;
        }
        proof {
            assert forall|y: int, b: int|
                0 <= y && 0 <= b < n && y * n + b < orig.len() implies #[trigger] at(dst@, n as int, y, b)
                    == blitted(orig, n as int, src@, m as int, r + 1, dy as int, db as int, y, b) by {
            }
        }
        r = r + 1;
    }
}

} // verus!
