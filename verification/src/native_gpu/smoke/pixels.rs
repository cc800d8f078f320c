//! Samples and counts taken from dense RGBA8 readbacks.

use vstd::prelude::*;
use vstd::slice::slice_subrange;

use crate::native_gpu::error::{is_smoke_error, smoke_error, GpuBootstrapError};

verus! {

/// The bytes of pixel `i` of the dense RGBA8 buffer `s`.
pub open spec fn pixel(s: Seq<u8>, i: int) -> Seq<u8> {
    s.subrange(4 * i, 4 * i + 4)
}

/// Number of whole RGBA8 pixels in a buffer of `len` bytes; trailing bytes are ignored.
pub open spec fn whole_pixels(len: nat) -> int {
    len as int / 4
}

/// Number of pixels among the first `n` of `s` whose alpha is non-zero.
pub open spec fn drawn_count(s: Seq<u8>, n: int) -> int
    decreases n,
{
    if n <= 0 {
        0
    } else {
        drawn_count(s, n - 1) + if s[4 * (n - 1) + 3] != 0 { 1int } else { 0int }
    }
}

/// Number of pixels among the first `n` of `s` that differ from `p`.
pub open spec fn differing_count(s: Seq<u8>, n: int, p: Seq<u8>) -> int
    decreases n,
{
    if n <= 0 {
        0
    } else {
        differing_count(s, n - 1, p) + if pixel(s, n - 1) != p { 1int } else { 0int }
    }
}

/// Number of non-zero bytes among the first `n` of `s`.
pub open spec fn nonzero_count(s: Seq<u8>, n: int) -> int
    decreases n,
{
    if n <= 0 {
        0
    } else {
        nonzero_count(s, n - 1) + if s[n - 1] != 0 { 1int } else { 0int }
    }
}

/// Number of positions among the first `n` where `a` and `b` hold the same byte.
pub open spec fn matching_count(a: Seq<u8>, b: Seq<u8>, n: int) -> int
    decreases n,
{
    if n <= 0 {
        0
    } else {
        matching_count(a, b, n - 1) + if a[n - 1] == b[n - 1] { 1int } else { 0int }
    }
}

/// Position of the first pixel among the first `n` of `s` with non-zero alpha.
pub open spec fn first_drawn(s: Seq<u8>, n: int) -> Option<int>
    decreases n,
{
    if n <= 0 {
        None
    } else {
        match first_drawn(s, n - 1) {
            Some(i) => Some(i),
            None => if s[4 * (n - 1) + 3] != 0 { Some(n - 1) } else { None },
        }
    }
}

proof fn lemma_count_bound(s: Seq<u8>, n: int)
    requires
        0 <= n,
    ensures
        0 <= drawn_count(s, n) <= n,
        0 <= nonzero_count(s, n) <= n,
    decreases n,
{
    if n > 0 {
        lemma_count_bound(s, n - 1);
    }
}

proof fn lemma_pair_count_bound(a: Seq<u8>, b: Seq<u8>, p: Seq<u8>, n: int)
    requires
        0 <= n,
    ensures
        0 <= matching_count(a, b, n) <= n,
        0 <= differing_count(a, n, p) <= n,
    decreases n,
{
    if n > 0 {
        lemma_pair_count_bound(a, b, p, n - 1);
    }
}

/// Number of pixels with non-zero alpha.
pub fn count_drawn_pixels(pixels: &[u8]) -> (r: usize)
    ensures
        r == drawn_count(pixels@, whole_pixels(pixels@.len())),
{
    let n = pixels.len() / 4;
    let mut count: usize = 0;
    let mut i: usize = 0;
    while i < n
        invariant
            n == whole_pixels(pixels@.len()),
            pixels@.len() <= usize::MAX,
            i <= n,
            count == drawn_count(pixels@, i as int),
        decreases n - i,
    {
        proof {
            lemma_count_bound(pixels@, i as int + 1);
        }
        if pixels[4 * i + 3] != 0 {
            count = count + 1;
        }
        i = i + 1;
    }
    count
}

/// Number of non-zero bytes.
pub fn count_nonzero_bytes(bytes: &[u8]) -> (r: usize)
    ensures
        r == nonzero_count(bytes@, bytes@.len() as int),
{
    let mut count: usize = 0;
    let mut i: usize = 0;
    while i < bytes.len()
        invariant
            i <= bytes@.len(),
            count == nonzero_count(bytes@, i as int),
        decreases bytes@.len() - i,
    {
        proof {
            lemma_count_bound(bytes@, i as int + 1);
        }
        if bytes[i] != 0 {
            count = count + 1;
        }
        i = i + 1;
    }
    count
}

/// Number of positions, up to the shorter length, where `actual` holds the byte of `expected`.
pub fn count_matching_bytes(actual: &[u8], expected: &[u8]) -> (r: usize)
    ensures
        r == matching_count(
            actual@,
            expected@,
            if actual@.len() < expected@.len() { actual@.len() as int } else { expected@.len() as int },
        ),
{
    let n = if actual.len() < expected.len() { actual.len() } else { expected.len() };
    let mut count: usize = 0;
    let mut i: usize = 0;
    while i < n
        invariant
            n <= actual@.len(),
            n <= expected@.len(),
            i <= n,
            count == matching_count(actual@, expected@, i as int),
        decreases n - i,
    {
        proof {
            lemma_pair_count_bound(actual@, expected@, seq![], i as int + 1);
        }
        if actual[i] == expected[i] {
            count = count + 1;
        }
        i = i + 1;
    }
    count
}

/// Number of pixels that differ from `background`.
pub fn count_pixels_unlike(pixels: &[u8], background: [u8; 4]) -> (r: usize)
    ensures
        r == differing_count(pixels@, whole_pixels(pixels@.len()), background@),
{
    let n = pixels.len() / 4;
    let mut count: usize = 0;
    let mut i: usize = 0;
    while i < n
        invariant
            n == whole_pixels(pixels@.len()),
            pixels@.len() <= usize::MAX,
            i <= n,
            count == differing_count(pixels@, i as int, background@),
        decreases n - i,
    {
        proof {
            lemma_pair_count_bound(pixels@, pixels@, background@, i as int + 1);
        }
        let same = pixels[4 * i] == background[0] && pixels[4 * i + 1] == background[1]
            && pixels[4 * i + 2] == background[2] && pixels[4 * i + 3] == background[3];
        proof {
            assert(same <==> pixel(pixels@, i as int) =~= background@);
        }
        if !same {
            count = count + 1;
        }
        i = i + 1;
    }
    count
}

/// The four bytes of pixel `i`.
fn pixel_array(pixels: &[u8], i: usize) -> (p: [u8; 4])
    requires
        4 * i + 4 <= pixels@.len(),
    ensures
        p@ == pixel(pixels@, i as int),
{
    let _len = pixels.len();
    let p = [pixels[4 * i], pixels[4 * i + 1], pixels[4 * i + 2], pixels[4 * i + 3]];
    proof {
        assert(p@ =~= pixel(pixels@, i as int));
    }
    p
}

/// The first pixel with non-zero alpha, or transparent black when there is none.
pub fn first_nontransparent_pixel(pixels: &[u8]) -> (p: [u8; 4])
    ensures
        match first_drawn(pixels@, whole_pixels(pixels@.len())) {
            Some(i) => p@ == pixel(pixels@, i),
            None => p == [0u8, 0, 0, 0],
        },
{
    let n = pixels.len() / 4;
    let mut i: usize = 0;
    while i < n
        invariant
            n == whole_pixels(pixels@.len()),
            pixels@.len() <= usize::MAX,
            i <= n,
            first_drawn(pixels@, i as int) is None,
        decreases n - i,
    {
        if pixels[4 * i + 3] != 0 {
            proof {
                lemma_first_drawn_sticks(pixels@, i as int + 1, n as int);
            }
            return pixel_array(pixels, i);
        }
        i = i + 1;
    }
    [0, 0, 0, 0]
}

/// Once a prefix holds a drawn pixel, every longer prefix has the same first one.
proof fn lemma_first_drawn_sticks(s: Seq<u8>, n: int, m: int)
    requires
        0 <= n <= m,
        first_drawn(s, n) is Some,
    ensures
        first_drawn(s, m) == first_drawn(s, n),
    decreases m - n,
{
    if n < m {
        lemma_first_drawn_sticks(s, n, m - 1);
    }
}

/// The first pixel of a readback, failing with `empty_message` when it holds less than one.
pub fn first_rgba_pixel(pixels: &[u8], empty_message: &str) -> (r: Result<[u8; 4], GpuBootstrapError>)
    ensures
        pixels@.len() >= 4 ==> (r matches Ok(p) && p@ == pixels@.subrange(0, 4)),
        pixels@.len() < 4 ==> (r matches Err(e) && is_smoke_error(e, empty_message@)),
{
    if pixels.len() < 4 {
        return Err(smoke_error(empty_message));
    }
    let p = pixel_array(pixels, 0);
    Ok(p)
}

/// The four bytes of an RGBA8 pixel slice as an array.
pub fn rgba_array(p: &[u8]) -> (a: [u8; 4])
    requires
        p@.len() == 4,
    ensures
        a@ == p@,
{
    let head = slice_subrange(p, 0, 4);
    let a = pixel_array(head, 0);
    proof {
        assert(a@ =~= p@);
    }
    a
}

} // verus!
