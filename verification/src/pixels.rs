//! Captured pixels: telling a black picture, cutting a region out, and putting the
//! colours in order.

use vstd::prelude::*;

verus! {

/// The pixel at position `k`, four bytes each, shows some colour.
pub open spec fn is_lit(pixels: Seq<u8>, k: int) -> bool {
    pixels[4 * k] != 0 || pixels[4 * k + 1] != 0 || pixels[4 * k + 2] != 0
}

/// How many of the first `n` pixels show some colour.
pub open spec fn lit_count(pixels: Seq<u8>, n: nat) -> nat
    decreases n,
{
    if n == 0 {
        0
    } else {
        lit_count(pixels, (n - 1) as nat) + (if is_lit(pixels, n - 1) {
            1nat
        } else {
            0nat
        })
    }
}

/// More than 99 percent of the pixels are black.
pub open spec fn is_mostly_black(pixels: Seq<u8>) -> bool {
    100 * lit_count(pixels, pixels.len() / 4) < pixels.len() / 4
}

/// Decides whether a picture is more than 99 percent black, as one that a window
/// drawn by the graphics card comes out when it cannot be printed.
pub fn mostly_black(pixels: &Vec<u8>) -> (r: bool)
    ensures
        r == is_mostly_black(pixels@),
{
    let total: usize = pixels.len() / 4;
    let mut lit: usize = 0;
    let mut k: usize = 0;
    while k < total
        invariant
            total == pixels@.len() / 4,
            pixels@.len() <= usize::MAX,
            k <= total,
            lit <= k,
            lit == lit_count(pixels@, k as nat),
        decreases total - k,
    {
        if pixels[4 * k] != 0 || pixels[4 * k + 1] != 0 || pixels[4 * k + 2] != 0 {
            lit = lit + 1;
        }
        k = k + 1;
    }
    (lit as u128) * 100 < total as u128
}

/// The bytes of BGRA pixels in the order RGBA.
pub open spec fn reordered(pixels: Seq<u8>) -> Seq<u8> {
    Seq::new(
        pixels.len(),
        |i: int|
            if i % 4 == 0 {
                pixels[i + 2]
            } else if i % 4 == 2 {
                pixels[i - 2]
            } else {
                pixels[i]
            },
    )
}

/// Turns BGRA pixels into RGBA pixels.
pub fn bgra_to_rgba(pixels: Vec<u8>) -> (r: Vec<u8>)
    requires
        pixels@.len() % 4 == 0,
    ensures
        r@ == reordered(pixels@),
{
    let n: usize = pixels.len();
    let ghost from = pixels@;
    let mut pixels = pixels;
    let mut i: usize = 0;
    while i < n
        invariant
            n == from.len(),
            n == pixels@.len(),
            n % 4 == 0,
            i <= n,
            i % 4 == 0,
            forall|j: int| 0 <= j < i ==> #[trigger] pixels@[j] == reordered(from)[j],
            forall|j: int| i <= j < n ==> #[trigger] pixels@[j] == from[j],
        decreases n - i,
    {
        let blue: u8 = pixels[i];
        let red: u8 = pixels[i + 2];
        pixels.set(i, red);
        pixels.set(i + 2, blue);
        i = i + 4;
    }
    assert(pixels@ =~= reordered(from));
    pixels
}

/// The pixels of a region, row by row, out of those of a picture `across` pixels wide:
/// `w` by `h` pixels, from the one at `x` and `y` on.
pub open spec fn cropped(pixels: Seq<u8>, across: int, x: int, y: int, w: int, h: int) -> Seq<u8> {
    Seq::new(
        (4 * w * h) as nat,
        |i: int| pixels[4 * ((y + i / (4 * w)) * across + x) + i % (4 * w)],
    )
}

/// Picks the pixels of a region out of those of a picture.
pub fn crop(
    pixels: &Vec<u8>,
    across: usize,
    corner: (usize, usize),
    size: (usize, usize),
    down: usize,
) -> (r: Vec<u8>)
    requires
        0 < size.0,
        0 < size.1,
        corner.0 + size.0 <= across,
        corner.1 + size.1 <= down,
        pixels@.len() == 4 * across * down,
    ensures
        r@ == cropped(
            pixels@,
            across as int,
            corner.0 as int,
            corner.1 as int,
            size.0 as int,
            size.1 as int,
        ),
{
    let (x, y): (usize, usize) = corner;
    let (w, h): (usize, usize) = size;
    let ghost wanted = cropped(pixels@, across as int, x as int, y as int, w as int, h as int);
    let n: usize = pixels.len();
    let mut r: Vec<u8> = Vec::new();
    let mut row: usize = 0;
    proof {
        assert(4 * w <= usize::MAX) by (nonlinear_arith)
            requires
                w <= across,
                0 < down,
                4 * across * down == n,
        ;
    }
    while row < h
        invariant
            w == size.0,
            h == size.1,
            0 < w,
            x + w <= across,
            y + h <= down,
            4 * w <= usize::MAX,
            n == 4 * across * down,
            n == pixels@.len(),
            wanted == cropped(pixels@, across as int, x as int, y as int, w as int, h as int),
            row <= h,
            r@.len() == 4 * w * row,
            forall|i: int| 0 <= i < r@.len() ==> #[trigger] r@[i] == wanted[i],
        decreases h - row,
    {
        proof {
            lemma_row_in_picture(
                across as int,
                down as int,
                x as int,
                w as int,
                (y + row) as int,
            );
        }
        let start: usize = 4 * ((y + row) * across + x);
        let mut k: usize = 0;
        while k < 4 * w
            invariant
                w == size.0,
                h == size.1,
                0 < w,
                4 * w <= usize::MAX,
                row < h,
                start == 4 * ((y + row) * across + x),
                start + 4 * w <= n,
                n == pixels@.len(),
                wanted == cropped(pixels@, across as int, x as int, y as int, w as int, h as int),
                k <= 4 * w,
                r@.len() == 4 * w * row + k,
                forall|i: int| 0 <= i < r@.len() ==> #[trigger] r@[i] == wanted[i],
            decreases 4 * w - k,
        {
            let ghost i: int = 4 * w * row + k;
            proof {
                lemma_index_of_row(w as int, h as int, row as int, k as int);
                assert(wanted[i] == pixels@[start + k]);
            }
            r.push(pixels[start + k]);
            k = k + 1;
        }
        proof {
            assert(4 * w * row + 4 * w == 4 * w * (row + 1)) by (nonlinear_arith);
        }
        row = row + 1;
    }
    assert(r@ =~= wanted);
    r
}

/// A row of a region ends within the picture.
proof fn lemma_row_in_picture(across: int, down: int, x: int, w: int, row: int)
    requires
        0 <= x,
        0 < w,
        x + w <= across,
        0 <= row < down,
    ensures
        0 <= row * across,
        4 * (row * across + x) + 4 * w <= 4 * across * down,
{
    assert(0 <= row * across && (row + 1) * across <= down * across) by (nonlinear_arith)
        requires
            0 <= row < down,
            0 < across,
    ;
    assert((row + 1) * across == row * across + across) by (nonlinear_arith);
    assert(4 * across * down == 4 * (down * across)) by (nonlinear_arith);
}

/// The byte at `k` of a row of a region is the one at this place of its pixels.
proof fn lemma_index_of_row(w: int, h: int, row: int, k: int)
    requires
        0 < w,
        0 <= row < h,
        0 <= k < 4 * w,
    ensures
        (4 * w * row + k) / (4 * w) == row,
        (4 * w * row + k) % (4 * w) == k,
        0 <= 4 * w * row + k < 4 * w * h,
{
    assert(4 * w * row == row * (4 * w)) by (nonlinear_arith);
    vstd::arithmetic::div_mod::lemma_fundamental_div_mod_converse(
        4 * w * row + k,
        4 * w,
        row,
        k,
    );
    assert(0 <= 4 * w * row && 4 * w * row + 4 * w <= 4 * w * h) by (nonlinear_arith)
        requires
            0 < w,
            0 <= row < h,
    ;
}

/// Reordering twice gives the pixels back.
pub proof fn law_reordering_undoes_itself(pixels: Seq<u8>)
    requires
        pixels.len() % 4 == 0,
    ensures
        reordered(reordered(pixels)) == pixels,
{
    assert(reordered(reordered(pixels)) =~= pixels);
}

/// Reordering keeps every pixel lit or black, so it does not matter to the test for
/// a black picture.
pub proof fn law_reordering_keeps_black(pixels: Seq<u8>)
    requires
        pixels.len() % 4 == 0,
    ensures
        is_mostly_black(reordered(pixels)) == is_mostly_black(pixels),
{
    lemma_reordered_count(pixels, pixels.len() / 4);
}

proof fn lemma_reordered_count(pixels: Seq<u8>, n: nat)
    requires
        4 * n <= pixels.len(),
    ensures
        lit_count(reordered(pixels), n) == lit_count(pixels, n),
    decreases n,
{
    if n > 0 {
        lemma_reordered_count(pixels, (n - 1) as nat);
    }
}

/// The pixels of a picture that are not black: blue, green or red is not zero. What the
/// fourth byte holds does not matter.
pub open spec fn lit_pixels(pixels: Seq<u8>) -> Set<int> {
    Set::new(
        |k: int|
            0 <= k < pixels.len() / 4 && (pixels[4 * k] != 0 || pixels[4 * k + 1] != 0 || pixels[4
                * k + 2] != 0),
    )
}

/// A picture counts as black when less than one in a hundred of its pixels is not.
pub proof fn law_black_is_less_than_one_percent(pixels: Seq<u8>)
    ensures
        lit_pixels(pixels).finite(),
        is_mostly_black(pixels) <==> 100 * lit_pixels(pixels).len() < pixels.len() / 4,
{
    lemma_lit_count_is_len(pixels, pixels.len() / 4);
    let all = Set::new(|k: int| 0 <= k < pixels.len() / 4 && is_lit(pixels, k));
    assert(lit_pixels(pixels) =~= all);
}

proof fn lemma_lit_count_is_len(pixels: Seq<u8>, n: nat)
    ensures
        Set::new(|k: int| 0 <= k < n && is_lit(pixels, k)).finite(),
        lit_count(pixels, n) == Set::new(|k: int| 0 <= k < n && is_lit(pixels, k)).len(),
    decreases n,
{
    let now = Set::new(|k: int| 0 <= k < n && is_lit(pixels, k));
    if n == 0 {
        assert(now =~= Set::empty());
    } else {
        let m: nat = (n - 1) as nat;
        let before = Set::new(|k: int| 0 <= k < m && is_lit(pixels, k));
        lemma_lit_count_is_len(pixels, m);
        if is_lit(pixels, m as int) {
            assert(now =~= before.insert(m as int));
        } else {
            assert(now =~= before);
        }
    }
}

/// Pixel by pixel, the colours of BGRA become those of RGBA: red and blue change places,
/// green and the fourth byte stay.
pub proof fn law_colours_are_put_in_order(pixels: Seq<u8>, k: int)
    requires
        0 <= k,
        4 * k + 3 < pixels.len(),
    ensures
        reordered(pixels).len() == pixels.len(),
        reordered(pixels)[4 * k] == pixels[4 * k + 2],
        reordered(pixels)[4 * k + 1] == pixels[4 * k + 1],
        reordered(pixels)[4 * k + 2] == pixels[4 * k],
        reordered(pixels)[4 * k + 3] == pixels[4 * k + 3],
{
}

/// The pixel in column `px` and row `py` of a region is the one in column `x + px` and row
/// `y + py` of the picture that it is cut out of, byte by byte.
pub proof fn law_region_keeps_its_pixels(
    pixels: Seq<u8>,
    across: int,
    x: int,
    y: int,
    w: int,
    h: int,
    px: int,
    py: int,
    c: int,
)
    requires
        0 <= px < w,
        0 <= py < h,
        0 <= c < 4,
    ensures
        cropped(pixels, across, x, y, w, h).len() == 4 * (w * h),
        0 <= 4 * (py * w + px) + c < 4 * (w * h),
        cropped(pixels, across, x, y, w, h)[4 * (py * w + px) + c] == pixels[4 * ((y + py) * across
            + (x + px)) + c],
{
    let k: int = 4 * px + c;
    lemma_index_of_row(w, h, py, k);
    assert(4 * w * py + k == 4 * (py * w + px) + c) by (nonlinear_arith)
        requires
            k == 4 * px + c,
    ;
    assert(4 * w * h == 4 * (w * h)) by (nonlinear_arith);
    assert(0 <= w * h) by (nonlinear_arith)
        requires
            0 < w,
            0 < h,
    ;
}

} // verus!
