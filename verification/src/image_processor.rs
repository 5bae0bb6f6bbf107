//! Reassembly of a scrambled page, and what surrounds it: telling a GIF
//! apart, decoding, encoding as PNG, the policy for reading a body again,
//! the directory of a chapter and the arguments of the PDF compressor.

use image::ImageEncoder;
use vstd::arithmetic::div_mod::lemma_fundamental_div_mod;
use vstd::arithmetic::div_mod::lemma_fundamental_div_mod_converse;
use vstd::prelude::*;
use vstd::string::StringExecFns;

use crate::text::append_decimal;
use crate::text::decimal;
use crate::text::has_prefix;
use crate::text::i64_to_string;
use crate::text::lemma_has_prefix;
use crate::text::trim;
use crate::text::trimmed;
use crate::failed_with;
use crate::AppError;
use crate::ErrorKind;

verus! {

/// An image of 8-bit RGB pixels: `height` rows of `width` pixels, row by row
/// from the top, three bytes for each pixel.
#[derive(Debug, Clone, PartialEq, Eq)]
pub struct RgbImage {
    pub width: u32,
    pub height: u32,
    pub data: Vec<u8>,
}

impl RgbImage {
    /// The number of bytes in one row.
    pub open spec fn row_len(&self) -> int {
        3 * self.width
    }

    /// The data holds every pixel and nothing else.
    pub open spec fn wf(&self) -> bool {
        self.data@.len() == self.row_len() * self.height
    }

    /// The bytes of row `y`.
    pub open spec fn row(&self, y: int) -> Seq<u8> {
        self.data@.subrange(self.row_len() * y, self.row_len() * y + self.row_len())
    }

    /// The pixel in column `x` of row `y`.
    pub open spec fn pixel(&self, x: int, y: int) -> (u8, u8, u8) {
        let row = self.row(y);
        (row[3 * x], row[3 * x + 1], row[3 * x + 2])
    }

    /// The pixels of column `x`, from the top.
    pub open spec fn column(&self, x: int) -> Seq<(u8, u8, u8)> {
        Seq::new(self.height as nat, |y: int| self.pixel(x, y))
    }
}

/// The number of rows in band `i` of an image of `height` rows cut into `n`
/// bands: the rows that do not divide evenly go to band 0.
pub open spec fn band_rows(height: int, n: int, i: int) -> int {
    height / n + if i == 0 {
        height % n
    } else {
        0
    }
}

/// The first row of band `i` in the scrambled image: the bands are counted
/// from the bottom.
pub open spec fn band_source(height: int, n: int, i: int) -> int {
    height - (height / n) * (i + 1) - height % n
}

/// The first row of band `i` in the reassembled image: the bands are laid
/// from the top.
pub open spec fn band_target(height: int, n: int, i: int) -> int {
    (height / n) * i + if i == 0 {
        0
    } else {
        height % n
    }
}

/// The row of the scrambled image that becomes row `y` of the reassembled
/// one.
pub open spec fn source_row(height: int, n: int, y: int) -> int {
    let band = height / n;
    let rest = height % n;
    if y < band + rest {
        band_source(height, n, 0) + y
    } else {
        let i = (y - rest) / band;
        band_source(height, n, i) + (y - band_target(height, n, i))
    }
}

/// `out` is `src` with its `n` bands laid in the opposite order: the same
/// size, and each row taken from where `source_row` says.
pub open spec fn is_stitch_of(out: RgbImage, src: RgbImage, n: int) -> bool {
    &&& out.width == src.width
    &&& out.height == src.height
    &&& out.wf()
    &&& forall|y: int|
        0 <= y < src.height ==> #[trigger] out.row(y) == src.row(
            source_row(src.height as int, n, y),
        )
}

/// Rows of band `i` go where `source_row` says: the band's row `k` is row
/// `band_target + k` of the reassembled image and row `band_source + k` of
/// the scrambled one, and both lie inside the image.
pub proof fn lemma_band_rows(height: int, n: int, i: int, k: int)
    requires
        0 <= height,
        1 <= n,
        0 <= i < n,
        0 <= k < band_rows(height, n, i),
    ensures
        0 <= band_target(height, n, i) + k < height,
        0 <= band_source(height, n, i) + k < height,
        source_row(height, n, band_target(height, n, i) + k) == band_source(height, n, i) + k,
{
    let band = height / n;
    let rest = height % n;
    lemma_fundamental_div_mod(height, n);
    assert(height == n * band + rest);
    assert(band >= 0) by (nonlinear_arith)
        requires
            height >= 0,
            n >= 1,
            band == height / n,
    ;
    assert(band * (i + 1) <= band * n) by (nonlinear_arith)
        requires
            band >= 0,
            i + 1 <= n,
    ;
    assert(band * (i + 1) == band * i + band) by (nonlinear_arith);
    assert(n * band == band * n) by (nonlinear_arith);
    assert(band * i >= 0) by (nonlinear_arith)
        requires
            band >= 0,
            i >= 0,
    ;
    if i > 0 {
        let y = band_target(height, n, i) + k;
        assert(y - rest == i * band + k) by (nonlinear_arith)
            requires
                y == band * i + rest + k,
        ;
        lemma_fundamental_div_mod_converse(y - rest, band, i, k);
        assert(band * 1 <= band * i) by (nonlinear_arith)
            requires
                band >= 0,
                1 <= i,
        ;
    }
}

/// Appends the bytes `src[from..to]` to `out`.
fn append_bytes(out: &mut Vec<u8>, src: &[u8], from: usize, to: usize)
    requires
        from <= to <= src@.len(),
    ensures
        final(out)@ == old(out)@ + src@.subrange(from as int, to as int),
{
    let mut j: usize = from;
    while j < to
        invariant
            from <= j <= to <= src@.len(),
            out@ == old(out)@ + src@.subrange(from as int, j as int),
        decreases to - j,
    {
        out.push(src[j]);
        assert(out@ =~= old(out)@ + src@.subrange(from as int, j + 1));
        j += 1;
    }
}

/// Lays the `block_num` bands of a scrambled page in their true order. The
/// page was cut into bands of `height / block_num` rows from the bottom up,
/// the rows left over going to the band cut first, and the bands were then
/// laid from the top down in the order of cutting.
pub fn stitch_img(src: &RgbImage, block_num: u32) -> (out: RgbImage)
    requires
        src.wf(),
        block_num >= 1,
    ensures
        is_stitch_of(out, *src, block_num as int),
        forall|i: int, k: int|
            #![trigger out.row(band_target(src.height as int, block_num as int, i) + k)]
            0 <= i < block_num && 0 <= k < band_rows(src.height as int, block_num as int, i)
                ==> out.row(band_target(src.height as int, block_num as int, i) + k) == src.row(
                band_source(src.height as int, block_num as int, i) + k,
            ),
{
    let width = src.width;
    let height = src.height;
    let ghost h = height as int;
    let ghost n = block_num as int;
    let ghost rl = src.row_len();
    if width == 0 || height == 0 {
        let out = RgbImage { width, height, data: Vec::new() };
        proof {
            assert(rl * h == 0) by (nonlinear_arith)
                requires
                    rl == 0 || h == 0,
            ;
            assert forall|y: int| 0 <= y < h implies #[trigger] out.row(y) == src.row(
                source_row(h, n, y),
            ) by {
                assert(rl * y == 0) by (nonlinear_arith)
                    requires
                        rl == 0,
                ;
                let s = source_row(h, n, y);
                assert(rl * s == 0) by (nonlinear_arith)
                    requires
                        rl == 0,
                ;
                assert(out.row(y) =~= src.row(s));
            }
            assert forall|i: int, k: int|
                0 <= i < n && 0 <= k < band_rows(h, n, i) implies #[trigger] out.row(
                band_target(h, n, i) + k,
            ) == src.row(band_source(h, n, i) + k) by {
                lemma_band_rows(h, n, i, k);
            }
        }
        return out;
    }
    let total = src.data.len();
    proof {
        assert(rl <= rl * h) by (nonlinear_arith)
            requires
                rl >= 0,
                h >= 1,
        ;
        lemma_fundamental_div_mod(h, n);
    }
    let row_len: usize = 3 * (width as usize);
    let band: u32 = height / block_num;
    let rest: u32 = height % block_num;
    proof {
        assert(band <= n * band) by (nonlinear_arith)
            requires
                band >= 0,
                n >= 1,
        ;
    }
    let mut data: Vec<u8> = Vec::new();
    let mut done: u32 = 0;
    let mut i: u32 = 0;
    while i < block_num
        invariant
            src.wf(),
            h == src.height,
            n == block_num,
            n >= 1,
            h >= 1,
            rl == src.row_len(),
            row_len == rl,
            band == h / n,
            rest == h % n,
            h == n * band + rest,
            height == h,
            band + rest <= h,
            total == rl * h,
            i <= block_num,
            done == band_target(h, n, i as int),
            done <= h,
            data@.len() == rl * done,
            forall|y: int|
                0 <= y < done ==> #[trigger] data@.subrange(rl * y, rl * y + rl) == src.row(
                    source_row(h, n, y),
                ),
        decreases block_num - i,
    {
        let rows: u32 = if i == 0 {
            band + rest
        } else {
            band
        };
        proof {
            assert(band * (i + 1) <= band * n) by (nonlinear_arith)
                requires
                    band >= 0,
                    i + 1 <= n,
            ;
            assert(n * band == band * n) by (nonlinear_arith);
            assert(band * (i + 1) == band * i + band) by (nonlinear_arith);
            assert(band * (i + 1) + rest <= h);
        }
        let first: u32 = height - band * (i + 1) - rest;
        let mut k: u32 = 0;
        while k < rows
            invariant
                src.wf(),
                h == src.height,
                n == block_num,
                n >= 1,
                h >= 1,
                rl == src.row_len(),
                row_len == rl,
                i < block_num,
                total == rl * h,
                rows == band_rows(h, n, i as int),
                first == band_source(h, n, i as int),
                done == band_target(h, n, i as int),
                k <= rows,
                done + k <= h,
                data@.len() == rl * (done + k),
                forall|y: int|
                    0 <= y < done + k ==> #[trigger] data@.subrange(rl * y, rl * y + rl)
                        == src.row(source_row(h, n, y)),
            decreases rows - k,
        {
            proof {
                lemma_band_rows(h, n, i as int, k as int);
            }
            let y: u32 = first + k;
            proof {
                assert(rl * y + rl <= rl * h) by (nonlinear_arith)
                    requires
                        rl >= 0,
                        0 <= y < h,
                ;
                assert(rl * y >= 0) by (nonlinear_arith)
                    requires
                        rl >= 0,
                        y >= 0,
                ;
            }
            let from: usize = row_len * (y as usize);
            let ghost before = data@;
            append_bytes(&mut data, src.data.as_slice(), from, from + row_len);
            proof {
                let t = (done + k) as int;
                assert(rl * (t + 1) == rl * t + rl) by (nonlinear_arith);
                assert forall|z: int| 0 <= z < t + 1 implies #[trigger] data@.subrange(
                    rl * z,
                    rl * z + rl,
                ) == src.row(source_row(h, n, z)) by {
                    assert(rl * z >= 0) by (nonlinear_arith)
                        requires
                            rl >= 0,
                            z >= 0,
                    ;
                    if z < t {
                        assert(rl * z + rl <= rl * t) by (nonlinear_arith)
                            requires
                                rl >= 0,
                                0 <= z < t,
                        ;
                        assert(data@.subrange(rl * z, rl * z + rl) =~= before.subrange(
                            rl * z,
                            rl * z + rl,
                        ));
                    } else {
                        assert(data@.subrange(rl * z, rl * z + rl) =~= src.row(y as int));
                    }
                }
            }
            k += 1;
        }
        proof {
            assert(band * (i + 1) == band * i + band) by (nonlinear_arith);
        }
        done += rows;
        i += 1;
    }
    let out = RgbImage { width, height, data };
    proof {
        assert(band * n == n * band) by (nonlinear_arith);
        assert(done == h);
        assert forall|i: int, k: int|
            0 <= i < n && 0 <= k < band_rows(h, n, i) implies #[trigger] out.row(
            band_target(h, n, i) + k,
        ) == src.row(band_source(h, n, i) + k) by {
            lemma_band_rows(h, n, i, k);
        }
    }
    out
}

/// The row of the reassembled image that row `s` of the scrambled one
/// becomes: the inverse of `source_row`.
pub open spec fn dest_row(height: int, n: int, s: int) -> int {
    let band = height / n;
    if s >= band_source(height, n, 0) {
        s - band_source(height, n, 0)
    } else {
        let i = (band_source(height, n, 0) - 1 - s) / band + 1;
        band_target(height, n, i) + (s - band_source(height, n, i))
    }
}

/// Every row of the reassembled image lies in one band: the band and the
/// row's place in it.
pub open spec fn band_of_target(height: int, n: int, y: int) -> (int, int) {
    let band = height / n;
    let rest = height % n;
    if y < band + rest {
        (0, y)
    } else {
        ((y - rest) / band, (y - rest) % band)
    }
}

/// Every row of the scrambled image lies in one band: the band and the
/// row's place in it.
pub open spec fn band_of_source(height: int, n: int, s: int) -> (int, int) {
    let band = height / n;
    let first = band_source(height, n, 0);
    if s >= first {
        (0, s - first)
    } else {
        ((first - 1 - s) / band + 1, band - 1 - (first - 1 - s) % band)
    }
}

proof fn lemma_band_of_target(height: int, n: int, y: int)
    requires
        1 <= n,
        0 <= y < height,
    ensures
        ({
            let (i, k) = band_of_target(height, n, y);
            &&& 0 <= i < n
            &&& 0 <= k < band_rows(height, n, i)
            &&& y == band_target(height, n, i) + k
        }),
{
    let band = height / n;
    let rest = height % n;
    lemma_fundamental_div_mod(height, n);
    assert(band >= 0) by (nonlinear_arith)
        requires
            height >= 0,
            n >= 1,
            band == height / n,
    ;
    if y >= band + rest {
        assert(band > 0) by (nonlinear_arith)
            requires
                height == n * band + rest,
                band >= 0,
                y >= band + rest,
                y < height,
        ;
        let i = (y - rest) / band;
        let k = (y - rest) % band;
        lemma_fundamental_div_mod(y - rest, band);
        assert(i >= 1) by (nonlinear_arith)
            requires
                y - rest == band * i + k,
                0 <= k < band,
                y - rest >= band,
        ;
        assert(i < n) by (nonlinear_arith)
            requires
                y - rest == band * i + k,
                0 <= k < band,
                y - rest < n * band,
        ;
    }
}

proof fn lemma_band_of_source(height: int, n: int, s: int)
    requires
        1 <= n,
        0 <= s < height,
    ensures
        ({
            let (i, k) = band_of_source(height, n, s);
            &&& 0 <= i < n
            &&& 0 <= k < band_rows(height, n, i)
            &&& s == band_source(height, n, i) + k
            &&& dest_row(height, n, s) == band_target(height, n, i) + k
        }),
{
    let band = height / n;
    let rest = height % n;
    let first = band_source(height, n, 0);
    lemma_fundamental_div_mod(height, n);
    assert(band >= 0) by (nonlinear_arith)
        requires
            height >= 0,
            n >= 1,
            band == height / n,
    ;
    assert(band * (0 + 1) == band) by (nonlinear_arith);
    if s < first {
        assert(first == band * (n - 1)) by (nonlinear_arith)
            requires
                first == height - band - rest,
                height == n * band + rest,
        ;
        assert(band > 0) by (nonlinear_arith)
            requires
                first == band * (n - 1),
                first > 0,
                band >= 0,
        ;
        let t = first - 1 - s;
        let q = t / band;
        let m = t % band;
        lemma_fundamental_div_mod(t, band);
        assert(q >= 0) by (nonlinear_arith)
            requires
                t == band * q + m,
                0 <= m < band,
                t >= 0,
        ;
        assert(q < n - 1) by (nonlinear_arith)
            requires
                t == band * q + m,
                0 <= m < band,
                t < band * (n - 1),
        ;
        let i = q + 1;
        assert(band * (i + 1) == band * q + band + band) by (nonlinear_arith)
            requires
                i == q + 1,
        ;
    }
}

/// `source_row` and `dest_row` undo each other on the rows of the image.
pub proof fn lemma_rows_permuted(height: int, n: int, y: int)
    requires
        1 <= n,
        0 <= y < height,
    ensures
        0 <= source_row(height, n, y) < height,
        dest_row(height, n, source_row(height, n, y)) == y,
        0 <= dest_row(height, n, y) < height,
        source_row(height, n, dest_row(height, n, y)) == y,
{
    let band = height / n;
    let rest = height % n;
    lemma_fundamental_div_mod(height, n);
    lemma_band_of_target(height, n, y);
    let (i, k) = band_of_target(height, n, y);
    lemma_band_rows(height, n, i, k);
    let s = band_source(height, n, i) + k;
    lemma_band_of_source(height, n, s);
    let (i2, k2) = band_of_source(height, n, s);
    assert(i2 == i && k2 == k) by {
        lemma_same_band(height, n, i, k, i2, k2);
    }
    lemma_band_of_source(height, n, y);
    let (j, m) = band_of_source(height, n, y);
    lemma_band_rows(height, n, j, m);
}

proof fn lemma_same_band(height: int, n: int, i: int, k: int, j: int, m: int)
    requires
        1 <= n,
        0 <= height,
        0 <= i < n,
        0 <= j < n,
        0 <= k < band_rows(height, n, i),
        0 <= m < band_rows(height, n, j),
        band_source(height, n, i) + k == band_source(height, n, j) + m,
    ensures
        i == j,
        k == m,
{
    let band = height / n;
    if i < j {
        assert(band * (j + 1) >= band * (i + 1) + band) by (nonlinear_arith)
            requires
                i < j,
                band >= 0,
        ;
    } else if j < i {
        assert(band * (i + 1) >= band * (j + 1) + band) by (nonlinear_arith)
            requires
                j < i,
                band >= 0,
        ;
    }
}

/// Two sequences of which one holds the items of the other in another
/// order hold the same items, each as often.
pub proof fn lemma_permuted_multiset<A>(s: Seq<A>, t: Seq<A>, f: spec_fn(int) -> int)
    requires
        s.len() == t.len(),
        forall|i: int| 0 <= i < t.len() ==> 0 <= #[trigger] f(i) < s.len() && t[i] == s[f(i)],
        forall|i: int, j: int| 0 <= i < j < t.len() ==> #[trigger] f(i) != #[trigger] f(j),
    ensures
        s.to_multiset() == t.to_multiset(),
    decreases t.len(),
{
    broadcast use vstd::multiset::group_multiset_axioms;

    if t.len() == 0 {
        assert(s =~= t);
    } else {
        let last = t.len() - 1;
        let p = f(last);
        let t1 = t.drop_last();
        let s1 = s.remove(p);
        let g = |i: int|
            if f(i) < p {
                f(i)
            } else {
                f(i) - 1
            };
        assert forall|i: int| 0 <= i < t1.len() implies 0 <= #[trigger] g(i) < s1.len() && t1[i]
            == s1[g(i)] by {
            assert(f(i) != f(last));
        }
        assert forall|i: int, j: int| 0 <= i < j < t1.len() implies #[trigger] g(i)
            != #[trigger] g(j) by {
            assert(f(i) != f(j));
            assert(f(i) != f(last));
            assert(f(j) != f(last));
        }
        lemma_permuted_multiset(s1, t1, g);
        assert(t =~= t1.push(t[last]));
        vstd::seq_lib::to_multiset_build(t1, t[last]);
        vstd::seq_lib::to_multiset_remove(s, p);
        s.to_multiset_ensures();
        assert(s.to_multiset().contains(s[p]));
        assert(s.to_multiset() =~= s1.to_multiset().insert(s[p]));
    }
}

/// Reassembly keeps the width and the height of the image, and in every
/// column the pixels, each as often as before.
pub proof fn lemma_stitch_keeps_columns(src: RgbImage, out: RgbImage, n: int, x: int)
    requires
        n >= 1,
        is_stitch_of(out, src, n),
    ensures
        out.width == src.width,
        out.height == src.height,
        out.column(x).to_multiset() == src.column(x).to_multiset(),
{
    let h = src.height as int;
    let f = |y: int| source_row(h, n, y);
    assert forall|y: int| 0 <= y < h implies 0 <= #[trigger] f(y) < h && out.column(x)[y]
        == src.column(x)[f(y)] by {
        lemma_rows_permuted(h, n, y);
        assert(out.row(y) == src.row(source_row(h, n, y)));
    }
    assert forall|i: int, j: int| 0 <= i < j < h implies #[trigger] f(i) != #[trigger] f(j) by {
        lemma_rows_permuted(h, n, i);
        lemma_rows_permuted(h, n, j);
    }
    lemma_permuted_multiset(src.column(x), out.column(x), f);
}

/// `scrambled` is `intact` as the service scrambles it with `n` bands:
/// the same size, and each row taken from where `dest_row` says.
pub open spec fn is_scramble_of(scrambled: RgbImage, intact: RgbImage, n: int) -> bool {
    &&& scrambled.width == intact.width
    &&& scrambled.height == intact.height
    &&& scrambled.wf()
    &&& forall|s: int|
        0 <= s < intact.height ==> #[trigger] scrambled.row(s) == intact.row(
            dest_row(intact.height as int, n, s),
        )
}

/// A byte of an image lies in a row: the byte at `j` is the byte at
/// `j % row_len` of row `j / row_len`.
proof fn lemma_row_of_byte(row_len: int, height: int, j: int)
    requires
        row_len >= 0,
        height >= 0,
        0 <= j < row_len * height,
    ensures
        row_len > 0,
        0 <= j / row_len < height,
        0 <= j % row_len < row_len,
        j == row_len * (j / row_len) + j % row_len,
{
    assert(row_len > 0) by (nonlinear_arith)
        requires
            0 <= j < row_len * height,
            row_len >= 0,
            height >= 0,
    ;
    let y = j / row_len;
    let c = j % row_len;
    lemma_fundamental_div_mod(j, row_len);
    assert(0 <= y < height) by (nonlinear_arith)
        requires
            j == row_len * y + c,
            0 <= c < row_len,
            0 <= j < row_len * height,
    ;
}

/// The byte at `c` of row `y` of an image is the byte at
/// `row_len * y + c` of its data.
proof fn lemma_byte_of_row(img: RgbImage, y: int, c: int)
    requires
        img.wf(),
        0 <= y < img.height,
        0 <= c < img.row_len(),
    ensures
        0 <= img.row_len() * y + c < img.data@.len(),
        img.row(y)[c] == img.data@[img.row_len() * y + c],
{
    let rl = img.row_len();
    let h = img.height as int;
    assert(0 <= rl * y && rl * y + rl <= rl * h) by (nonlinear_arith)
        requires
            rl >= 0,
            0 <= y < h,
    ;
}

/// Reassembly undoes the scrambling: an image that is scrambled and then
/// reassembled with the same number of bands is the image it was, row for
/// row, pixel for pixel and byte for byte.
pub proof fn lemma_stitch_undoes_scramble(
    intact: RgbImage,
    scrambled: RgbImage,
    out: RgbImage,
    n: int,
)
    requires
        n >= 1,
        intact.wf(),
        is_scramble_of(scrambled, intact, n),
        is_stitch_of(out, scrambled, n),
    ensures
        out.width == intact.width,
        out.height == intact.height,
        forall|y: int| 0 <= y < intact.height ==> #[trigger] out.row(y) == intact.row(y),
        forall|x: int, y: int|
            0 <= x < intact.width && 0 <= y < intact.height ==> #[trigger] out.pixel(x, y)
                == intact.pixel(x, y),
        out.data@ == intact.data@,
{
    let h = intact.height as int;
    let rl = intact.row_len();
    assert forall|y: int| 0 <= y < h implies #[trigger] out.row(y) == intact.row(y) by {
        lemma_rows_permuted(h, n, y);
        let s = source_row(h, n, y);
        assert(out.row(y) == scrambled.row(s));
        assert(scrambled.row(s) == intact.row(dest_row(h, n, s)));
    }
    assert forall|j: int| 0 <= j < out.data@.len() implies out.data@[j] == intact.data@[j] by {
        lemma_row_of_byte(rl, h, j);
        let y = j / rl;
        let c = j % rl;
        lemma_byte_of_row(out, y, c);
        lemma_byte_of_row(intact, y, c);
        assert(out.row(y) == intact.row(y));
    }
    assert(out.data@ =~= intact.data@);
}

/// The bytes of an image of `height` rows of `row_len` bytes after its `n`
/// bands are laid in their true order.
pub open spec fn stitched_data(row_len: int, height: int, data: Seq<u8>, n: int) -> Seq<u8> {
    Seq::new(
        data.len(),
        |j: int| data[row_len * source_row(height, n, j / row_len) + j % row_len],
    )
}

/// The rows of a reassembled image, one after the other, are
/// `stitched_data`.
pub proof fn lemma_stitched_data(src: RgbImage, out: RgbImage, n: int)
    requires
        n >= 1,
        src.wf(),
        is_stitch_of(out, src, n),
    ensures
        out.data@ == stitched_data(src.row_len(), src.height as int, src.data@, n),
{
    let h = src.height as int;
    let rl = src.row_len();
    let want = stitched_data(rl, h, src.data@, n);
    assert forall|j: int| 0 <= j < out.data@.len() implies out.data@[j] == want[j] by {
        lemma_row_of_byte(rl, h, j);
        let y = j / rl;
        let c = j % rl;
        lemma_rows_permuted(h, n, y);
        let s = source_row(h, n, y);
        lemma_byte_of_row(out, y, c);
        lemma_byte_of_row(src, s, c);
        assert(out.row(y) == src.row(s));
    }
    assert(out.data@ =~= want);
}

/// The bytes of a page after descrambling with `block_num` bands: as they
/// are where `block_num` is 0, reassembled otherwise.
pub open spec fn descrambled_data(row_len: int, height: int, data: Seq<u8>, block_num: int) -> Seq<
    u8,
> {
    if block_num == 0 {
        data
    } else {
        stitched_data(row_len, height, data, block_num)
    }
}

/// Descrambles a decoded page: leaves it as it is where `block_num` is 0,
/// and lays its bands in their true order otherwise.
pub fn descramble(img: RgbImage, block_num: u32) -> (out: RgbImage)
    requires
        img.wf(),
    ensures
        out.wf(),
        out.width == img.width,
        out.height == img.height,
        out.data@ == descrambled_data(
            img.row_len(),
            img.height as int,
            img.data@,
            block_num as int,
        ),
        block_num >= 1 ==> is_stitch_of(out, img, block_num as int),
{
    if block_num == 0 {
        img
    } else {
        let out = stitch_img(&img, block_num);
        proof {
            lemma_stitched_data(img, out, block_num as int);
        }
        out
    }
}

/// The bytes begin as a GIF file does: with `GIF89a` or with `GIF87a`.
pub open spec fn has_gif_signature(bytes: Seq<u8>) -> bool {
    &&& bytes.len() >= 6
    &&& bytes[0] == 0x47
    &&& bytes[1] == 0x49
    &&& bytes[2] == 0x46
    &&& bytes[3] == 0x38
    &&& (bytes[4] == 0x39 || bytes[4] == 0x37)
    &&& bytes[5] == 0x61
}

/// Whether the bytes begin as a GIF file does.
pub fn is_gif_signature(bytes: &[u8]) -> (b: bool)
    ensures
        b == has_gif_signature(bytes@),
{
    bytes.len() >= 6 && bytes[0] == 0x47 && bytes[1] == 0x49 && bytes[2] == 0x46 && bytes[3]
        == 0x38 && (bytes[4] == 0x39 || bytes[4] == 0x37) && bytes[5] == 0x61
}

/// Whether the first bytes are those of a GIF file, or `None` where they
/// are those of no image format that is known.
pub uninterp spec fn guessed_gif(bytes: Seq<u8>) -> Option<bool>;

/// `image::guess_format`, which goes by the first bytes alone, reduced to
/// what is read of it: GIF, another format, or the description of the
/// error where the bytes begin like no known format. The contract names the
/// answer, and says that it is GIF exactly for the two GIF signatures.
#[verifier::external_body]
pub(crate) fn guess_gif(bytes: &[u8]) -> (r: Result<bool, String>)
    ensures
        match r {
            Ok(gif) => guessed_gif(bytes@) == Some(gif) && gif == has_gif_signature(bytes@),
            Err(_) => guessed_gif(bytes@) is None && !has_gif_signature(bytes@),
        },
{
    match image::guess_format(bytes) {
        Ok(image::ImageFormat::Gif) => Ok(true),
        Ok(_) => Ok(false),
        Err(e) => Err(e.to_string()),
    }
}

/// `image::load_from_memory` followed by `DynamicImage::to_rgb8`, the
/// buffer taken out by `into_raw`. The pixels that come out are not a
/// function of the bytes alone: the JPEG decoder picks its routines by the
/// processor it runs on, and they do not agree to the bit. So the contract
/// gives the result no name, and says only what holds of every outcome:
/// the buffer of a decoded image holds three bytes for each pixel and no
/// more, as `to_rgb8` allocates it.
#[verifier::external_body]
pub(crate) fn decode_rgb8(bytes: &[u8]) -> (r: Result<RgbImage, String>)
    ensures
        r matches Ok(img) ==> img.wf(),
{
    match image::load_from_memory(bytes) {
        Ok(decoded) => {
            let buffer = decoded.to_rgb8();
            Ok(RgbImage { width: buffer.width(), height: buffer.height(), data: buffer.into_raw() })
        },
        Err(e) => Err(e.to_string()),
    }
}

/// The PNG file of the RGB image of the given size and bytes, or `None`
/// where the encoder refuses it.
pub uninterp spec fn png_encoded(width: u32, height: u32, data: Seq<u8>) -> Option<Seq<u8>>;

/// `ImageEncoder::write_image` of an `image::codecs::png::PngEncoder` that
/// writes into a vector, for the colour type `Rgb8`. The buffer must hold
/// three bytes for each pixel and no more: the encoder panics otherwise.
/// The contract names the file.
#[verifier::external_body]
pub(crate) fn encode_png(img: &RgbImage) -> (r: Result<Vec<u8>, String>)
    requires
        img.wf(),
    ensures
        match r {
            Ok(file) => png_encoded(img.width, img.height, img.data@) == Some(file@),
            Err(_) => png_encoded(img.width, img.height, img.data@) is None,
        },
{
    let mut file = Vec::new();
    match image::codecs::png::PngEncoder::new(&mut file).write_image(
        &img.data,
        img.width,
        img.height,
        image::ColorType::Rgb8,
    ) {
        Ok(()) => Ok(file),
        Err(e) => Err(e.to_string()),
    }
}

/// Why a page could not be processed.
pub enum ProcessFailure {
    /// The bytes begin like no known image format.
    Format,
    /// The bytes cannot be decoded.
    Decode,
    /// The descrambled image cannot be encoded.
    Encode,
}

/// How the message of a processing failure begins; the description that
/// the codec gives follows.
pub open spec fn process_failure_text(f: ProcessFailure) -> Seq<char> {
    match f {
        ProcessFailure::Format => "检测图片格式失败: "@,
        ProcessFailure::Decode => "解码图片失败: "@,
        ProcessFailure::Encode => "编码图片失败: "@,
    }
}

/// The PNG file of the page `img` after descrambling with `block_num`
/// bands, or `None` where the encoder refuses it.
pub open spec fn descrambled_png(img: RgbImage, block_num: u32) -> Option<Seq<u8>> {
    png_encoded(
        img.width,
        img.height,
        descrambled_data(img.row_len(), img.height as int, img.data@, block_num as int),
    )
}

/// `file` is the PNG file of some image, descrambled with `block_num`
/// bands.
pub open spec fn is_descrambled_png(file: Seq<u8>, block_num: u32) -> bool {
    exists|img: RgbImage| img.wf() && #[trigger] descrambled_png(img, block_num) == Some(file)
}

/// `e` is an `Internal` error whose message begins as that of the failure
/// `f`.
pub open spec fn is_process_failure(e: AppError, f: ProcessFailure) -> bool {
    e.kind() == ErrorKind::Internal && has_prefix(e.text(), process_failure_text(f))
}

/// `r` is what the processing of the downloaded bytes `bytes` may come to.
/// Bytes that begin like no known format fail. A GIF, which is never
/// scrambled, gives the bytes themselves. Any other image is decoded, and
/// what its pixels are the decoder decides: where a file comes out, it is
/// the PNG file of some image, descrambled; where none does, the decoding
/// or the encoding has failed.
pub open spec fn process_outcome(bytes: Seq<u8>, block_num: u32, r: Result<Vec<u8>, AppError>) -> bool {
    match guessed_gif(bytes) {
        None => r matches Err(e) && is_process_failure(e, ProcessFailure::Format),
        Some(true) => r matches Ok(out) && out@ == bytes,
        Some(false) => match r {
            Ok(out) => is_descrambled_png(out@, block_num),
            Err(e) => is_process_failure(e, ProcessFailure::Decode) || is_process_failure(
                e,
                ProcessFailure::Encode,
            ),
        },
    }
}

/// Descrambles a decoded page with `block_num` bands and encodes it as
/// PNG. A page that the encoder refuses is an `Internal` error.
pub fn encode_descrambled(img: RgbImage, block_num: u32) -> (r: Result<Vec<u8>, AppError>)
    requires
        img.wf(),
    ensures
        match descrambled_png(img, block_num) {
            Some(file) => r matches Ok(out) && out@ == file,
            None => r matches Err(e) && is_process_failure(e, ProcessFailure::Encode),
        },
{
    let dst = descramble(img, block_num);
    match encode_png(&dst) {
        Ok(file) => Ok(file),
        Err(detail) => {
            let mut m = String::from_str("编码图片失败: ");
            m.append(detail.as_str());
            proof {
                lemma_has_prefix("编码图片失败: "@, detail@);
            }
            Err(AppError::Internal(m))
        },
    }
}

/// Turns the bytes of a downloaded page into the bytes of the file to
/// write. What comes out is a GIF passed through, recognised by its
/// signature, or a PNG file. Every failure is an `Internal` error.
pub fn process_image(img_data: &[u8], block_num: u32) -> (r: Result<Vec<u8>, AppError>)
    ensures
        process_outcome(img_data@, block_num, r),
        has_gif_signature(img_data@) ==> (r matches Ok(out) && out@ == img_data@),
{
    let gif = match guess_gif(img_data) {
        Ok(gif) => gif,
        Err(detail) => {
            let mut m = String::from_str("检测图片格式失败: ");
            m.append(detail.as_str());
            proof {
                lemma_has_prefix("检测图片格式失败: "@, detail@);
            }
            return Err(AppError::Internal(m));
        },
    };
    if gif {
        return Ok(vstd::slice::slice_to_vec(img_data));
    }
    let src = match decode_rgb8(img_data) {
        Ok(img) => img,
        Err(detail) => {
            let mut m = String::from_str("解码图片失败: ");
            m.append(detail.as_str());
            proof {
                lemma_has_prefix("解码图片失败: "@, detail@);
            }
            return Err(AppError::Internal(m));
        },
    };
    let ghost decoded = src;
    let r = encode_descrambled(src, block_num);
    proof {
        if r is Ok {
            assert(decoded.wf() && descrambled_png(decoded, block_num) == Some(r->Ok_0@));
        }
    }
    r
}

/// The message for a page whose download was answered with `status`, with
/// the reason that goes with the status where one is known.
pub open spec fn image_status_text(url: Seq<char>, status: u16, reason: Option<Seq<char>>) -> Seq<
    char,
> {
    "从 "@ + url + " 下载图片失败: HTTP状态码 "@ + decimal(status as int) + " ("@ + (match reason {
        Some(r) => r,
        None => "未知错误"@,
    }) + ")"@
}

/// Accepts the answer to the download of a page where its status is one of
/// success, 200 to 299, and refuses every other with an `Internal` error.
pub fn check_image_status(url: &str, status: u16, reason: Option<&str>) -> (r: Result<
    (),
    AppError,
>)
    ensures
        200 <= status < 300 ==> r is Ok,
        !(200 <= status < 300) ==> failed_with(
            r,
            ErrorKind::Internal,
            image_status_text(
                url@,
                status,
                match reason {
                    Some(t) => Some(t@),
                    None => None,
                },
            ),
        ),
{
    if 200 <= status && status < 300 {
        return Ok(());
    }
    let mut m = String::from_str("从 ");
    m.append(url);
    m.append(" 下载图片失败: HTTP状态码 ");
    append_decimal(&mut m, status as u64);
    m.append(" (");
    match reason {
        Some(t) => m.append(t),
        None => m.append("未知错误"),
    }
    m.append(")");
    Err(AppError::Internal(m))
}

/// How often the body of a page is read again after a failure.
pub open spec fn max_body_retries() -> nat {
    3
}

/// The wait before the read that follows a wait of `backoff_ms`: twice as
/// long, and two seconds at most.
pub open spec fn next_backoff(backoff_ms: u64) -> u64 {
    let doubled = if 2 * backoff_ms > u64::MAX {
        backoff_ms
    } else {
        (2 * backoff_ms) as u64
    };
    if doubled > 2000 {
        2000
    } else {
        doubled
    }
}

/// Where the reading of one page's body stands: how often it was read
/// again, and how long to wait before the next time.
#[derive(Debug, Clone, Copy, PartialEq, Eq)]
pub struct BodyRetry {
    pub retries: usize,
    pub backoff_ms: u64,
}

/// What to do after the body of a page could not be read.
#[derive(Debug, Clone, PartialEq, Eq)]
pub enum BodyRetryStep {
    /// Wait `wait_ms` milliseconds, ask again, and go on from `next`.
    Again { wait_ms: u64, next: BodyRetry },
    /// Fail with the error.
    GiveUp(AppError),
}

impl BodyRetry {
    /// The state before the first read: nothing read again, and a first
    /// wait of 200 milliseconds.
    pub fn new() -> (r: Self)
        ensures
            r.retries == 0,
            r.backoff_ms == 200,
    {
        BodyRetry { retries: 0, backoff_ms: 200 }
    }

    /// Decides what follows a failure to read the body, described by
    /// `failure`: up to three times the body is read again, after a wait
    /// that doubles each time; the fourth failure is final.
    pub fn on_failure(&self, failure: &str) -> (r: BodyRetryStep)
        ensures
            self.retries < max_body_retries() ==> r == (BodyRetryStep::Again {
                wait_ms: self.backoff_ms,
                next: BodyRetry {
                    retries: (self.retries + 1) as usize,
                    backoff_ms: next_backoff(self.backoff_ms),
                },
            }),
            self.retries >= max_body_retries() ==> (r matches BodyRetryStep::GiveUp(e) && e@ == (
                ErrorKind::Internal,
                failure@ + " (已重试"@ + decimal(self.retries as int) + "次)"@,
            )),
    {
        if self.retries >= 3 {
            let mut m = String::from_str(failure);
            m.append(" (已重试");
            append_decimal(&mut m, self.retries as u64);
            m.append("次)");
            return BodyRetryStep::GiveUp(AppError::Internal(m));
        }
        let doubled: u64 = if self.backoff_ms > u64::MAX / 2 {
            self.backoff_ms
        } else {
            self.backoff_ms * 2
        };
        let backoff_ms: u64 = if doubled > 2000 {
            2000
        } else {
            doubled
        };
        BodyRetryStep::Again {
            wait_ms: self.backoff_ms,
            next: BodyRetry { retries: self.retries + 1, backoff_ms },
        }
    }
}

/// The directory of a chapter's pages: `./download/`, the comic's id, `/`,
/// the chapter's id.
pub open spec fn chapter_dir(comic_id: i64, chapter_id: i64) -> Seq<char> {
    "./download/"@ + decimal(comic_id as int) + "/"@ + decimal(chapter_id as int)
}

/// The directory in which the pages of a chapter are kept.
pub fn download_dir(comic_id: i64, chapter_id: i64) -> (r: String)
    ensures
        r@ == chapter_dir(comic_id, chapter_id),
{
    let mut r = String::from_str("./download/");
    r.append(i64_to_string(comic_id).as_str());
    r.append("/");
    r.append(i64_to_string(chapter_id).as_str());
    r
}

/// The file that the compressor writes before it replaces `pdf_path`.
pub open spec fn gs_tmp_path(pdf_path: Seq<char>) -> Seq<char> {
    pdf_path + ".tmp"@
}

/// The arguments of the compressor for the file `pdf_path`: quiet batch
/// mode, the PDF device, the password as user and as owner password where
/// there is one, printer quality, safe mode, the output and the input.
pub open spec fn gs_arguments(pdf_path: Seq<char>, password: Option<Seq<char>>) -> Seq<
    Seq<char>,
> {
    seq!["-q"@, "-dNOPAUSE"@, "-dBATCH"@, "-sDEVICE=pdfwrite"@] + (match password {
        Some(p) => seq!["-sUserPassword="@ + p, "-sOwnerPassword="@ + p],
        None => Seq::empty(),
    }) + seq!["-dPDFSETTINGS=/printer"@, "-dSAFER"@, "-o"@, gs_tmp_path(pdf_path), pdf_path]
}

/// The file that the compressor writes before it replaces `pdf_path`.
pub fn compress_tmp_path(pdf_path: &str) -> (r: String)
    ensures
        r@ == gs_tmp_path(pdf_path@),
{
    let mut r = String::from_str(pdf_path);
    r.append(".tmp");
    r
}

/// The arguments with which the compressor is run on `pdf_path`. It
/// encrypts exactly where a password is given.
pub fn compress_arguments(pdf_path: &str, password: Option<&str>) -> (r: Vec<String>)
    ensures
        r.deep_view() == gs_arguments(
            pdf_path@,
            match password {
                Some(p) => Some(p@),
                None => None,
            },
        ),
{
    let mut args: Vec<String> = Vec::new();
    args.push(String::from_str("-q"));
    args.push(String::from_str("-dNOPAUSE"));
    args.push(String::from_str("-dBATCH"));
    args.push(String::from_str("-sDEVICE=pdfwrite"));
    match password {
        Some(p) => {
            let mut user = String::from_str("-sUserPassword=");
            user.append(p);
            args.push(user);
            let mut owner = String::from_str("-sOwnerPassword=");
            owner.append(p);
            args.push(owner);
        },
        None => {},
    }
    args.push(String::from_str("-dPDFSETTINGS=/printer"));
    args.push(String::from_str("-dSAFER"));
    args.push(String::from_str("-o"));
    args.push(compress_tmp_path(pdf_path));
    args.push(String::from_str(pdf_path));
    assert(args.deep_view() =~= gs_arguments(
        pdf_path@,
        match password {
            Some(p) => Some(p@),
            None => None,
        },
    ));
    args
}

/// The error for a compressor that ended in failure, from what it wrote to
/// its error stream.
pub fn compress_failure(stderr: &str) -> (e: AppError)
    ensures
        e@ == (ErrorKind::Internal, "GhostScript处理失败: "@ + trimmed(stderr@)),
{
    let mut m = String::from_str("GhostScript处理失败: ");
    m.append(trim(stderr).as_str());
    AppError::Internal(m)
}

} // verus!
