//! Row-by-row copy of a BGRA pixel buffer into a mapped RGBA texture.
//!
//! The source rows are packed (`4 * width` bytes each); the destination rows
//! are `pitch` bytes apart and may carry padding, which is left untouched.
//! Two paths produce the same bytes: one moves single bytes, the other moves
//! whole pixels as little-endian 32-bit words with one masked operation.
use vstd::prelude::*;
use vstd::arithmetic::div_mod::{lemma_fundamental_div_mod, lemma_fundamental_div_mod_converse};

verus! {

/// Source channel that lands in destination channel `k`: red and blue trade
/// places, green and alpha stay.
pub open spec fn swap_channel(k: int) -> int {
    if k == 0 {
        2
    } else if k == 2 {
        0
    } else {
        k
    }
}

/// Byte `i` of a destination of `pitch`-byte rows after converting a
/// `width` x `height` BGRA image `src` into it; `before` is its prior content.
pub open spec fn converted_byte(
    src: Seq<u8>,
    before: Seq<u8>,
    width: nat,
    height: nat,
    pitch: nat,
    i: int,
) -> u8 {
    let row = i / (pitch as int);
    let off = i % (pitch as int);
    if row < height && off < 4 * width {
        src[row * (4 * width) + 4 * (off / 4) + swap_channel(off % 4)]
    } else {
        before[i]
    }
}

pub open spec fn converted_bytes(
    src: Seq<u8>,
    before: Seq<u8>,
    width: nat,
    height: nat,
    pitch: nat,
) -> Seq<u8> {
    Seq::new(before.len(), |i: int| converted_byte(src, before, width, height, pitch, i))
}

/// One BGRA pixel read as a little-endian word, turned into RGBA.
pub open spec fn red_blue_swapped(v: u32) -> u32 {
    (v & 0xFF00FF00u32) | ((v & 0x00FF0000u32) >> 16u32) | ((v & 0x000000FFu32) << 16u32)
}

/// Word `j` of a destination of `pitch`-word rows after converting a
/// `width` x `height` image of little-endian BGRA words into it.
pub open spec fn converted_word(
    src: Seq<u32>,
    before: Seq<u32>,
    width: nat,
    height: nat,
    pitch: nat,
    j: int,
) -> u32 {
    let row = j / (pitch as int);
    let col = j % (pitch as int);
    if row < height && col < width {
        red_blue_swapped(src[row * width + col])
    } else {
        before[j]
    }
}

pub open spec fn converted_words(
    src: Seq<u32>,
    before: Seq<u32>,
    width: nat,
    height: nat,
    pitch: nat,
) -> Seq<u32> {
    Seq::new(before.len(), |j: int| converted_word(src, before, width, height, pitch, j))
}

/// Byte `k` (0 is the least significant) of a word.
pub open spec fn word_byte(v: u32, k: int) -> u8 {
    if k == 0 {
        (v & 0xFFu32) as u8
    } else if k == 1 {
        ((v >> 8u32) & 0xFFu32) as u8
    } else if k == 2 {
        ((v >> 16u32) & 0xFFu32) as u8
    } else {
        ((v >> 24u32) & 0xFFu32) as u8
    }
}

/// The bytes of a word sequence in little-endian memory order.
pub open spec fn le_bytes(words: Seq<u32>) -> Seq<u8> {
    Seq::new(4 * words.len(), |i: int| word_byte(words[i / 4], i % 4))
}

/// Whether the word path may be taken: both buffers and both row strides
/// are multiples of four bytes.
pub open spec fn word_aligned(src_addr: usize, dst_addr: usize, src_pitch: usize, dst_pitch: usize) -> bool {
    src_addr % 4 == 0 && dst_addr % 4 == 0 && src_pitch % 4 == 0 && dst_pitch % 4 == 0
}

/// The masked word operation moves each byte exactly as the byte path does.
pub proof fn lemma_swap_word_bytes(v: u32)
    ensures
        forall|k: int| 0 <= k < 4 ==> #[trigger] word_byte(red_blue_swapped(v), k) == word_byte(v, swap_channel(k)),
{
    assert((((v & 0xFF00FF00u32) | ((v & 0x00FF0000u32) >> 16u32) | ((v & 0x000000FFu32) << 16u32)) & 0xFFu32) as u8 == ((v >> 16u32) & 0xFFu32) as u8) by (bit_vector);
    assert(((((v & 0xFF00FF00u32) | ((v & 0x00FF0000u32) >> 16u32) | ((v & 0x000000FFu32) << 16u32)) >> 8u32) & 0xFFu32) as u8 == ((v >> 8u32) & 0xFFu32) as u8) by (bit_vector);
    assert(((((v & 0xFF00FF00u32) | ((v & 0x00FF0000u32) >> 16u32) | ((v & 0x000000FFu32) << 16u32)) >> 16u32) & 0xFFu32) as u8 == (v & 0xFFu32) as u8) by (bit_vector);
    assert(((((v & 0xFF00FF00u32) | ((v & 0x00FF0000u32) >> 16u32) | ((v & 0x000000FFu32) << 16u32)) >> 24u32) & 0xFFu32) as u8 == ((v >> 24u32) & 0xFFu32) as u8) by (bit_vector);
}

/// Position `off` within a row of `pitch` elements, row `row`.
proof fn lemma_row_position(row: int, pitch: int, off: int)
    requires
        0 <= row,
        0 <= off < pitch,
    ensures
        (row * pitch + off) / pitch == row,
        (row * pitch + off) % pitch == off,
{
    lemma_fundamental_div_mod_converse(row * pitch + off, pitch, row, off);
}

/// Position of channel `k` of pixel `x`.
proof fn lemma_pixel_position(x: int, k: int)
    requires
        0 <= x,
        0 <= k < 4,
    ensures
        (4 * x + k) / 4 == x,
        (4 * x + k) % 4 == k,
{
    lemma_fundamental_div_mod_converse(4 * x + k, 4, x, k);
}

/// Indices past the last of `height` rows lie in no row of the image.
proof fn lemma_past_last_row(i: int, pitch: int, height: int)
    requires
        0 < pitch,
        0 <= height,
        height * pitch <= i,
    ensures
        i / pitch >= height,
{
    lemma_fundamental_div_mod(i, pitch);
    let q = i / pitch;
    let r = i % pitch;
    if q < height {
        assert(pitch * q + pitch <= pitch * height) by (nonlinear_arith)
            requires
                q < height,
                0 < pitch,
        ;
        assert(height * pitch == pitch * height) by (nonlinear_arith);
    }
}

/// Offsets of row `y` stay inside an image of `height` rows.
proof fn lemma_row_bounds(y: int, height: int, pitch: int)
    requires
        0 <= y < height,
        0 <= pitch,
    ensures
        y * pitch + pitch <= height * pitch,
        0 <= y * pitch,
{
    assert(y * pitch + pitch <= height * pitch) by (nonlinear_arith)
        requires
            y < height,
            0 <= pitch,
    ;
    assert(0 <= y * pitch) by (nonlinear_arith)
        requires
            0 <= y,
            0 <= pitch,
    ;
}

/// Byte path: converts `height` rows of `width` BGRA pixels from `src` into
/// `dst`, whose rows are `dst_pitch` bytes apart.
pub fn convert_rows_bytewise(src: &[u8], dst: &mut [u8], width: usize, height: usize, dst_pitch: usize)
    requires
        src@.len() == 4 * width * height,
        0 < dst_pitch,
        4 * width <= dst_pitch,
        height * dst_pitch <= old(dst)@.len(),
    ensures
        final(dst)@ == converted_bytes(src@, old(dst)@, width as nat, height as nat, dst_pitch as nat),
{
    let ghost before = dst@;
    let ghost w = width as nat;
    let ghost h = height as nat;
    let ghost p = dst_pitch as int;
    let dst_len = dst.len();
    let src_len = src.len();
    let row_bytes: usize = width * 4;
    assert(4 * width * height == height * (4 * width)) by (nonlinear_arith);
    let mut y: usize = 0;
    while y < height
        invariant
            0 <= y <= height,
            row_bytes == 4 * width,
            src@.len() == height * (4 * width),
            0 < dst_pitch,
            4 * width <= dst_pitch,
            height * dst_pitch <= before.len(),
            dst@.len() == before.len(),
            before.len() == dst_len,
            src@.len() == src_len,
            before == old(dst)@,
            w == width,
            h == height,
            p == dst_pitch,
            forall|i: int|
                0 <= i < before.len() ==> #[trigger] dst@[i] == if i < y * p {
                    converted_byte(src@, before, w, h, p as nat, i)
                } else {
                    before[i]
                },
        decreases height - y,
    {
        proof {
            lemma_row_bounds(y as int, height as int, dst_pitch as int);
            lemma_row_bounds(y as int, height as int, 4 * width);
        }
        let src_row: usize = y * row_bytes;
        let dst_row: usize = y * dst_pitch;
        let mut x: usize = 0;
        while x < width
            invariant
                0 <= y < height,
                0 <= x <= width,
                row_bytes == 4 * width,
                src_row == y * (4 * width),
                dst_row == y * p,
                src@.len() == height * (4 * width),
                y * (4 * width) + 4 * width <= height * (4 * width),
                y * p + p <= height * p,
                0 < dst_pitch,
                4 * width <= dst_pitch,
                height * dst_pitch <= before.len(),
                dst@.len() == before.len(),
                before.len() == dst_len,
                src@.len() == src_len,
                w == width,
                h == height,
                p == dst_pitch,
                forall|i: int|
                    0 <= i < before.len() ==> #[trigger] dst@[i] == if i < y * p + 4 * x {
                        converted_byte(src@, before, w, h, p as nat, i)
                    } else {
                        before[i]
                    },
            decreases width - x,
        {
            let s: usize = src_row + 4 * x;
            let d: usize = dst_row + 4 * x;
            let blue = src[s];
            let green = src[s + 1];
            let red = src[s + 2];
            let alpha = src[s + 3];
            dst[d] = red;
            dst[d + 1] = green;
            dst[d + 2] = blue;
            dst[d + 3] = alpha;
            proof {
                assert forall|k: int| 0 <= k < 4 implies converted_byte(src@, before, w, h, p as nat, d + k)
                    == src@[s + swap_channel(k)] by {
                    lemma_row_position(y as int, p, 4 * x + k);
                    lemma_pixel_position(x as int, k);
                }
                assert forall|i: int| 0 <= i < before.len() implies #[trigger] dst@[i] == if i < y * p + 4 * (x + 1) {
                    converted_byte(src@, before, w, h, p as nat, i)
                } else {
                    before[i]
                } by {
                    if d <= i < d + 4 {
                        assert(converted_byte(src@, before, w, h, p as nat, d + (i - d))
                            == src@[s + swap_channel(i - d)]);
                    }
                }
            }
            x = x + 1;
        }
        proof {
            assert forall|i: int| 0 <= i < before.len() implies #[trigger] dst@[i] == if i < (y + 1) * p {
                converted_byte(src@, before, w, h, p as nat, i)
            } else {
                before[i]
            } by {
                assert((y + 1) * p == y * p + p) by (nonlinear_arith);
                if y * p + 4 * width <= i < y * p + p {
                    lemma_row_position(y as int, p, i - y * p);
                }
            }
        }
        y = y + 1;
    }
    proof {
        assert forall|i: int| 0 <= i < before.len() implies dst@[i] == converted_byte(src@, before, w, h, p as nat, i) by {
            if i >= y * p {
                lemma_past_last_row(i, p, h as int);
            }
        }
        assert(dst@ =~= converted_bytes(src@, before, w, h, p as nat));
    }
}

/// The masked word operation of the word path.
pub fn swap_red_blue(v: u32) -> (r: u32)
    ensures
        r == red_blue_swapped(v),
{
    (v & 0xFF00FF00u32) | ((v & 0x00FF0000u32) >> 16u32) | ((v & 0x000000FFu32) << 16u32)
}

/// Word path: converts `height` rows of `width` pixels, each a
/// little-endian BGRA word, into `dst`, whose rows are `dst_pitch` words apart.
pub fn convert_rows_wordwise(src: &[u32], dst: &mut [u32], width: usize, height: usize, dst_pitch: usize)
    requires
        src@.len() == width * height,
        0 < dst_pitch,
        width <= dst_pitch,
        height * dst_pitch <= old(dst)@.len(),
    ensures
        final(dst)@ == converted_words(src@, old(dst)@, width as nat, height as nat, dst_pitch as nat),
{
    let ghost before = dst@;
    let ghost w = width as nat;
    let ghost h = height as nat;
    let ghost p = dst_pitch as int;
    let dst_len = dst.len();
    let src_len = src.len();
    assert(width * height == height * width) by (nonlinear_arith);
    let mut y: usize = 0;
    while y < height
        invariant
            0 <= y <= height,
            src@.len() == height * width,
            0 < dst_pitch,
            width <= dst_pitch,
            height * dst_pitch <= before.len(),
            dst@.len() == before.len(),
            before.len() == dst_len,
            src@.len() == src_len,
            before == old(dst)@,
            w == width,
            h == height,
            p == dst_pitch,
            forall|j: int|
                0 <= j < before.len() ==> #[trigger] dst@[j] == if j < y * p {
                    converted_word(src@, before, w, h, p as nat, j)
                } else {
                    before[j]
                },
        decreases height - y,
    {
        proof {
            lemma_row_bounds(y as int, height as int, dst_pitch as int);
            lemma_row_bounds(y as int, height as int, width as int);
        }
        let src_row: usize = y * width;
        let dst_row: usize = y * dst_pitch;
        let mut x: usize = 0;
        while x < width
            invariant
                0 <= y < height,
                0 <= x <= width,
                src_row == y * width,
                dst_row == y * p,
                src@.len() == height * width,
                y * width + width <= height * width,
                y * p + p <= height * p,
                0 < dst_pitch,
                width <= dst_pitch,
                height * dst_pitch <= before.len(),
                dst@.len() == before.len(),
                before.len() == dst_len,
                src@.len() == src_len,
                w == width,
                h == height,
                p == dst_pitch,
                forall|j: int|
                    0 <= j < before.len() ==> #[trigger] dst@[j] == if j < y * p + x {
                        converted_word(src@, before, w, h, p as nat, j)
                    } else {
                        before[j]
                    },
            decreases width - x,
        {
            let pixel = src[src_row + x];
            dst[dst_row + x] = swap_red_blue(pixel);
            proof {
                lemma_row_position(y as int, p, x as int);
            }
            x = x + 1;
        }
        proof {
            assert forall|j: int| 0 <= j < before.len() implies #[trigger] dst@[j] == if j < (y + 1) * p {
                converted_word(src@, before, w, h, p as nat, j)
            } else {
                before[j]
            } by {
                assert((y + 1) * p == y * p + p) by (nonlinear_arith);
                if y * p + width <= j < y * p + p {
                    lemma_row_position(y as int, p, j - y * p);
                }
            }
        }
        y = y + 1;
    }
    proof {
        assert forall|j: int| 0 <= j < before.len() implies dst@[j] == converted_word(src@, before, w, h, p as nat, j) by {
            if j >= y * p {
                lemma_past_last_row(j, p, h as int);
            }
        }
        assert(dst@ =~= converted_words(src@, before, w, h, p as nat));
    }
}

/// Decides between the two paths from the buffer addresses and strides.
pub fn word_path_applies(src_addr: usize, dst_addr: usize, src_pitch: usize, dst_pitch: usize) -> (r: bool)
    ensures
        r == word_aligned(src_addr, dst_addr, src_pitch, dst_pitch),
{
    proof {
        assert(forall|a: usize| #[trigger] (a & 3usize) == a % 4) by (bit_vector);
    }
    (src_addr & 3usize) == 0 && (dst_addr & 3usize) == 0 && (src_pitch & 3usize) == 0 && (dst_pitch & 3usize) == 0
}

/// Both paths write the same bytes: converting little-endian pixel words
/// with the word path and reading the result as bytes gives what the byte
/// path writes from the same memory read as bytes, padding included.
pub proof fn lemma_word_path_matches_byte_path(
    src: Seq<u32>,
    before: Seq<u32>,
    width: nat,
    height: nat,
    pitch: nat,
)
    requires
        src.len() == width * height,
        0 < pitch,
        width <= pitch,
        height * pitch <= before.len(),
    ensures
        le_bytes(converted_words(src, before, width, height, pitch)) == converted_bytes(
            le_bytes(src),
            le_bytes(before),
            width,
            height,
            4 * pitch,
        ),
{
    let lhs = le_bytes(converted_words(src, before, width, height, pitch));
    let rhs = converted_bytes(le_bytes(src), le_bytes(before), width, height, 4 * pitch);
    assert forall|i: int| 0 <= i < lhs.len() implies lhs[i] == rhs[i] by {
        let j = i / 4;
        let k = i % 4;
        lemma_fundamental_div_mod(i, 4);
        let row = j / (pitch as int);
        let col = j % (pitch as int);
        lemma_fundamental_div_mod(j, pitch as int);
        assert(i == row * (4 * pitch) + (4 * col + k)) by (nonlinear_arith)
            requires
                i == 4 * j + k,
                j == pitch * row + col,
        ;
        lemma_row_position(row, 4 * (pitch as int), 4 * col + k);
        lemma_pixel_position(col, k);
        if row < height && col < width {
            let v = src[row * width + col];
            lemma_swap_word_bytes(v);
            let b = row * (4 * width) + 4 * col + swap_channel(k);
            assert(b == 4 * (row * width + col) + swap_channel(k)) by (nonlinear_arith)
                requires
                    b == row * (4 * width) + 4 * col + swap_channel(k),
            ;
            lemma_pixel_position(row * width + col, swap_channel(k));
            assert(row * width + col < width * height) by (nonlinear_arith)
                requires
                    row < height,
                    col < width,
                    0 <= row,
                    0 <= col,
            ;
        }
    }
    assert(lhs =~= rhs);
}

} // verus!
