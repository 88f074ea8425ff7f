//! Assembly of a plain-text PPM image: decimal rendering of channel
//! values, the three header lines, and one line of three channel values
//! per pixel.

use vstd::prelude::*;
use crate::color::Rgb;

verus! {

/// The decimal digit character for `d`.
pub open spec fn digit_char(d: int) -> char
    recommends
        0 <= d < 10,
{
    if d == 0 {
        '0'
    } else if d == 1 {
        '1'
    } else if d == 2 {
        '2'
    } else if d == 3 {
        '3'
    } else if d == 4 {
        '4'
    } else if d == 5 {
        '5'
    } else if d == 6 {
        '6'
    } else if d == 7 {
        '7'
    } else if d == 8 {
        '8'
    } else {
        '9'
    }
}

/// The decimal digits of a nonnegative integer, most significant first,
/// with no leading zeros (a single `'0'` for zero).
pub open spec fn dec_rep(n: int) -> Seq<char>
    recommends
        n >= 0,
    decreases n,
{
    if n < 10 {
        seq![digit_char(n)]
    } else {
        dec_rep(n / 10) + seq![digit_char(n % 10)]
    }
}

/// The decimal rendering of a signed integer: a minus sign before the
/// digits of the magnitude when negative.
pub open spec fn int_rep(n: int) -> Seq<char> {
    if n < 0 {
        seq!['-'] + dec_rep(-n)
    } else {
        dec_rep(n)
    }
}

/// A one-character string slice holding the digit for `d`.
fn digit_str(d: u32) -> (s: &'static str)
    requires
        d < 10,
    ensures
        s@ == seq![digit_char(d as int)],
{
    proof {
        reveal_strlit("0");
        reveal_strlit("1");
        reveal_strlit("2");
        reveal_strlit("3");
        reveal_strlit("4");
        reveal_strlit("5");
        reveal_strlit("6");
        reveal_strlit("7");
        reveal_strlit("8");
        reveal_strlit("9");
    }
    if d == 0 {
        "0"
    } else if d == 1 {
        "1"
    } else if d == 2 {
        "2"
    } else if d == 3 {
        "3"
    } else if d == 4 {
        "4"
    } else if d == 5 {
        "5"
    } else if d == 6 {
        "6"
    } else if d == 7 {
        "7"
    } else if d == 8 {
        "8"
    } else {
        "9"
    }
}

/// Append the decimal digits of `n` to `s`.
fn append_u32_decimal(s: &mut String, n: u32)
    ensures
        final(s)@ == old(s)@ + dec_rep(n as int),
    decreases n,
{
    if n >= 10 {
        append_u32_decimal(s, n / 10);
    }
    s.append(digit_str(n % 10));
    proof {
        if n < 10 {
            assert(dec_rep(n as int) == seq![digit_char(n as int)]);
        }
        assert(s@ =~= old(s)@ + dec_rep(n as int));
    }
}

/// The decimal rendering of `n` as a fresh string.
pub fn decimal_string(n: i32) -> (s: String)
    ensures
        s@ == int_rep(n as int),
{
    let mut s = String::new();
    append_i32_decimal(&mut s, n);
    proof {
        assert(s@ =~= int_rep(n as int));
    }
    s
}

/// One pixel's line of output: the three channel values in decimal,
/// separated by single spaces.
pub open spec fn pixel_line_rep(c: Rgb) -> Seq<char> {
    int_rep(c.r as int) + seq![' '] + int_rep(c.g as int) + seq![' '] + int_rep(c.b as int)
}

/// The magic token that opens a plain-text PPM stream.
pub open spec fn magic_rep() -> Seq<char> {
    seq!['P', '3']
}

/// The line giving the image's width and height.
pub open spec fn size_rep(width: int, height: int) -> Seq<char>
    recommends
        width >= 0,
        height >= 0,
{
    dec_rep(width) + seq![' '] + dec_rep(height)
}

/// The largest value a channel of the output may carry.
pub open spec fn max_channel() -> int {
    255
}

/// Render one pixel's line: the three channels in decimal, separated by
/// single spaces.
pub fn pixel_line(c: &Rgb) -> (s: String)
    ensures
        s@ == pixel_line_rep(*c),
{
    proof {
        reveal_strlit(" ");
    }
    let mut s = decimal_string(c.r);
    s.append(" ");
    append_i32_decimal(&mut s, c.g);
    s.append(" ");
    append_i32_decimal(&mut s, c.b);
    proof {
        assert(s@ =~= pixel_line_rep(*c));
    }
    s
}

/// Assemble the whole image as lines of text: the three header lines
/// (magic token, width and height, largest channel value), then one line
/// per pixel in the order given.
pub fn ppm_lines(width: u32, height: u32, pixels: &Vec<Rgb>) -> (lines: Vec<String>)
    requires
        pixels@.len() == width as int * height as int,
    ensures
        lines@.len() == 3 + pixels@.len(),
        lines@[0]@ == magic_rep(),
        lines@[1]@ == size_rep(width as int, height as int),
        lines@[2]@ == dec_rep(max_channel()),
        forall|k: int| 0 <= k < pixels@.len() ==> lines@[3 + k]@ == pixel_line_rep(pixels@[k]),
{
    proof {
        reveal_strlit("P3");
        reveal_strlit(" ");
    }
    let mut lines: Vec<String> = Vec::new();
    let mut magic = String::new();
    magic.append("P3");
    proof {
        assert(magic@ =~= magic_rep());
    }
    lines.push(magic);
    let mut size = String::new();
    append_u32_decimal(&mut size, width);
    size.append(" ");
    append_u32_decimal(&mut size, height);
    proof {
        assert(size@ =~= size_rep(width as int, height as int));
    }
    lines.push(size);
    let mut max = String::new();
    append_u32_decimal(&mut max, 255);
    proof {
        assert(max@ =~= dec_rep(max_channel()));
    }
    lines.push(max);
    let mut k: usize = 0;
    while k < pixels.len()
        invariant
            0 <= k <= pixels@.len(),
            lines@.len() == 3 + k,
            lines@[0]@ == magic_rep(),
            lines@[1]@ == size_rep(width as int, height as int),
            lines@[2]@ == dec_rep(max_channel()),
            forall|j: int| 0 <= j < k ==> lines@[3 + j]@ == pixel_line_rep(pixels@[j]),
        decreases pixels@.len() - k,
    {
        let line = pixel_line(&pixels[k]);
        lines.push(line);
        k = k + 1;
    }
    lines
}

/// The column and row sampled for the `k`-th line of pixel output: rows
/// run from the bottom of the image to the top, columns left to right
/// within each row.
pub open spec fn coord_at(width: int, height: int, k: int) -> (int, int)
    recommends
        width > 0,
        height > 0,
        0 <= k < width * height,
{
    (k % width, height - 1 - k / width)
}

/// The sampling order of the image: for each pixel, the column and the
/// row it is sampled from, bottom row first, columns left to right.
pub fn pixel_coords(width: u32, height: u32) -> (coords: Vec<(u32, u32)>)
    requires
        width > 0,
        height > 0,
        width as int * height as int <= usize::MAX,
    ensures
        coords@.len() == width as int * height as int,
        forall|k: int|
            0 <= k < coords@.len() ==> (coords@[k].0 as int, coords@[k].1 as int) == coord_at(
                width as int,
                height as int,
                k,
            ),
{
    let mut coords: Vec<(u32, u32)> = Vec::new();
    let mut row: u32 = height;
    while row > 0
        invariant
            0 <= row <= height,
            width as int * height as int <= usize::MAX,
            coords@.len() == width as int * (height - row),
            forall|k: int|
                0 <= k < coords@.len() ==> (coords@[k].0 as int, coords@[k].1 as int) == coord_at(
                    width as int,
                    height as int,
                    k,
                ),
        decreases row,
    {
        row = row - 1;
        let mut col: u32 = 0;
        while col < width
            invariant
                0 <= col <= width,
                0 <= row < height,
                width as int * height as int <= usize::MAX,
                coords@.len() == width as int * (height - 1 - row) + col,
                forall|k: int|
                    0 <= k < coords@.len() ==> (coords@[k].0 as int, coords@[k].1 as int)
                        == coord_at(width as int, height as int, k),
            decreases width - col,
        {
            proof {
                lemma_grid_bound(width as int, height as int, row as int, col as int);
                lemma_coord_of_index(width as int, height as int, row as int, col as int);
            }
            coords.push((col, row));
            col = col + 1;
        }
        proof {
            assert(width as int * (height as int - 1 - row as int) + width as int == width as int
                * (height as int - row as int)) by (nonlinear_arith);
        }
    }
    proof {
        assert(coords@.len() == width as int * height as int) by (nonlinear_arith)
            requires
                coords@.len() == width as int * (height as int - 0),
        ;
    }
    coords
}

/// Within the grid, the pixels emitted before row `row`, column `col`
/// number fewer than `width * height`.
proof fn lemma_grid_bound(width: int, height: int, row: int, col: int)
    requires
        width > 0,
        height > 0,
        0 <= row < height,
        0 <= col < width,
    ensures
        width * (height - 1 - row) + col < width * height,
        width * (height - 1 - row) + col >= 0,
{
    assert(width * (height - 1 - row) + col < width * height) by (nonlinear_arith)
        requires
            width > 0,
            height > 0,
            0 <= row < height,
            0 <= col < width,
    ;
    assert(width * (height - 1 - row) >= 0) by (nonlinear_arith)
        requires
            width > 0,
            row < height,
    ;
}

/// The `k`-th pixel of the sampling order, with `k = width * (height - 1
/// - row) + col`, is sampled from column `col` and row `row`.
proof fn lemma_coord_of_index(width: int, height: int, row: int, col: int)
    requires
        width > 0,
        height > 0,
        0 <= row < height,
        0 <= col < width,
    ensures
        coord_at(width, height, width * (height - 1 - row) + col) == (col, row),
{
    let k: int = width * (height - 1 - row) + col;
    assert(k % width == col && k / width == height - 1 - row) by (nonlinear_arith)
        requires
            width > 0,
            0 <= col < width,
            k == width * (height - 1 - row) + col,
            0 <= height - 1 - row,
    ;
}

/// Append the decimal rendering of `n` to `s`, minus sign included.
fn append_i32_decimal(s: &mut String, n: i32)
    ensures
        final(s)@ == old(s)@ + int_rep(n as int),
{
    if n < 0 {
        proof {
            reveal_strlit("-");
        }
        s.append("-");
        let m: u32 = (-(n as i64)) as u32;
        proof {
            assert(m as int == -(n as int));
        }
        append_u32_decimal(s, m);
        proof {
            assert(s@ =~= old(s)@ + int_rep(n as int));
        }
    } else {
        append_u32_decimal(s, n as u32);
    }
}

} // verus!
