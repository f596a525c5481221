//! Error diffusion after Floyd and Steinberg: each pixel is made black or
//! white, and what that changes of its brightness is handed on to the
//! neighbours that follow it.

use vstd::prelude::*;
use crate::commands_esc_pos::image_escpos::raster::{
    black_or_white, row_fits, GrayImage, Picture, THRESHOLD,
};

verus! {

/// `weight` sixteenths of an error, rounded towards zero.
pub open spec fn share(error: int, weight: int) -> int {
    if error >= 0 {
        (error * weight) / 16
    } else {
        -((-error * weight) / 16)
    }
}

/// The working values of the row that is being processed and of the row
/// below it. The row below is empty under the last row.
pub struct RowPair {
    pub current: Seq<int>,
    pub below: Seq<int>,
}

/// `values` with `amount` added at place `i`; unchanged where it has no
/// such place.
pub open spec fn add_at(values: Seq<int>, i: int, amount: int) -> Seq<int> {
    if 0 <= i < values.len() {
        values.update(i, values[i] + amount)
    } else {
        values
    }
}

/// Makes pixel `x` of the current row black or white and hands the error
/// on: 7 sixteenths to the right, 3 to the lower left, 5 below and 1 to the
/// lower right, each to a neighbour that exists.
pub open spec fn spread(rows: RowPair, x: int) -> RowPair {
    let error = rows.current[x] - black_or_white(rows.current[x]) as int;
    RowPair {
        current: add_at(rows.current, x + 1, share(error, 7)),
        below: add_at(
            add_at(add_at(rows.below, x - 1, share(error, 3)), x, share(error, 5)),
            x + 1,
            share(error, 1),
        ),
    }
}

/// The rows after the first `n` pixels of the current row are done.
pub open spec fn spread_upto(rows: RowPair, n: nat) -> RowPair
    decreases n,
{
    if n == 0 {
        rows
    } else {
        spread(spread_upto(rows, (n - 1) as nat), n - 1)
    }
}

/// Row `y` of a grey picture.
pub open spec fn gray_row(picture: Picture, y: int) -> Seq<int> {
    Seq::new(picture.width as nat, |x: int| picture.data[y * picture.width + x] as int)
}

/// The row below row `y`, as the picture has it; empty under the last row.
pub open spec fn row_below(picture: Picture, y: int) -> Seq<int> {
    if y + 1 < picture.height {
        gray_row(picture, y + 1)
    } else {
        Seq::empty()
    }
}

/// The working values of row `y` when its first pixel is reached: the row
/// of the picture with what the row above has handed down.
pub open spec fn row_at_start(picture: Picture, y: nat) -> Seq<int>
    decreases y,
{
    if y == 0 {
        gray_row(picture, 0)
    } else {
        spread_upto(
            RowPair {
                current: row_at_start(picture, (y - 1) as nat),
                below: gray_row(picture, y as int),
            },
            picture.width as nat,
        ).below
    }
}

/// The dot at column `x` of row `y`: black where the working value of the
/// pixel, when it is reached, lies below the threshold.
pub open spec fn dithered_pixel(picture: Picture, x: nat, y: nat) -> u8 {
    black_or_white(
        spread_upto(
            RowPair { current: row_at_start(picture, y), below: row_below(picture, y as int) },
            x,
        ).current[x as int],
    )
}

/// Row `y` of the dithered picture.
pub open spec fn dithered_row(picture: Picture, y: nat) -> Seq<u8> {
    Seq::new(picture.width as nat, |x: int| dithered_pixel(picture, x as nat, y))
}

/// The first `n` rows of the dithered picture.
pub open spec fn dithered_rows(picture: Picture, n: nat) -> Seq<u8>
    decreases n,
{
    if n == 0 {
        Seq::empty()
    } else {
        dithered_rows(picture, (n - 1) as nat) + dithered_row(picture, (n - 1) as nat)
    }
}

/// The picture in black and white dots, by error diffusion.
pub open spec fn dithered(picture: Picture) -> Picture {
    Picture {
        width: picture.width,
        height: picture.height,
        data: dithered_rows(picture, picture.height as nat),
    }
}

/// Numbers as mathematical integers.
pub open spec fn ints(values: Seq<i32>) -> Seq<int> {
    Seq::new(values.len(), |i: int| values[i] as int)
}

proof fn dithered_rows_len(picture: Picture, n: nat)
    ensures
        dithered_rows(picture, n).len() == n * picture.width,
    decreases n,
{
    if n > 0 {
        dithered_rows_len(picture, (n - 1) as nat);
        assert(n * picture.width == (n - 1) * picture.width + picture.width) by (nonlinear_arith);
    } else {
        assert(0 * picture.width == 0) by (nonlinear_arith);
    }
}

fn part(error: i32, weight: i32) -> (r: i32)
    requires
        -128 <= error <= 128,
        1 <= weight <= 7,
    ensures
        r == share(error as int, weight as int),
        -8 * weight <= r <= 8 * weight,
{
    if error >= 0 {
        assert(0 <= error * weight <= 128 * weight) by (nonlinear_arith)
            requires
                0 <= error <= 128,
                1 <= weight <= 7,
        ;
        error * weight / 16
    } else {
        let positive: i32 = -error;
        assert(0 <= positive * weight <= 128 * weight) by (nonlinear_arith)
            requires
                0 <= positive <= 128,
                1 <= weight <= 7,
        ;
        assert(-error as int * weight as int == positive * weight) by (nonlinear_arith)
            requires
                positive == -error,
        ;
        -(positive * weight / 16)
    }
}

impl GrayImage {
    /// The samples of the row that starts at place `base`, as numbers to
    /// work on.
    fn row_values(&self, base: usize, Ghost(y): Ghost<int>) -> (r: Vec<i32>)
        requires
            base == y * self.width,
            base + self.width <= self.pixels@.len(),
        ensures
            ints(r@) == gray_row(self@, y),
            r@.len() == self.width,
            forall|q: int| 0 <= q < r@.len() ==> 0 <= #[trigger] r@[q] <= 255,
    {
        let w: usize = self.width as usize;
        let n: usize = self.pixels.len();
        let mut out: Vec<i32> = Vec::new();
        let mut x: usize = 0;
        while x < w
            invariant
                x <= w,
                w == self.width,
                base == y * self.width,
                n == self.pixels@.len(),
                base + w <= n,
                out@.len() == x,
                forall|q: int| 0 <= q < x ==> #[trigger] out@[q] == self.pixels@[base + q] as i32,
            decreases w - x,
        {
            out.push(self.pixels[base + x] as i32);
            x += 1;
        }
        assert(ints(out@) =~= gray_row(self@, y));
        out
    }

    /// The picture in black and white dots, by error diffusion.
    pub fn dither(&self) -> (r: GrayImage)
        requires
            self.wf(),
        ensures
            r@ == dithered(self@),
            r.wf(),
    {
        let w: usize = self.width as usize;
        let h: usize = self.height as usize;
        let n: usize = self.pixels.len();
        let ghost picture = self@;
        let mut out: Vec<u8> = Vec::new();
        proof {
            dithered_rows_len(picture, picture.height as nat);
            assert(picture.height * picture.width == picture.width * picture.height)
                by (nonlinear_arith);
        }
        if h == 0 {
            return GrayImage { width: self.width, height: self.height, pixels: out };
        }
        proof {
            row_fits(0, w as int, h as int);
            assert(0 * self.width == 0) by (nonlinear_arith);
        }
        let mut current: Vec<i32> = self.row_values(0, Ghost(0));
        let mut y: usize = 0;
        let mut base: usize = 0;
        while y < h
            invariant
                y <= h,
                w == self.width,
                h == self.height,
                picture == self@,
                n == self.pixels@.len(),
                n == h * w,
                base == y * w,
                out@ == dithered_rows(picture, y as nat),
                y < h ==> current@.len() == w,
                y < h ==> ints(current@) == row_at_start(picture, y as nat),
                forall|q: int| 0 <= q < current@.len() ==> -72 <= #[trigger] current@[q] <= 327,
            decreases h - y,
        {
            proof {
                row_fits(y as int, w as int, h as int);
                if y + 1 < h {
                    row_fits(y as int + 1, w as int, h as int);
                }
            }
            let mut below: Vec<i32> = if y + 1 < h {
                self.row_values(base + w, Ghost(y as int + 1))
            } else {
                Vec::new()
            };
            assert(ints(below@) =~= row_below(picture, y as int));
            let ghost start = RowPair { current: ints(current@), below: ints(below@) };
            let ghost done = out@;
            let mut x: usize = 0;
            assert(dithered_row(picture, y as nat).take(0) =~= Seq::<u8>::empty());
            assert(done + Seq::<u8>::empty() =~= done);
            while x < w
                invariant
                    x <= w,
                    y < h,
                    w == picture.width,
                    current@.len() == w,
                    below@.len() == w || below@.len() == 0,
                    y + 1 < h ==> below@.len() == w,
                    start == (RowPair {
                        current: row_at_start(picture, y as nat),
                        below: row_below(picture, y as int),
                    }),
                    ints(current@) =~= spread_upto(start, x as nat).current,
                    ints(below@) =~= spread_upto(start, x as nat).below,
                    out@ == done + dithered_row(picture, y as nat).take(x as int),
                    forall|q: int| x < q < w ==> -72 <= #[trigger] current@[q] <= 327,
                    x < w ==> -128 <= current@[x as int] <= 383,
                    forall|q: int|
                        0 <= q < below@.len() && q + 2 <= x ==> -72 <= #[trigger] below@[q] <= 327,
                    forall|q: int|
                        0 <= q < below@.len() && q + 1 == x ==> -48 <= #[trigger] below@[q] <= 303,
                    forall|q: int|
                        0 <= q < below@.len() && q == x ==> -8 <= #[trigger] below@[q] <= 263,
                    forall|q: int|
                        0 <= q < below@.len() && q > x ==> 0 <= #[trigger] below@[q] <= 255,
                decreases w - x,
            {
                let value: i32 = current[x];
                let dot: u8 = if value < THRESHOLD as i32 { 0 } else { 255 };
                let error: i32 = value - dot as i32;
                let ghost rows = spread_upto(start, x as nat);
                assert(dot == dithered_pixel(picture, x as nat, y as nat));
                out.push(dot);
                proof {
                    let row = dithered_row(picture, y as nat);
                    assert(row.take(x as int + 1) =~= row.take(x as int).push(dot));
                    assert(out@ =~= done + row.take(x as int + 1));
                }
                if x + 1 < w {
                    let right: i32 = current[x + 1] + part(error, 7);
                    current.set(x + 1, right);
                }
                if below.len() > 0 {
                    if x > 0 {
                        let lower_left: i32 = below[x - 1] + part(error, 3);
                        below.set(x - 1, lower_left);
                    }
                    let lower: i32 = below[x] + part(error, 5);
                    below.set(x, lower);
                    if x + 1 < w {
                        let lower_right: i32 = below[x + 1] + part(error, 1);
                        below.set(x + 1, lower_right);
                    }
                }
                proof {
                    let after = spread(rows, x as int);
                    assert(spread_upto(start, (x + 1) as nat) == after);
                    assert(ints(current@) =~= after.current);
                    assert(ints(below@) =~= after.below);
                }
                x += 1;
            }
            proof {
                let row = dithered_row(picture, y as nat);
                assert(row.take(w as int) =~= row);
                if y + 1 < h {
                    assert(row_at_start(picture, (y + 1) as nat) == spread_upto(
                        RowPair {
                            current: row_at_start(picture, y as nat),
                            below: gray_row(picture, y as int + 1),
                        },
                        picture.width as nat,
                    ).below);
                }
            }
            current = below;
            y += 1;
            base += w;
        }
        GrayImage { width: self.width, height: self.height, pixels: out }
    }
}

} // verus!
