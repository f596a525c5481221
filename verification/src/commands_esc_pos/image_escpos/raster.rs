//! Pictures as plain pixel data, and the stages that turn a colour picture
//! into one of black and white dots.

use vstd::prelude::*;

verus! {

/// A picture as a value: its size and its samples, row by row from the top,
/// each row from the left.
pub struct Picture {
    pub width: u32,
    pub height: u32,
    pub data: Seq<u8>,
}

impl Picture {
    /// The number of pixels.
    pub open spec fn pixel_count(self) -> int {
        self.width as int * self.height as int
    }

    /// The picture holds `channels` samples for each pixel.
    pub open spec fn has_channels(self, channels: int) -> bool {
        self.data.len() == channels * self.pixel_count()
    }
}

/// A colour picture of four samples to the pixel: red, green, blue, alpha.
#[derive(Debug)]
pub struct Raster {
    pub width: u32,
    pub height: u32,
    pub rgba: Vec<u8>,
}

/// A picture of one sample to the pixel, from 0 (black) to 255 (white).
#[derive(Debug)]
pub struct GrayImage {
    pub width: u32,
    pub height: u32,
    pub pixels: Vec<u8>,
}

impl View for Raster {
    type V = Picture;

    open spec fn view(&self) -> Picture {
        Picture { width: self.width, height: self.height, data: self.rgba@ }
    }
}

impl View for GrayImage {
    type V = Picture;

    open spec fn view(&self) -> Picture {
        Picture { width: self.width, height: self.height, data: self.pixels@ }
    }
}

impl Raster {
    /// There are four samples for each pixel.
    pub open spec fn wf(&self) -> bool {
        self@.has_channels(4)
    }
}

fn pixel_count(width: u32, height: u32) -> (r: u128)
    ensures
        r == width as int * height as int,
        r <= 0xffff_ffff * 0xffff_ffff,
{
    assert(width as int * height as int <= 0xffff_ffff * 0xffff_ffff) by (nonlinear_arith)
        requires
            0 <= width as int <= 0xffff_ffff,
            0 <= height as int <= 0xffff_ffff,
    ;
    assert(0 <= width as int * height as int) by (nonlinear_arith)
        requires
            0 <= width as int,
            0 <= height as int,
    ;
    width as u128 * height as u128
}

impl Raster {
    /// A colour picture of the given size, where `rgba` holds four samples
    /// for each of its pixels, and nothing where it holds more or fewer.
    pub fn new(width: u32, height: u32, rgba: Vec<u8>) -> (r: Option<Raster>)
        ensures
            match r {
                Some(raster) => raster.wf() && raster.width == width && raster.height == height
                    && raster.rgba == rgba,
                None => rgba@.len() != 4 * (width as int * height as int),
            },
    {
        if rgba.len() as u128 == 4 * pixel_count(width, height) {
            Some(Raster { width, height, rgba })
        } else {
            None
        }
    }
}

impl GrayImage {
    /// There is one sample for each pixel.
    pub open spec fn wf(&self) -> bool {
        self@.has_channels(1)
    }

    /// A grey picture of the given size, where `pixels` holds one sample for
    /// each of its pixels, and nothing where it holds more or fewer.
    pub fn new(width: u32, height: u32, pixels: Vec<u8>) -> (r: Option<GrayImage>)
        ensures
            match r {
                Some(gray) => gray.wf() && gray.width == width && gray.height == height
                    && gray.pixels == pixels,
                None => pixels@.len() != width as int * height as int,
            },
    {
        if pixels.len() as u128 == pixel_count(width, height) {
            Some(GrayImage { width, height, pixels })
        } else {
            None
        }
    }

    /// The size of the picture, width first.
    pub fn dimensions(&self) -> (r: (u32, u32))
        ensures
            r == (self.width, self.height),
    {
        (self.width, self.height)
    }
}

/// The darkest value that prints white: a sample below it is a black dot.
pub const THRESHOLD: u8 = 127;

/// A colour sample seen through its alpha over white paper.
pub open spec fn over_white(sample: u8, alpha: u8) -> u8 {
    ((sample as int * alpha as int + 255 * (255 - alpha as int)) / 255) as u8
}

/// A colour picture on white paper: each colour sample seen through the
/// alpha of its pixel, and every pixel opaque.
pub open spec fn flattened(picture: Picture) -> Picture {
    Picture {
        width: picture.width,
        height: picture.height,
        data: Seq::new(
            picture.data.len(),
            |i: int|
                if i % 4 == 3 {
                    255u8
                } else {
                    over_white(picture.data[i], picture.data[i - i % 4 + 3])
                },
        ),
    }
}

/// The brightness of a pixel: white where it is more than half transparent,
/// else 0.299 red + 0.587 green + 0.114 blue, rounded down.
pub open spec fn luminance(red: u8, green: u8, blue: u8, alpha: u8) -> u8 {
    if alpha < 128 {
        255u8
    } else {
        ((299 * red as int + 587 * green as int + 114 * blue as int) / 1000) as u8
    }
}

/// The grey picture of a colour picture.
pub open spec fn grayscale(picture: Picture) -> Picture {
    Picture {
        width: picture.width,
        height: picture.height,
        data: Seq::new(
            (picture.data.len() / 4) as nat,
            |p: int|
                luminance(
                    picture.data[4 * p],
                    picture.data[4 * p + 1],
                    picture.data[4 * p + 2],
                    picture.data[4 * p + 3],
                ),
        ),
    }
}

/// Black for a sample below the threshold, white for every other.
pub open spec fn black_or_white(value: int) -> u8 {
    if value < THRESHOLD as int {
        0u8
    } else {
        255u8
    }
}

/// A grey picture with each sample made black or white by itself.
pub open spec fn thresholded(picture: Picture) -> Picture {
    Picture {
        width: picture.width,
        height: picture.height,
        data: Seq::new(picture.data.len(), |p: int| black_or_white(picture.data[p] as int)),
    }
}

/// The height of a picture that is scaled to `max_width` with its
/// proportions kept, rounded down.
pub open spec fn scaled_height(width: u32, height: u32, max_width: u32) -> int {
    if width == 0 {
        0
    } else {
        (height as int * max_width as int) / (width as int)
    }
}

proof fn sample_bounds(sample: u8, alpha: u8)
    ensures
        0 <= sample as int * alpha as int <= 255 * alpha as int,
{
    assert(0 <= sample as int * alpha as int <= 255 * alpha as int) by (nonlinear_arith)
        requires
            0 <= sample as int <= 255,
            0 <= alpha as int,
    ;
}

fn blend(sample: u8, alpha: u8) -> (r: u8)
    ensures
        r == over_white(sample, alpha),
{
    proof {
        sample_bounds(sample, alpha);
    }
    let seen: u32 = sample as u32 * alpha as u32;
    let paper: u32 = 255 * (255 - alpha as u32);
    ((seen + paper) / 255) as u8
}

fn brightness(red: u8, green: u8, blue: u8, alpha: u8) -> (r: u8)
    ensures
        r == luminance(red, green, blue, alpha),
{
    if alpha < 128 {
        255
    } else {
        ((299 * red as u32 + 587 * green as u32 + 114 * blue as u32) / 1000) as u8
    }
}

impl Raster {
    /// The picture on white paper.
    pub fn flatten(&self) -> (r: Raster)
        requires
            self.wf(),
        ensures
            r@ == flattened(self@),
            r.wf(),
    {
        let count: usize = self.rgba.len() / 4;
        let mut out: Vec<u8> = Vec::new();
        let mut k: usize = 0;
        while k < count
            invariant
                k <= count,
                count == self.rgba@.len() / 4,
                self.rgba@.len() == 4 * count,
                4 * count <= usize::MAX,
                out@ =~= flattened(self@).data.take(4 * k as int),
            decreases count - k,
        {
            let alpha: u8 = self.rgba[4 * k + 3];
            out.push(blend(self.rgba[4 * k], alpha));
            out.push(blend(self.rgba[4 * k + 1], alpha));
            out.push(blend(self.rgba[4 * k + 2], alpha));
            out.push(255);
            k += 1;
        }
        assert(flattened(self@).data.take(4 * count as int) =~= flattened(self@).data);
        Raster { width: self.width, height: self.height, rgba: out }
    }

    /// The grey picture of this picture.
    pub fn to_gray(&self) -> (r: GrayImage)
        requires
            self.wf(),
        ensures
            r@ == grayscale(self@),
            r.wf(),
    {
        let count: usize = self.rgba.len() / 4;
        let mut out: Vec<u8> = Vec::new();
        let mut p: usize = 0;
        while p < count
            invariant
                p <= count,
                count == self.rgba@.len() / 4,
                self.rgba@.len() == 4 * count,
                4 * count <= usize::MAX,
                out@ =~= grayscale(self@).data.take(p as int),
            decreases count - p,
        {
            out.push(
                brightness(
                    self.rgba[4 * p],
                    self.rgba[4 * p + 1],
                    self.rgba[4 * p + 2],
                    self.rgba[4 * p + 3],
                ),
            );
            p += 1;
        }
        assert(grayscale(self@).data.take(count as int) =~= grayscale(self@).data);
        GrayImage { width: self.width, height: self.height, pixels: out }
    }

    /// A copy of the picture.
    pub fn copy(&self) -> (r: Raster)
        ensures
            r@ == self@,
    {
        let rgba: Vec<u8> = self.rgba.clone();
        assert(rgba@ =~= self.rgba@);
        Raster { width: self.width, height: self.height, rgba }
    }
}

impl GrayImage {
    /// Each sample made black or white by itself: black below the threshold.
    pub fn threshold(&self) -> (r: GrayImage)
        ensures
            r@ == thresholded(self@),
            self.wf() ==> r.wf(),
    {
        let mut out: Vec<u8> = Vec::new();
        let mut p: usize = 0;
        while p < self.pixels.len()
            invariant
                p <= self.pixels@.len(),
                out@ =~= thresholded(self@).data.take(p as int),
            decreases self.pixels@.len() - p,
        {
            let value: u8 = if self.pixels[p] < THRESHOLD { 0 } else { 255 };
            out.push(value);
            p += 1;
        }
        assert(thresholded(self@).data.take(self.pixels@.len() as int) =~= thresholded(
            self@,
        ).data);
        GrayImage { width: self.width, height: self.height, pixels: out }
    }
}

/// The height that goes with width `max_width` for a picture that is wider,
/// with its proportions kept.
pub fn scale_height(width: u32, height: u32, max_width: u32) -> (r: u32)
    requires
        max_width < width,
    ensures
        r == scaled_height(width, height, max_width),
        r <= height,
{
    assert(height as int * max_width as int <= 0xffff_ffff * 0xffff_ffff) by (nonlinear_arith)
        requires
            0 <= height as int <= 0xffff_ffff,
            0 <= max_width as int <= 0xffff_ffff,
    ;
    let product: u64 = height as u64 * max_width as u64;
    let scaled: u64 = product / (width as u64);
    assert(scaled <= height) by (nonlinear_arith)
        requires
            scaled == (height as int * max_width as int) / (width as int),
            0 <= max_width < width,
            0 <= height,
    ;
    scaled as u32
}

/// Row `y` of a picture of `height` rows lies within the picture: it starts
/// at place `y * width`, and the next row starts `width` places on.
pub proof fn row_fits(y: int, width: int, height: int)
    requires
        0 <= y < height,
        0 <= width,
    ensures
        0 <= y * width,
        (y + 1) * width == y * width + width,
        (y + 1) * width <= height * width,
{
    assert(0 <= y * width) by (nonlinear_arith)
        requires
            0 <= y,
            0 <= width,
    ;
    assert((y + 1) * width == y * width + width) by (nonlinear_arith);
    assert((y + 1) * width <= height * width) by (nonlinear_arith)
        requires
            y + 1 <= height,
            0 <= width,
    ;
}

/// A colour picture in which every pixel is opaque.
pub open spec fn is_opaque(picture: Picture) -> bool {
    forall|i: int| 0 <= i < picture.data.len() && i % 4 == 3 ==> #[trigger] picture.data[i] == 255
}

/// A picture on white paper is opaque.
pub proof fn flattened_is_opaque(picture: Picture)
    ensures
        is_opaque(flattened(picture)),
{
}

} // verus!
