//! The image pipeline: base64 text to picture, scaling to the paper, grey
//! values, black and white dots, and the packed rows that the printer takes.

use vstd::prelude::*;
use vstd::string::*;
use base64::Engine;
use crate::commands_esc_pos::image_escpos::dither::dithered;
use crate::commands_esc_pos::image_escpos::raster::{
    flattened_is_opaque, grayscale, is_opaque, row_fits, scale_height, scaled_height,
    thresholded, GrayImage, Picture, Raster, THRESHOLD,
};
use crate::error::DecodeError;

verus! {

/// The bytes that a text in standard base64, with padding, stands for, as
/// the decoder of the `base64` crate reads it; `None` where it is not such
/// a text.
pub uninterp spec fn base64_decoded(text: Seq<char>) -> Option<Seq<u8>>;

/// The format of an image file, as `image::guess_format` tells it from the
/// first bytes of the file; `None` where the bytes begin like no format that
/// it knows.
pub uninterp spec fn guessed_format(bytes: Seq<u8>) -> Option<image::ImageFormat>;

/// The picture that the bytes of an image file of the given format hold, as
/// the decoder of the `image` crate for that format reads it: width,
/// height, and the samples as red, green, blue and alpha of 8 bits each;
/// `None` where the decoder refuses the bytes or the format has no decoder.
pub uninterp spec fn decoded_image(bytes: Seq<u8>, format: image::ImageFormat) -> Option<
    (u32, u32, Seq<u8>),
>;

#[verifier::external_type_specification]
#[verifier::external_body]
pub struct ExImageFormat(image::ImageFormat);

/// The width and height that `DynamicImage::resize` gives a picture of
/// `width` by `height` that is to fit into `nwidth` by `nheight` with its
/// proportions kept. The size depends on the four numbers alone.
pub uninterp spec fn resized_size(width: u32, height: u32, nwidth: u32, nheight: u32) -> (u32, u32);

/// `Engine::decode` of `base64::engine::general_purpose::STANDARD`: the
/// bytes that the text stands for, or nothing where the decoder fails. The
/// outcome depends on the text alone.
#[verifier::external_body]
pub(crate) fn decode_base64(text: &str) -> (r: Option<Vec<u8>>)
    ensures
        match r {
            Some(bytes) => base64_decoded(text@) == Some(bytes@),
            None => base64_decoded(text@) is None,
        },
{
    match base64::engine::general_purpose::STANDARD.decode(text) {
        Ok(bytes) => Some(bytes),
        Err(_) => None,
    }
}

/// `image::guess_format`: the format that the first bytes of the file tell
/// of, or nothing. It compares the bytes with a fixed table of signatures,
/// so the outcome depends on the bytes alone.
#[verifier::external_body]
pub(crate) fn guess_format(bytes: &Vec<u8>) -> (r: Option<image::ImageFormat>)
    ensures
        r == guessed_format(bytes@),
{
    match image::guess_format(bytes.as_slice()) {
        Ok(format) => Some(format),
        Err(_) => None,
    }
}

/// `image::load_from_memory_with_format`, with the picture converted to
/// 8-bit RGBA by `DynamicImage::to_rgba8`: the picture that the bytes hold,
/// or nothing where the decoder fails. With the format given, the call goes
/// to the decoder that is built in for it and asks no registry, so the
/// outcome depends on the bytes and the format alone. The buffer of a
/// decoded picture holds four samples for each pixel.
#[verifier::external_body]
pub(crate) fn decode_image(bytes: &Vec<u8>, format: image::ImageFormat) -> (r: Option<Raster>)
    ensures
        match r {
            Some(raster) => decoded_image(bytes@, format) == Some(
                (raster.width, raster.height, raster.rgba@),
            ) && raster.wf(),
            None => decoded_image(bytes@, format) is None,
        },
{
    match image::load_from_memory_with_format(bytes.as_slice(), format) {
        Ok(loaded) => {
            let picture = loaded.to_rgba8();
            Some(Raster { width: picture.width(), height: picture.height(), rgba: picture.into_raw() })
        },
        Err(_) => None,
    }
}

/// `DynamicImage::resize` with the Lanczos filter of three lobes, on an
/// 8-bit RGBA picture. The size of what comes back depends on the size of
/// the picture and on the size asked for alone, and there are four samples
/// for each pixel. The filter works in floating point, with a sine whose
/// precision is not fixed, so nothing is claimed of the samples. The filter
/// itself takes any picture; this library hands it opaque pictures only,
/// since paper has no transparency.
#[verifier::external_body]
pub(crate) fn resample(raster: &Raster, width: u32, height: u32) -> (r: Raster)
    requires
        raster.wf(),
        is_opaque(raster@),
    ensures
        r.wf(),
        (r.width, r.height) == resized_size(raster.width, raster.height, width, height),
{
    let source = image::RgbaImage::from_raw(raster.width, raster.height, raster.rgba.clone());
    let scaled = image::DynamicImage::ImageRgba8(source.unwrap()).resize(
        width,
        height,
        image::imageops::FilterType::Lanczos3,
    ).to_rgba8();
    Raster { width: scaled.width(), height: scaled.height(), rgba: scaled.into_raw() }
}

/// The place of the first comma of a text at or after `from`; the length of
/// the text where there is none.
pub open spec fn comma_from(text: Seq<char>, from: int) -> int
    decreases text.len() - from,
{
    if from < 0 || from >= text.len() {
        text.len() as int
    } else if text[from] == ',' {
        from
    } else {
        comma_from(text, from + 1)
    }
}

/// The base64 part of an image text. A text with a comma is taken for a
/// data URL: its base64 part lies between the first comma and the second,
/// or the end. A text without a comma is base64 as a whole.
pub open spec fn payload_text(text: Seq<char>) -> Seq<char> {
    let first = comma_from(text, 0);
    if first >= text.len() {
        text
    } else {
        text.subrange(first + 1, comma_from(text, first + 1))
    }
}

/// The picture that an image text holds: its base64 part decoded to the
/// bytes of a file, the format of the file told from its first bytes, and
/// the file read by the decoder of that format.
pub open spec fn source_picture(text: Seq<char>) -> Result<Picture, DecodeError> {
    match base64_decoded(payload_text(text)) {
        None => Err(DecodeError::Base64),
        Some(bytes) => match guessed_format(bytes) {
            None => Err(DecodeError::Image),
            Some(format) => match decoded_image(bytes, format) {
                None => Err(DecodeError::Image),
                Some(found) => Ok(Picture { width: found.0, height: found.1, data: found.2 }),
            },
        },
    }
}

/// A grey picture in black and white dots, by error diffusion or by the
/// threshold alone.
pub open spec fn binarized(gray: Picture, use_dithering: bool) -> Picture {
    if use_dithering {
        dithered(gray)
    } else {
        thresholded(gray)
    }
}

/// The picture that goes on to be printed: the source where it is no wider
/// than `max_width`, else what scaling has made of it.
pub open spec fn fitted(source: Picture, max_width: u32, scaled: Picture) -> Picture {
    if source.width <= max_width {
        source
    } else {
        scaled
    }
}

/// The size of a picture after it has been scaled to `max_width`: what the
/// filter makes of the width `max_width` and the height that keeps the
/// proportions.
pub open spec fn scaled_size(source: Picture, max_width: u32) -> (u32, u32) {
    resized_size(
        source.width,
        source.height,
        max_width,
        scaled_height(source.width, source.height, max_width) as u32,
    )
}

/// What may stand for the scaled picture of an image text: a picture of
/// four samples to the pixel, and, where the picture of the text is wider
/// than `max_width`, of the size that scaling gives it.
pub open spec fn scaled_for(text: Seq<char>, max_width: u32, scaled: Picture) -> bool {
    &&& scaled.has_channels(4)
    &&& match source_picture(text) {
        Ok(source) => source.width > max_width ==> (scaled.width, scaled.height) == scaled_size(
            source,
            max_width,
        ),
        Err(_) => true,
    }
}

/// A picture of the given size with every sample zero.
pub open spec fn dark_picture(width: u32, height: u32) -> Picture {
    Picture {
        width,
        height,
        data: Seq::new((4 * (width as int * height as int)) as nat, |i: int| 0u8),
    }
}

/// A picture that may stand for the scaled picture of an image text.
pub open spec fn some_scaled(text: Seq<char>, max_width: u32) -> Picture {
    match source_picture(text) {
        Ok(source) => dark_picture(scaled_size(source, max_width).0, scaled_size(source, max_width).1),
        Err(_) => dark_picture(0, 0),
    }
}

/// Whatever the image text, some picture may stand for its scaled picture.
pub proof fn some_scaled_fits(text: Seq<char>, max_width: u32)
    ensures
        scaled_for(text, max_width, some_scaled(text, max_width)),
{
    let picture = some_scaled(text, max_width);
    assert(0 <= picture.width as int * picture.height as int) by (nonlinear_arith)
        requires
            0 <= picture.width as int,
            0 <= picture.height as int,
    ;
}

/// The black and white picture of an image text, given what scaling makes
/// of its picture where that is wider than `max_width`.
pub open spec fn processed(
    text: Seq<char>,
    max_width: u32,
    use_dithering: bool,
    scaled: Picture,
) -> Result<Picture, DecodeError> {
    match source_picture(text) {
        Err(e) => Err(e),
        Ok(source) => Ok(binarized(grayscale(fitted(source, max_width, scaled)), use_dithering)),
    }
}

/// The bytes of a row: one for every eight pixels, and one for what is left.
pub open spec fn stride(width: u32) -> int {
    (width as int + 7) / 8
}

/// `weight` where the picture has a black dot at column `x` of row `y`, and
/// zero where the dot is white or the column lies beyond the picture.
pub open spec fn dot_bit(picture: Picture, x: int, y: int, weight: int) -> int {
    if x < picture.width && picture.data[y * picture.width + x] < THRESHOLD {
        weight
    } else {
        0
    }
}

/// Byte `b` of row `y`: the eight pixels from column `8 b` on, the leftmost
/// in the highest bit, a set bit for a black dot.
pub open spec fn packed_byte(picture: Picture, b: int, y: int) -> u8 {
    (dot_bit(picture, 8 * b, y, 128) + dot_bit(picture, 8 * b + 1, y, 64) + dot_bit(
        picture,
        8 * b + 2,
        y,
        32,
    ) + dot_bit(picture, 8 * b + 3, y, 16) + dot_bit(picture, 8 * b + 4, y, 8) + dot_bit(
        picture,
        8 * b + 5,
        y,
        4,
    ) + dot_bit(picture, 8 * b + 6, y, 2) + dot_bit(picture, 8 * b + 7, y, 1)) as u8
}

/// Row `y` in bytes.
pub open spec fn packed_row(picture: Picture, y: int) -> Seq<u8> {
    Seq::new(stride(picture.width) as nat, |b: int| packed_byte(picture, b, y))
}

/// The first `n` rows in bytes.
pub open spec fn packed_rows(picture: Picture, n: nat) -> Seq<u8>
    decreases n,
{
    if n == 0 {
        Seq::empty()
    } else {
        packed_rows(picture, (n - 1) as nat) + packed_row(picture, n - 1)
    }
}

/// The picture in the form that the printer takes: row after row, each row
/// filled up to whole bytes.
pub open spec fn packed(picture: Picture) -> Seq<u8> {
    packed_rows(picture, picture.height as nat)
}

/// The places of the first comma and of the next one after it.
fn comma_places(text: &str) -> (r: (usize, usize))
    ensures
        r.0 == comma_from(text@, 0),
        r.0 < text@.len() ==> r.1 == comma_from(text@, r.0 + 1),
{
    let count: usize = text.unicode_len();
    let mut first: usize = count;
    let mut second: usize = count;
    let mut found: bool = false;
    let mut closed: bool = false;
    let mut i: usize = 0;
    for c in it: text.chars()
        invariant
            it.seq() == text@,
            count == text@.len(),
            i == it.index(),
            i <= count,
            !closed ==> second == count,
            !found ==> first == count && comma_from(text@, 0) == comma_from(text@, i as int),
            found ==> first < i && first == comma_from(text@, 0),
            found && !closed ==> second == count && comma_from(text@, first + 1) == comma_from(
                text@,
                i as int,
            ),
            closed ==> found && second == comma_from(text@, first + 1),
    {
        if c == ',' {
            if !found {
                first = i;
                found = true;
            } else if !closed {
                second = i;
                closed = true;
            }
        }
        i += 1;
    }
    (first, second)
}

fn dot(picture: &GrayImage, base: usize, x: u64, weight: u8, Ghost(y): Ghost<int>) -> (r: u8)
    requires
        base == y * picture.width,
        base + picture.width <= picture.pixels@.len() <= usize::MAX,
    ensures
        r == dot_bit(picture@, x as int, y, weight as int),
{
    if x < picture.width as u64 {
        if picture.pixels[base + x as usize] < THRESHOLD {
            weight
        } else {
            0
        }
    } else {
        0
    }
}

/// The stages of the image pipeline.
pub struct ImageProcessor;

impl ImageProcessor {
    /// Reads the picture of an image text: base64, with or without the
    /// prefix of a data URL, of an image file.
    pub fn base64_to_image(base64_string: &str) -> (r: Result<Raster, DecodeError>)
        ensures
            match r {
                Ok(raster) => source_picture(base64_string@) == Ok::<Picture, DecodeError>(raster@)
                    && raster.wf(),
                Err(e) => source_picture(base64_string@) == Err::<Picture, DecodeError>(e),
            },
    {
        let count: usize = base64_string.unicode_len();
        let places: (usize, usize) = comma_places(base64_string);
        let decoded = if places.0 >= count {
            decode_base64(base64_string)
        } else {
            proof {
                comma_bounds(base64_string@, places.0 as int + 1);
            }
            decode_base64(base64_string.substring_char(places.0 + 1, places.1))
        };
        let bytes: Vec<u8> = match decoded {
            Some(bytes) => bytes,
            None => {
                return Err(DecodeError::Base64);
            },
        };
        let format = match guess_format(&bytes) {
            Some(format) => format,
            None => {
                return Err(DecodeError::Image);
            },
        };
        match decode_image(&bytes, format) {
            Some(raster) => Ok(raster),
            None => Err(DecodeError::Image),
        }
    }

    /// The size to which a picture is scaled: none where it is no wider
    /// than `max_width`, else `max_width` and the height that keeps the
    /// proportions.
    pub fn resize_target(img: &Raster, max_width: u32) -> (r: Option<(u32, u32)>)
        ensures
            img.width <= max_width ==> r is None,
            img.width > max_width ==> r == Some(
                (max_width, scaled_height(img.width, img.height, max_width) as u32),
            ),
    {
        if img.width <= max_width {
            None
        } else {
            Some((max_width, scale_height(img.width, img.height, max_width)))
        }
    }

    /// Scales a picture that is wider than `max_width`, and copies every
    /// other. A picture that is scaled is set on white paper first, and the
    /// filter is handed the size of `resize_target`; the picture that comes
    /// back has the size that the filter gives for it, and whatever samples
    /// the filter has computed.
    pub fn resize_image(img: &Raster, max_width: u32) -> (r: Raster)
        requires
            img.wf(),
        ensures
            r.wf(),
            img.width <= max_width ==> r@ == img@,
            img.width > max_width ==> (r.width, r.height) == scaled_size(img@, max_width),
    {
        match Self::resize_target(img, max_width) {
            None => img.copy(),
            Some(size) => {
                let flat: Raster = img.flatten();
                proof {
                    flattened_is_opaque(img@);
                }
                resample(&flat, size.0, size.1)
            },
        }
    }

    /// The grey picture of a colour picture.
    pub fn to_grayscale(img: &Raster) -> (r: GrayImage)
        requires
            img.wf(),
        ensures
            r@ == grayscale(img@),
            r.wf(),
    {
        img.to_gray()
    }

    /// Black and white dots by error diffusion.
    pub fn to_binary_with_dithering(grayscale: &GrayImage) -> (r: GrayImage)
        requires
            grayscale.wf(),
        ensures
            r@ == dithered(grayscale@),
            r.wf(),
    {
        grayscale.dither()
    }

    /// Black and white dots by the threshold alone.
    pub fn to_binary_simple(grayscale: &GrayImage) -> (r: GrayImage)
        ensures
            r@ == thresholded(grayscale@),
            grayscale.wf() ==> r.wf(),
    {
        grayscale.threshold()
    }

    /// Packs a picture into the rows of bits that the printer takes.
    pub fn image_to_bytes(binary: &GrayImage) -> (r: Vec<u8>)
        requires
            binary.wf(),
        ensures
            r@ == packed(binary@),
    {
        let w: usize = binary.width as usize;
        let h: usize = binary.height as usize;
        let n: usize = binary.pixels.len();
        let row_bytes: u64 = (binary.width as u64 + 7) / 8;
        let ghost picture = binary@;
        let mut out: Vec<u8> = Vec::new();
        let mut y: usize = 0;
        let mut base: usize = 0;
        proof {
            assert(0 * w == 0) by (nonlinear_arith);
            assert(picture.width * picture.height == h * w) by (nonlinear_arith)
                requires
                    picture.width == w,
                    picture.height == h,
            ;
        }
        while y < h
            invariant
                y <= h,
                w == binary.width,
                h == binary.height,
                picture == binary@,
                n == binary.pixels@.len(),
                n == h * w,
                base == y * w,
                row_bytes == stride(binary.width),
                out@ == packed_rows(picture, y as nat),
            decreases h - y,
        {
            proof {
                row_fits(y as int, w as int, h as int);
            }
            let ghost done = out@;
            let mut b: u64 = 0;
            assert(packed_row(picture, y as int).take(0) =~= Seq::<u8>::empty());
            assert(done + Seq::<u8>::empty() =~= done);
            while b < row_bytes
                invariant
                    b <= row_bytes,
                    row_bytes == stride(binary.width),
                    picture == binary@,
                    base == y * binary.width,
                    base + binary.width <= binary.pixels@.len() <= usize::MAX,
                    out@ == done + packed_row(picture, y as int).take(b as int),
                decreases row_bytes - b,
            {
                let x: u64 = 8 * b;
                let byte: u8 = dot(binary, base, x, 128, Ghost(y as int)) + dot(
                    binary,
                    base,
                    x + 1,
                    64,
                    Ghost(y as int),
                ) + dot(binary, base, x + 2, 32, Ghost(y as int)) + dot(
                    binary,
                    base,
                    x + 3,
                    16,
                    Ghost(y as int),
                ) + dot(binary, base, x + 4, 8, Ghost(y as int)) + dot(
                    binary,
                    base,
                    x + 5,
                    4,
                    Ghost(y as int),
                ) + dot(binary, base, x + 6, 2, Ghost(y as int)) + dot(
                    binary,
                    base,
                    x + 7,
                    1,
                    Ghost(y as int),
                );
                out.push(byte);
                proof {
                    let row = packed_row(picture, y as int);
                    assert(row.take(b as int + 1) =~= row.take(b as int).push(byte));
                    assert(out@ =~= done + row.take(b as int + 1));
                }
                b += 1;
            }
            proof {
                let row = packed_row(picture, y as int);
                assert(row.take(row_bytes as int) =~= row);
            }
            y += 1;
            base += w;
        }
        out
    }

    /// The whole pipeline: reads the picture of an image text, scales it
    /// where it is wider than `max_width`, and turns it into black and white
    /// dots. Where the picture is scaled, the dots are those of whatever
    /// picture the filter has returned, which has the size that scaling
    /// gives.
    pub fn process_image(base64_image: &str, max_width: u32, use_dithering: bool) -> (r: Result<
        GrayImage,
        DecodeError,
    >)
        ensures
            r matches Ok(binary) ==> binary.wf(),
            exists|scaled: Picture| #[trigger]
                scaled_for(base64_image@, max_width, scaled) && (match r {
                    Ok(binary) => Ok::<Picture, DecodeError>(binary@),
                    Err(e) => Err::<Picture, DecodeError>(e),
                }) == processed(base64_image@, max_width, use_dithering, scaled),
    {
        let source: Raster = match Self::base64_to_image(base64_image) {
            Ok(raster) => raster,
            Err(e) => {
                proof {
                    let nothing = some_scaled(base64_image@, max_width);
                    some_scaled_fits(base64_image@, max_width);
                    assert(processed(base64_image@, max_width, use_dithering, nothing) == Err::<
                        Picture,
                        DecodeError,
                    >(e));
                }
                return Err(e);
            },
        };
        let resized: Raster = Self::resize_image(&source, max_width);
        let gray: GrayImage = Self::to_grayscale(&resized);
        let binary: GrayImage = if use_dithering {
            Self::to_binary_with_dithering(&gray)
        } else {
            Self::to_binary_simple(&gray)
        };
        proof {
            assert(scaled_for(base64_image@, max_width, resized@));
            assert(Ok::<Picture, DecodeError>(binary@) == processed(
                base64_image@,
                max_width,
                use_dithering,
                resized@,
            ));
        }
        Ok(binary)
    }
}

/// The same image text always gives the same packed rows: for a picture
/// that is not scaled, the black and white picture, and with it its packed
/// rows, depends on the text, the width and the choice of dithering alone.
/// For a picture that is scaled nothing of the kind is claimed: the filter
/// works in floating point.
pub proof fn packed_rows_depend_on_the_text_alone(
    text: Seq<char>,
    max_width: u32,
    use_dithering: bool,
    first: Picture,
    second: Picture,
)
    requires
        source_picture(text) matches Ok(source) ==> source.width <= max_width,
    ensures
        processed(text, max_width, use_dithering, first) == processed(
            text,
            max_width,
            use_dithering,
            second,
        ),
        processed(text, max_width, use_dithering, first) matches Ok(binary) ==> binary == binarized(
            grayscale(source_picture(text)->Ok_0),
            use_dithering,
        ),
{
}

proof fn comma_bounds(text: Seq<char>, from: int)
    requires
        0 <= from <= text.len(),
    ensures
        from <= comma_from(text, from) <= text.len(),
    decreases text.len() - from,
{
    if from < text.len() && text[from] != ',' {
        comma_bounds(text, from + 1);
    }
}

} // verus!
