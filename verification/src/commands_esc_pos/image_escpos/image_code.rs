//! The command that prints a raster image (GS v 0).

use vstd::prelude::*;
use vstd::string::*;
use crate::bytes::{append_bytes, high_byte, low_byte, low_two_bytes};
use crate::commands_esc_pos::image_escpos::image_processor::{
    packed, processed, scaled_for, stride, ImageProcessor,
};
use crate::commands_esc_pos::image_escpos::raster::{GrayImage, Picture};
use crate::error::EncodeError;

verus! {

/// Where an image stands on the line.
#[derive(Debug, Clone, Copy, PartialEq, Eq, Structural)]
pub enum ImageAlignment {
    Left,
    Center,
    Right,
}

impl ImageAlignment {
    /// The number that selects the alignment.
    pub open spec fn code(self) -> u8 {
        match self {
            ImageAlignment::Left => 0,
            ImageAlignment::Center => 1,
            ImageAlignment::Right => 2,
        }
    }

    /// The number that selects the alignment.
    pub fn value(&self) -> (r: u8)
        ensures
            r == self.code(),
    {
        match self {
            ImageAlignment::Left => 0,
            ImageAlignment::Center => 1,
            ImageAlignment::Right => 2,
        }
    }
}

/// The scale at which an image prints.
#[derive(Debug, Clone, Copy, PartialEq, Eq, Structural)]
pub enum ImageMode {
    Normal,
    DoubleWidth,
    DoubleHeight,
    Quadruple,
}

impl ImageMode {
    /// The number that selects the scale.
    pub open spec fn code(self) -> u8 {
        match self {
            ImageMode::Normal => 0,
            ImageMode::DoubleWidth => 1,
            ImageMode::DoubleHeight => 2,
            ImageMode::Quadruple => 3,
        }
    }

    /// The number that selects the scale.
    pub fn value(&self) -> (r: u8)
        ensures
            r == self.code(),
    {
        match self {
            ImageMode::Normal => 0,
            ImageMode::DoubleWidth => 1,
            ImageMode::DoubleHeight => 2,
            ImageMode::Quadruple => 3,
        }
    }
}

/// An image to print.
#[derive(Debug, Clone)]
pub struct Image {
    /// The image file as base64 text, with or without the prefix of a data
    /// URL.
    pub base64_image: String,
    pub alignment: ImageAlignment,
    pub mode: ImageMode,
    /// The widest that the image may print, in dots.
    pub max_width: u32,
    pub use_dithering: bool,
}

/// The size of a picture as the printer reads it: the bytes of a row and
/// the number of rows, each in two bytes with the low byte first. What does
/// not fit two bytes is dropped.
pub open spec fn size_bytes(width: u32, height: u32) -> Seq<u8> {
    seq![
        low_byte(stride(width)),
        high_byte(stride(width)),
        low_byte(height as int),
        high_byte(height as int),
    ]
}

/// The commands that print a picture of black and white dots: the
/// alignment, the raster command with the scale, the size and the packed
/// rows, and the return to the left margin.
pub open spec fn raster_command(
    alignment: ImageAlignment,
    mode: ImageMode,
    binary: Picture,
) -> Seq<u8> {
    seq![0x1Bu8, 0x61u8, alignment.code()] + seq![0x1Du8, 0x76u8, 0x00u8, mode.code()]
        + size_bytes(binary.width, binary.height) + packed(binary) + seq![0x1Bu8, 0x61u8, 0x00u8]
}

/// The size of a picture as the printer reads it.
pub fn picture_size(width: u32, height: u32) -> (r: Vec<u8>)
    ensures
        r@ == size_bytes(width, height),
{
    let row_bytes: u32 = ((width as u64 + 7) / 8) as u32;
    let x: (u8, u8) = low_two_bytes(row_bytes);
    let y: (u8, u8) = low_two_bytes(height);
    vec![x.0, x.1, y.0, y.1]
}

impl Image {
    /// The commands of this image, given what scaling makes of its picture
    /// where that is wider than `max_width`.
    pub open spec fn command(self, scaled: Picture) -> Result<Seq<u8>, EncodeError> {
        match processed(self.base64_image@, self.max_width, self.use_dithering, scaled) {
            Err(e) => Err(EncodeError::Decode(e)),
            Ok(binary) => Ok(raster_command(self.alignment, self.mode, binary)),
        }
    }

    /// An image that prints centred, at its own scale, with error diffusion.
    /// This never fails.
    pub fn new(base64_image: &str, max_width: u32) -> (r: Result<Self, String>)
        ensures
            r matches Ok(image) && image.base64_image@ == base64_image@ && image.alignment
                == ImageAlignment::Center && image.mode == ImageMode::Normal && image.max_width
                == max_width && image.use_dithering,
    {
        Ok(
            Image {
                base64_image: base64_image.to_owned(),
                alignment: ImageAlignment::Center,
                mode: ImageMode::Normal,
                max_width,
                use_dithering: true,
            },
        )
    }

    /// Sets where the image stands on the line.
    pub fn set_alignment(self, alignment: ImageAlignment) -> (r: Self)
        ensures
            r == (Image { alignment, ..self }),
    {
        let mut image = self;
        image.alignment = alignment;
        image
    }

    /// Sets the scale.
    pub fn set_mode(self, mode: ImageMode) -> (r: Self)
        ensures
            r == (Image { mode, ..self }),
    {
        let mut image = self;
        image.mode = mode;
        image
    }

    /// Chooses between error diffusion and the threshold alone.
    pub fn set_use_dithering(self, use_dithering: bool) -> (r: Self)
        ensures
            r == (Image { use_dithering, ..self }),
    {
        let mut image = self;
        image.use_dithering = use_dithering;
        image
    }

    /// The commands that print a picture of black and white dots with the
    /// alignment and the scale of this image.
    pub fn command_for(&self, binary: &GrayImage) -> (r: Vec<u8>)
        requires
            binary.wf(),
        ensures
            r@ == raster_command(self.alignment, self.mode, binary@),
    {
        let mut output: Vec<u8> = vec![0x1B, 0x61, self.alignment.value()];
        append_bytes(&mut output, &vec![0x1D, 0x76, 0x00, self.mode.value()]);
        append_bytes(&mut output, &picture_size(binary.width, binary.height));
        append_bytes(&mut output, &ImageProcessor::image_to_bytes(binary));
        append_bytes(&mut output, &vec![0x1B, 0x61, 0x00]);
        output
    }

    /// The commands that print the image. They fail where the text holds no
    /// picture. Where the picture is wider than `max_width` it is scaled,
    /// and the commands are those of whatever picture the filter returns,
    /// which has the size that scaling gives.
    pub fn get_command(&self) -> (r: Result<Vec<u8>, EncodeError>)
        ensures
            exists|scaled: Picture| #[trigger]
                scaled_for(self.base64_image@, self.max_width, scaled) && (match r {
                    Ok(bytes) => Ok::<Seq<u8>, EncodeError>(bytes@),
                    Err(e) => Err::<Seq<u8>, EncodeError>(e),
                }) == self.command(scaled),
    {
        let processed = ImageProcessor::process_image(
            self.base64_image.as_str(),
            self.max_width,
            self.use_dithering,
        );
        match processed {
            Ok(binary) => Ok(self.command_for(&binary)),
            Err(e) => Err(EncodeError::Decode(e)),
        }
    }
}

} // verus!
