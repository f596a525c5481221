//! Logos kept in the printer's own memory (FS p, FS q).

use vstd::prelude::*;
use vstd::string::*;
use crate::commands_esc_pos::image_escpos::image_code::{picture_size, size_bytes, ImageMode};
use crate::commands_esc_pos::image_escpos::image_processor::{
    packed, processed, scaled_for, ImageProcessor,
};
use crate::commands_esc_pos::image_escpos::raster::Picture;
use crate::error::EncodeError;

verus! {

/// A logo in the printer's memory, known by its key.
#[derive(Debug, Clone, Copy, PartialEq, Eq, Structural)]
pub struct Logo {
    pub key_code: u8,
    pub mode: ImageMode,
}

/// The command that stores a picture under a key: the key, the size, and
/// the packed rows.
pub open spec fn define_bytes(key_code: u8, image_data: Seq<u8>, width: u32, height: u32) -> Seq<
    u8,
> {
    seq![0x1Cu8, 0x71u8, key_code] + size_bytes(width, height) + image_data
}

/// The command that stores the picture of an image text, given what scaling
/// makes of the picture where that is wider than `max_width`.
pub open spec fn define_from_text(
    key_code: u8,
    text: Seq<char>,
    max_width: u32,
    use_dithering: bool,
    scaled: Picture,
) -> Result<Seq<u8>, EncodeError> {
    match processed(text, max_width, use_dithering, scaled) {
        Err(e) => Err(EncodeError::Decode(e)),
        Ok(binary) => Ok(define_bytes(key_code, packed(binary), binary.width, binary.height)),
    }
}

impl Logo {
    /// The logo stored under `key_code`, at its own scale.
    pub fn new(key_code: u8) -> (r: Self)
        ensures
            r == (Logo { key_code, mode: ImageMode::Normal }),
    {
        Logo { key_code, mode: ImageMode::Normal }
    }

    /// Sets the scale at which the logo prints.
    pub fn set_mode(self, mode: ImageMode) -> (r: Self)
        ensures
            r == (Logo { mode, ..self }),
    {
        Logo { key_code: self.key_code, mode }
    }

    /// The command that prints the logo (FS p n m).
    pub fn get_print_command(&self) -> (r: Vec<u8>)
        ensures
            r@ == seq![0x1Cu8, 0x70u8, self.key_code, self.mode.code()],
    {
        vec![0x1C, 0x70, self.key_code, self.mode.value()]
    }

    /// The command that stores packed rows as the logo of a key (FS q n).
    pub fn get_define_command(key_code: u8, image_data: &[u8], width: u32, height: u32) -> (r: Vec<
        u8,
    >)
        ensures
            r@ == define_bytes(key_code, image_data@, width, height),
    {
        let mut output: Vec<u8> = vec![0x1C, 0x71, key_code];
        let size: Vec<u8> = picture_size(width, height);
        output.extend_from_slice(size.as_slice());
        output.extend_from_slice(image_data);
        output
    }

    /// The command that stores the picture of an image text as the logo of a
    /// key. It fails where the text holds no picture. Where the picture is
    /// wider than `max_width` it is scaled, and the command is that of
    /// whatever picture the filter returns.
    pub fn define_from_base64(
        key_code: u8,
        base64_image: &str,
        max_width: u32,
        use_dithering: bool,
    ) -> (r: Result<Vec<u8>, EncodeError>)
        ensures
            exists|scaled: Picture| #[trigger]
                scaled_for(base64_image@, max_width, scaled) && (match r {
                    Ok(bytes) => Ok::<Seq<u8>, EncodeError>(bytes@),
                    Err(e) => Err::<Seq<u8>, EncodeError>(e),
                }) == define_from_text(key_code, base64_image@, max_width, use_dithering, scaled),
    {
        match ImageProcessor::process_image(base64_image, max_width, use_dithering) {
            Ok(binary) => {
                let data: Vec<u8> = ImageProcessor::image_to_bytes(&binary);
                Ok(Self::get_define_command(key_code, data.as_slice(), binary.width, binary.height))
            },
            Err(e) => Err(EncodeError::Decode(e)),
        }
    }

    /// The command that removes the logo of a key.
    pub fn get_delete_command(key_code: u8) -> (r: Vec<u8>)
        ensures
            r@ == seq![0x1Cu8, 0x71u8, key_code, 0x00u8],
    {
        vec![0x1C, 0x71, key_code, 0x00]
    }

    /// The command that removes every logo.
    pub fn get_delete_all_command() -> (r: Vec<u8>)
        ensures
            r@ == seq![0x1Cu8, 0x71u8, 0x00u8],
    {
        vec![0x1C, 0x71, 0x00]
    }

    /// The key of the logo.
    pub fn key_code(&self) -> (r: u8)
        ensures
            r == self.key_code,
    {
        self.key_code
    }

    /// The scale at which the logo prints.
    pub fn mode(&self) -> (r: ImageMode)
        ensures
            r == self.mode,
    {
        self.mode
    }
}

} // verus!
