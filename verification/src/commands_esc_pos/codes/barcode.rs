//! One-dimensional barcodes (GS h, GS w, GS H, GS k).

use vstd::prelude::*;
use vstd::string::*;
use crate::error::{EncodeError, ValidationError};
use crate::strings::{utf8, utf8_bytes};

verus! {

/// The symbologies that the printer knows.
#[derive(Debug, Clone, Copy, PartialEq, Eq, Structural)]
pub enum BarcodeType {
    UpcA,
    UpcE,
    Ean13,
    Ean8,
    Code39,
    Itf,
    Codabar,
    Code93,
    Code128,
}

impl BarcodeType {
    /// The number that selects the symbology in the print command.
    pub open spec fn code(self) -> u8 {
        match self {
            BarcodeType::UpcA => 65,
            BarcodeType::UpcE => 66,
            BarcodeType::Ean13 => 67,
            BarcodeType::Ean8 => 68,
            BarcodeType::Code39 => 69,
            BarcodeType::Itf => 70,
            BarcodeType::Codabar => 71,
            BarcodeType::Code93 => 72,
            BarcodeType::Code128 => 73,
        }
    }

    /// The number that selects the symbology in the print command.
    pub fn value(&self) -> (r: u8)
        ensures
            r == self.code(),
    {
        match self {
            BarcodeType::UpcA => 65,
            BarcodeType::UpcE => 66,
            BarcodeType::Ean13 => 67,
            BarcodeType::Ean8 => 68,
            BarcodeType::Code39 => 69,
            BarcodeType::Itf => 70,
            BarcodeType::Codabar => 71,
            BarcodeType::Code93 => 72,
            BarcodeType::Code128 => 73,
        }
    }
}

/// Where the readable text of a barcode is printed.
#[derive(Debug, Clone, Copy, PartialEq, Eq, Structural)]
pub enum BarcodeTextPosition {
    NotPrinted,
    Above,
    Below,
    Both,
}

impl BarcodeTextPosition {
    /// The number that selects the position.
    pub open spec fn code(self) -> u8 {
        match self {
            BarcodeTextPosition::NotPrinted => 0,
            BarcodeTextPosition::Above => 1,
            BarcodeTextPosition::Below => 2,
            BarcodeTextPosition::Both => 3,
        }
    }

    /// The number that selects the position.
    pub fn value(&self) -> (r: u8)
        ensures
            r == self.code(),
    {
        match self {
            BarcodeTextPosition::NotPrinted => 0,
            BarcodeTextPosition::Above => 1,
            BarcodeTextPosition::Below => 2,
            BarcodeTextPosition::Both => 3,
        }
    }
}

/// The longest data that the one length byte of the print command can frame.
pub const MAX_BARCODE_DATA: usize = 255;

/// A barcode to print.
#[derive(Debug, Clone)]
pub struct Barcode {
    pub barcode_type: BarcodeType,
    pub data: String,
    /// The height of the bars in dots.
    pub height: u8,
    /// The width of a module, 2 to 6.
    pub width: u8,
    pub text_position: BarcodeTextPosition,
}

/// The commands that print a barcode: height, module width, text position,
/// then the symbology, the length of the data in one byte, and the data.
pub open spec fn barcode_bytes(
    kind: BarcodeType,
    data: Seq<u8>,
    height: u8,
    width: u8,
    position: BarcodeTextPosition,
) -> Seq<u8> {
    seq![
        0x1Du8,
        0x68u8,
        height,
        0x1Du8,
        0x77u8,
        width,
        0x1Du8,
        0x48u8,
        position.code(),
        0x1Du8,
        0x6Bu8,
        kind.code(),
        data.len() as u8,
    ] + data
}

impl Barcode {
    /// The module width lies in the range that the printer takes.
    pub open spec fn wf(self) -> bool {
        2 <= self.width <= 6
    }

    /// The bytes that print this barcode.
    pub open spec fn bytes(self) -> Seq<u8> {
        barcode_bytes(
            self.barcode_type,
            utf8(self.data@),
            self.height,
            self.width,
            self.text_position,
        )
    }

    /// A barcode of the given symbology and data, 162 dots high, with
    /// modules 3 dots wide and the text below the bars.
    pub fn new(barcode_type: BarcodeType, data: String) -> (r: Self)
        ensures
            r == (Barcode {
                barcode_type,
                data,
                height: 162,
                width: 3,
                text_position: BarcodeTextPosition::Below,
            }),
            r.wf(),
    {
        Barcode { barcode_type, data, height: 162, width: 3, text_position: BarcodeTextPosition::Below }
    }

    /// Sets the height of the bars in dots.
    pub fn set_height(self, height: u8) -> (r: Self)
        ensures
            r == (Barcode { height, ..self }),
    {
        let mut barcode = self;
        barcode.height = height;
        barcode
    }

    /// Sets the module width where it lies between 2 and 6, and keeps the
    /// width that was set before where it does not.
    pub fn set_width(self, width: u8) -> (r: Self)
        ensures
            2 <= width <= 6 ==> r == (Barcode { width, ..self }),
            !(2 <= width <= 6) ==> r == self,
            self.wf() ==> r.wf(),
    {
        let mut barcode = self;
        if 2 <= width && width <= 6 {
            barcode.width = width;
        }
        barcode
    }

    /// Sets where the readable text is printed.
    pub fn set_text_position(self, position: BarcodeTextPosition) -> (r: Self)
        ensures
            r == (Barcode { text_position: position, ..self }),
    {
        let mut barcode = self;
        barcode.text_position = position;
        barcode
    }

    /// The commands that print the barcode. Data of more than 255 bytes do
    /// not fit the length byte and are refused.
    pub fn get_command(&self) -> (r: Result<Vec<u8>, EncodeError>)
        ensures
            match r {
                Ok(bytes) => utf8(self.data@).len() <= MAX_BARCODE_DATA && bytes@ == self.bytes(),
                Err(e) => utf8(self.data@).len() > MAX_BARCODE_DATA && e == EncodeError::Validation(
                    ValidationError::PayloadTooLong,
                ),
            },
    {
        let data: Vec<u8> = utf8_bytes(self.data.as_str());
        if data.len() > MAX_BARCODE_DATA {
            return Err(EncodeError::Validation(ValidationError::PayloadTooLong));
        }
        let mut output: Vec<u8> = vec![
            0x1D,
            0x68,
            self.height,
            0x1D,
            0x77,
            self.width,
            0x1D,
            0x48,
            self.text_position.value(),
            0x1D,
            0x6B,
            self.barcode_type.value(),
            data.len() as u8,
        ];
        output.extend_from_slice(data.as_slice());
        Ok(output)
    }
}

} // verus!
