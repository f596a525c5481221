//! The sections of a receipt.

use vstd::prelude::*;
use vstd::string::*;

verus! {

/// One section of a receipt.
#[derive(Debug, Clone)]
pub enum PrintSections {
    Title(Title),
    Subtitle(Subtitle),
    Text(Text),
    Feed(Feed),
    Cut(Cut),
    Beep(Beep),
    Drawer(Drawer),
    GlobalStyles(GlobalStyles),
    Qr(Qr),
    Barcode(Barcode),
    Table(Table),
    DataMatrix(DataMatrixModel),
    Pdf417(Pdf417),
    Image(Imagen),
    Logo(Logo),
    Line(Line),
}

/// A heading: printed in double size and centred.
#[derive(Debug, Clone)]
pub struct Title {
    pub text: String,
    pub styles: Option<GlobalStyles>,
}

/// A lesser heading: printed in double height and bold.
#[derive(Debug, Clone)]
pub struct Subtitle {
    pub text: String,
    pub styles: Option<GlobalStyles>,
}

/// A line of text, and a cell of a table.
#[derive(Debug, Clone)]
pub struct Text {
    pub text: String,
    pub styles: Option<GlobalStyles>,
}

/// A paper feed. `feed_type` is "lines", "dots" or "line_feed".
#[derive(Debug, Clone)]
pub struct Feed {
    pub feed_type: String,
    pub value: u8,
}

/// A cut. `mode` is "full", "partial", "partial_alt" or "partial_alt2".
#[derive(Debug, Clone)]
pub struct Cut {
    pub mode: String,
    pub feed: u8,
}

/// A buzzer signal.
#[derive(Debug, Clone, Copy)]
pub struct Beep {
    pub times: u8,
    pub duration: u8,
}

/// A pulse that opens the cash drawer.
#[derive(Debug, Clone, Copy)]
pub struct Drawer {
    pub pin: u8,
    pub pulse_time: u16,
}

/// Text attributes. An attribute that is `None` stands for its default:
/// `false`, font "a", size "normal", alignment "left".
#[derive(Debug, Clone)]
pub struct GlobalStyles {
    pub bold: Option<bool>,
    pub underline: Option<bool>,
    /// "left", "center" or "right", in any case.
    pub align: Option<String>,
    pub italic: Option<bool>,
    pub invert: Option<bool>,
    /// "a", "b" or "c", in any case.
    pub font: Option<String>,
    pub rotate: Option<bool>,
    pub upside_down: Option<bool>,
    /// "normal", "width", "height" or "double", in any case.
    pub size: Option<String>,
}

impl Default for GlobalStyles {
    /// Every attribute set to its default.
    fn default() -> (r: Self)
        ensures
            r.bold == Some(false),
            r.underline == Some(false),
            r.italic == Some(false),
            r.invert == Some(false),
            r.rotate == Some(false),
            r.upside_down == Some(false),
            r.align matches Some(s) && s@ == "left"@,
            r.font matches Some(s) && s@ == "A"@,
            r.size matches Some(s) && s@ == "normal"@,
    {
        GlobalStyles {
            bold: Some(false),
            underline: Some(false),
            align: Some("left".to_owned()),
            italic: Some(false),
            invert: Some(false),
            font: Some("A".to_owned()),
            rotate: Some(false),
            upside_down: Some(false),
            size: Some("normal".to_owned()),
        }
    }
}

/// A table of text cells.
#[derive(Debug, Clone)]
pub struct Table {
    /// The number of columns. A table with none prints nothing.
    pub columns: u8,
    /// The width of each column. Where there is not one width for each
    /// column, the columns share the paper width equally.
    pub column_widths: Option<Vec<u8>>,
    pub header: Option<Vec<Text>>,
    pub body: Vec<Vec<Text>>,
    /// Cut each cell at its column width; otherwise cells wrap.
    pub truncate: bool,
}

/// A QR code.
#[derive(Debug, Clone)]
pub struct Qr {
    pub data: String,
    /// The module size, 1 to 16.
    pub size: u8,
    /// "L", "M", "Q" or "H".
    pub error_correction: String,
    pub model: u8,
    /// "left", "center" or "right"; `None` keeps the alignment in force.
    pub align: Option<String>,
}

/// A barcode.
#[derive(Debug, Clone)]
pub struct Barcode {
    pub data: String,
    /// "UPC-A", "UPC-E", "EAN13", "EAN8", "CODE39", "ITF", "CODABAR",
    /// "CODE93" or "CODE128".
    pub barcode_type: String,
    pub width: u8,
    pub height: u8,
    /// "none", "above", "below" or "both".
    pub text_position: String,
}

/// A DataMatrix code.
#[derive(Debug, Clone)]
pub struct DataMatrixModel {
    pub data: String,
    /// The module size, 1 to 16.
    pub size: u8,
}

/// A PDF417 code.
#[derive(Debug, Clone)]
pub struct Pdf417 {
    pub data: String,
    pub columns: u8,
    pub rows: u8,
    pub width: u8,
    pub height: u8,
    pub error_correction: u8,
}

/// An image, held as base64 text, with or without a data-URL prefix.
#[derive(Debug, Clone)]
pub struct Imagen {
    pub data: String,
    /// The widest the image may print, in dots. A width that is not positive
    /// or is wider than the paper stands for the paper width.
    pub max_width: i32,
    /// "left", "center" or "right".
    pub align: String,
    pub dithering: bool,
    /// "normal", "double_width", "double_height" or "quadruple".
    pub size: String,
}

/// A logo stored in the printer.
#[derive(Debug, Clone)]
pub struct Logo {
    pub key_code: u8,
    /// "normal", "double_width", "double_height" or "quadruple".
    pub mode: String,
}

/// A horizontal rule made of one repeated character.
#[derive(Debug, Clone)]
pub struct Line {
    pub character: String,
}

} // verus!
