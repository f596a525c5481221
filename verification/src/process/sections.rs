//! What each section of a receipt prints, as a statement over bytes.

use vstd::prelude::*;
use vstd::string::*;
use crate::bytes::repeat_byte;
use crate::commands_esc_pos::codes::barcode::{
    barcode_bytes, BarcodeTextPosition, BarcodeType, MAX_BARCODE_DATA,
};
use crate::commands_esc_pos::codes::data_matrix::{data_matrix_bytes, DataMatrixSize};
use crate::commands_esc_pos::codes::framing::MAX_CODE_DATA;
use crate::commands_esc_pos::codes::pdf417::{pdf417_bytes, PDF417ErrorCorrection};
use crate::commands_esc_pos::codes::qr::{qr_bytes, QRErrorCorrection, QRModel, QRSize};
use crate::commands_esc_pos::control::printer_control::{
    beep_bytes, cut_bytes, drawer_bytes, feed_bytes,
};
use crate::commands_esc_pos::image_escpos::image_code::{
    raster_command, ImageAlignment, ImageMode,
};
use crate::commands_esc_pos::image_escpos::image_processor::{
    dark_picture, processed, scaled_for, some_scaled, some_scaled_fits, source_picture,
};
use crate::commands_esc_pos::image_escpos::raster::Picture;
use crate::commands_esc_pos::text::table::table_bytes;
use crate::error::{EncodeError, ValidationError};
use crate::models::paper_size::PaperSize;
use crate::models::print_job_request::PrintJobRequest;
use crate::models::print_sections::{
    Barcode, Beep, Cut, DataMatrixModel, Drawer, Feed, GlobalStyles, Imagen, Line, Logo, Pdf417,
    PrintSections, Qr, Subtitle, Text, Title,
};
use crate::models::printer_options::PrinterOptions;
use crate::process::styles::{
    align_of, default_style, resolved, style_diff, AlignKind, FontKind, ResolvedStyle, SizeKind,
};
use crate::strings::utf8;

verus! {

/// A character of running text as it is sent to the printer: the Spanish
/// accented vowels, the u with diaeresis and the n with tilde lose their
/// mark and keep their case, and the inverted marks become `?` and `!`.
pub open spec fn plain_char(c: char) -> char {
    if c == 'á' {
        'a'
    } else if c == 'Á' {
        'A'
    } else if c == 'é' {
        'e'
    } else if c == 'É' {
        'E'
    } else if c == 'í' {
        'i'
    } else if c == 'Í' {
        'I'
    } else if c == 'ó' {
        'o'
    } else if c == 'Ó' {
        'O'
    } else if c == 'ú' || c == 'ü' {
        'u'
    } else if c == 'Ú' || c == 'Ü' {
        'U'
    } else if c == 'ñ' {
        'n'
    } else if c == 'Ñ' {
        'N'
    } else if c == '¿' {
        '?'
    } else if c == '¡' {
        '!'
    } else {
        c
    }
}

/// Running text as it is sent to the printer.
pub open spec fn plain_text(text: Seq<char>) -> Seq<char> {
    text.map_values(|c: char| plain_char(c))
}

/// A line of text in style `effective` on a printer whose style is
/// `current`: the commands that lead to the style, the text, a line feed,
/// and the commands that lead back.
pub open spec fn styled_line(current: ResolvedStyle, effective: ResolvedStyle, text: Seq<char>) -> Seq<
    u8,
> {
    style_diff(current, effective) + utf8(plain_text(text)) + seq![0x0Au8] + style_diff(
        effective,
        current,
    )
}

/// The style that a section starts from: its own where it has one, else the
/// style in force.
pub open spec fn base_style(styles: Option<GlobalStyles>, current: ResolvedStyle) -> ResolvedStyle {
    match styles {
        Some(own) => resolved(own),
        None => current,
    }
}

/// The style of a title: double size and centred, whatever it starts from.
pub open spec fn title_style(base: ResolvedStyle) -> ResolvedStyle {
    ResolvedStyle { size: SizeKind::Double, align: AlignKind::Center, ..base }
}

/// The style of a subtitle: double height and bold, whatever it starts from.
pub open spec fn subtitle_style(base: ResolvedStyle) -> ResolvedStyle {
    ResolvedStyle { size: SizeKind::Height, bold: true, ..base }
}

/// What a feed section prints.
pub open spec fn feed_section(feed: Feed) -> Result<Seq<u8>, EncodeError> {
    if feed.feed_type@ == "lines"@ {
        Ok(feed_bytes(feed.value))
    } else if feed.feed_type@ == "dots"@ {
        Ok(seq![0x1Bu8, 0x4Au8, feed.value])
    } else if feed.feed_type@ == "line_feed"@ {
        Ok(repeat_byte(0x0A, feed.value as nat))
    } else {
        Err(EncodeError::Validation(ValidationError::UnknownFeedType))
    }
}

/// The mode byte of a cut: 66 for "full" and "partial_alt2", 65 for every
/// other name.
pub open spec fn cut_mode(name: Seq<char>) -> u8 {
    if name == "full"@ || name == "partial_alt2"@ {
        66
    } else {
        65
    }
}

/// What a cut section prints: the cut, or eight line feeds where the job
/// does not cut.
pub open spec fn cut_section(options: PrinterOptions, cut: Cut) -> Seq<u8> {
    if !options.cut_paper {
        repeat_byte(0x0A, 8)
    } else {
        cut_bytes(cut_mode(cut.mode@), cut.feed)
    }
}

/// What a buzzer section prints: nothing where the job is silent; else the
/// signal, with a count of 0 taken for 1 and a duration of 0 for 100.
pub open spec fn beep_section(options: PrinterOptions, beep: Beep) -> Seq<u8> {
    if !options.beep {
        Seq::empty()
    } else {
        beep_bytes(
            if beep.times == 0 { 1u8 } else { beep.times },
            if beep.duration == 0 { 100u8 } else { beep.duration },
        )
    }
}

/// What a drawer section prints: a pulse on pin 2 where it names pin 2, on
/// pin 5 for every other number.
pub open spec fn drawer_section(drawer: Drawer) -> Seq<u8> {
    drawer_bytes(if drawer.pin == 2 { 0x00u8 } else { 0x01u8 }, drawer.pulse_time)
}

/// The symbology that a name stands for; Code 128 for a name that is not
/// known.
pub open spec fn barcode_type_named(name: Seq<char>) -> BarcodeType {
    if name == "UPC-A"@ {
        BarcodeType::UpcA
    } else if name == "UPC-E"@ {
        BarcodeType::UpcE
    } else if name == "EAN13"@ {
        BarcodeType::Ean13
    } else if name == "EAN8"@ {
        BarcodeType::Ean8
    } else if name == "CODE39"@ {
        BarcodeType::Code39
    } else if name == "ITF"@ {
        BarcodeType::Itf
    } else if name == "CODABAR"@ {
        BarcodeType::Codabar
    } else if name == "CODE93"@ {
        BarcodeType::Code93
    } else {
        BarcodeType::Code128
    }
}

/// The text position that a name stands for; no text for a name that is not
/// known.
pub open spec fn text_position_named(name: Seq<char>) -> BarcodeTextPosition {
    if name == "above"@ {
        BarcodeTextPosition::Above
    } else if name == "below"@ {
        BarcodeTextPosition::Below
    } else if name == "both"@ {
        BarcodeTextPosition::Both
    } else {
        BarcodeTextPosition::NotPrinted
    }
}

/// What a barcode section prints: the barcode, with a module width outside
/// 2 to 6 taken for 3, and a line feed.
pub open spec fn barcode_section(barcode: Barcode) -> Result<Seq<u8>, EncodeError> {
    if utf8(barcode.data@).len() > MAX_BARCODE_DATA {
        Err(EncodeError::Validation(ValidationError::PayloadTooLong))
    } else {
        Ok(
            barcode_bytes(
                barcode_type_named(barcode.barcode_type@),
                utf8(barcode.data@),
                barcode.height,
                if 2 <= barcode.width <= 6 { barcode.width } else { 3u8 },
                text_position_named(barcode.text_position@),
            ) + seq![0x0Au8],
        )
    }
}

/// The module size of a number; 6 dots for a number outside 1 to 16.
pub open spec fn qr_size_of(size: u8) -> QRSize {
    match size {
        1 => QRSize::Size1,
        2 => QRSize::Size2,
        3 => QRSize::Size3,
        4 => QRSize::Size4,
        5 => QRSize::Size5,
        6 => QRSize::Size6,
        7 => QRSize::Size7,
        8 => QRSize::Size8,
        9 => QRSize::Size9,
        10 => QRSize::Size10,
        11 => QRSize::Size11,
        12 => QRSize::Size12,
        13 => QRSize::Size13,
        14 => QRSize::Size14,
        15 => QRSize::Size15,
        16 => QRSize::Size16,
        _ => QRSize::Size6,
    }
}

/// The error correction level of a letter; M for a name that is not known.
pub open spec fn qr_level_named(name: Seq<char>) -> QRErrorCorrection {
    if name == "L"@ {
        QRErrorCorrection::L
    } else if name == "Q"@ {
        QRErrorCorrection::Q
    } else if name == "H"@ {
        QRErrorCorrection::H
    } else {
        QRErrorCorrection::M
    }
}

/// The style in which a QR code prints: the style in force, with the
/// alignment of the section where it names one.
pub open spec fn qr_style(current: ResolvedStyle, qr: Qr) -> ResolvedStyle {
    match qr.align {
        Some(name) => ResolvedStyle { align: align_of(Some(name)), ..current },
        None => current,
    }
}

/// What a QR section prints: the commands that lead to its alignment, the
/// code, a line feed, and the commands that lead back.
pub open spec fn qr_section(current: ResolvedStyle, qr: Qr) -> Result<Seq<u8>, EncodeError> {
    if utf8(qr.data@).len() > MAX_CODE_DATA {
        Err(EncodeError::Validation(ValidationError::PayloadTooLong))
    } else {
        Ok(
            style_diff(current, qr_style(current, qr)) + qr_bytes(
                if qr.model == 1 { QRModel::Model1 } else { QRModel::Model2 },
                qr_size_of(qr.size),
                qr_level_named(qr.error_correction@),
                utf8(qr.data@),
            ) + seq![0x0Au8] + style_diff(qr_style(current, qr), current),
        )
    }
}

/// The error correction level of a number; level 1 for a number above 8.
pub open spec fn pdf417_level_of(level: u8) -> PDF417ErrorCorrection {
    match level {
        0 => PDF417ErrorCorrection::Level0,
        1 => PDF417ErrorCorrection::Level1,
        2 => PDF417ErrorCorrection::Level2,
        3 => PDF417ErrorCorrection::Level3,
        4 => PDF417ErrorCorrection::Level4,
        5 => PDF417ErrorCorrection::Level5,
        6 => PDF417ErrorCorrection::Level6,
        7 => PDF417ErrorCorrection::Level7,
        8 => PDF417ErrorCorrection::Level8,
        _ => PDF417ErrorCorrection::Level1,
    }
}

/// What a PDF417 section prints: the code, with each setting outside its
/// range taken for its default, and a line feed.
pub open spec fn pdf417_section(code: Pdf417) -> Result<Seq<u8>, EncodeError> {
    if utf8(code.data@).len() > MAX_CODE_DATA {
        Err(EncodeError::Validation(ValidationError::PayloadTooLong))
    } else {
        Ok(
            pdf417_bytes(
                if code.columns <= 30 { code.columns } else { 0u8 },
                if code.rows == 0 || 3 <= code.rows <= 90 { code.rows } else { 0u8 },
                if 2 <= code.width <= 8 { code.width } else { 3u8 },
                if 2 <= code.height <= 8 { code.height } else { 3u8 },
                pdf417_level_of(code.error_correction),
                utf8(code.data@),
            ) + seq![0x0Au8],
        )
    }
}

/// The module size of a number; 6 dots for a number outside 1 to 16.
pub open spec fn data_matrix_size_of(size: u8) -> DataMatrixSize {
    match size {
        1 => DataMatrixSize::Size1,
        2 => DataMatrixSize::Size2,
        3 => DataMatrixSize::Size3,
        4 => DataMatrixSize::Size4,
        5 => DataMatrixSize::Size5,
        6 => DataMatrixSize::Size6,
        7 => DataMatrixSize::Size7,
        8 => DataMatrixSize::Size8,
        9 => DataMatrixSize::Size9,
        10 => DataMatrixSize::Size10,
        11 => DataMatrixSize::Size11,
        12 => DataMatrixSize::Size12,
        13 => DataMatrixSize::Size13,
        14 => DataMatrixSize::Size14,
        15 => DataMatrixSize::Size15,
        16 => DataMatrixSize::Size16,
        _ => DataMatrixSize::Size6,
    }
}

/// What a DataMatrix section prints: the code and a line feed.
pub open spec fn data_matrix_section(code: DataMatrixModel) -> Result<Seq<u8>, EncodeError> {
    if utf8(code.data@).len() > MAX_CODE_DATA {
        Err(EncodeError::Validation(ValidationError::PayloadTooLong))
    } else {
        Ok(data_matrix_bytes(data_matrix_size_of(code.size), utf8(code.data@)) + seq![0x0Au8])
    }
}

/// The alignment of an image that a name stands for; the centre for a name
/// that is not known.
pub open spec fn image_alignment_named(name: Seq<char>) -> ImageAlignment {
    if name == "left"@ {
        ImageAlignment::Left
    } else if name == "right"@ {
        ImageAlignment::Right
    } else {
        ImageAlignment::Center
    }
}

/// The scale of an image that a name stands for; its own scale for a name
/// that is not known.
pub open spec fn image_mode_named(name: Seq<char>) -> ImageMode {
    if name == "double_width"@ {
        ImageMode::DoubleWidth
    } else if name == "double_height"@ {
        ImageMode::DoubleHeight
    } else if name == "quadruple"@ {
        ImageMode::Quadruple
    } else {
        ImageMode::Normal
    }
}

/// The widest that an image may print: what the section asks for, where
/// that is positive and no wider than the paper, else the paper width.
pub open spec fn image_max_width(paper: PaperSize, imagen: Imagen) -> u32 {
    if imagen.max_width > paper.pixels() || imagen.max_width <= 0 {
        paper.pixels() as u32
    } else {
        imagen.max_width as u32
    }
}

/// Whether the picture of an image section has to be scaled to fit.
pub open spec fn needs_scaling(paper: PaperSize, section: PrintSections) -> bool {
    match section {
        PrintSections::Image(imagen) => match source_picture(imagen.data@) {
            Ok(source) => source.width > image_max_width(paper, imagen),
            Err(_) => false,
        },
        _ => false,
    }
}

/// What an image section prints, given what scaling makes of its picture
/// where that is too wide: the image and a line feed.
pub open spec fn image_section(paper: PaperSize, imagen: Imagen, scaled: Picture) -> Result<
    Seq<u8>,
    EncodeError,
> {
    match processed(imagen.data@, image_max_width(paper, imagen), imagen.dithering, scaled) {
        Err(e) => Err(EncodeError::Decode(e)),
        Ok(binary) => Ok(
            raster_command(
                image_alignment_named(imagen.align@),
                image_mode_named(imagen.size@),
                binary,
            ) + seq![0x0Au8],
        ),
    }
}

/// What a logo section prints: the print command of the logo and a line
/// feed.
pub open spec fn logo_section(logo: Logo) -> Seq<u8> {
    seq![0x1Cu8, 0x70u8, logo.key_code, image_mode_named(logo.mode@).code(), 0x0Au8]
}

/// The characters that fit a line in a style: those of the paper, halved
/// for the sizes of double width, and times 1.3 for font B and 1.5 for font
/// C, rounded down; at least ten.
pub open spec fn line_width(paper: PaperSize, current: ResolvedStyle) -> int {
    let tenths_of_size: int = if current.size == SizeKind::Width || current.size
        == SizeKind::Double {
        5
    } else {
        10
    };
    let tenths_of_font: int = if current.font == FontKind::B {
        13
    } else if current.font == FontKind::C {
        15
    } else {
        10
    };
    let width = (paper.chars() * tenths_of_size * tenths_of_font) / 100;
    if width < 10 {
        10
    } else {
        width
    }
}

/// The character of a rule: the first of the section's text, or a hyphen
/// where the text is empty.
pub open spec fn rule_char(line: Line) -> char {
    if line.character@.len() > 0 {
        line.character@[0]
    } else {
        '-'
    }
}

/// What a line section prints: its character as often as fits the line, and
/// a line feed.
pub open spec fn line_section(paper: PaperSize, current: ResolvedStyle, line: Line) -> Seq<u8> {
    utf8(Seq::new(line_width(paper, current) as nat, |i: int| rule_char(line))) + seq![0x0Au8]
}

/// What a section prints on a printer in style `current`, for a job with
/// the given options and paper. `scaled` is what scaling makes of the
/// picture of an image section that is too wide; no other section looks at
/// it.
pub open spec fn section_bytes(
    options: PrinterOptions,
    paper: PaperSize,
    current: ResolvedStyle,
    section: PrintSections,
    scaled: Picture,
) -> Result<Seq<u8>, EncodeError> {
    match section {
        PrintSections::Title(title) => Ok(
            styled_line(current, title_style(base_style(title.styles, current)), title.text@),
        ),
        PrintSections::Subtitle(subtitle) => Ok(
            styled_line(
                current,
                subtitle_style(base_style(subtitle.styles, current)),
                subtitle.text@,
            ),
        ),
        PrintSections::Text(text) => Ok(
            styled_line(current, base_style(text.styles, current), text.text@),
        ),
        PrintSections::Feed(feed) => feed_section(feed),
        PrintSections::Cut(cut) => Ok(cut_section(options, cut)),
        PrintSections::Beep(beep) => Ok(beep_section(options, beep)),
        PrintSections::Drawer(drawer) => Ok(drawer_section(drawer)),
        PrintSections::GlobalStyles(styles) => Ok(style_diff(current, resolved(styles))),
        PrintSections::Qr(qr) => qr_section(current, qr),
        PrintSections::Barcode(barcode) => barcode_section(barcode),
        PrintSections::Table(table) => Ok(table_bytes(table, paper.pixels(), table.truncate)),
        PrintSections::DataMatrix(code) => data_matrix_section(code),
        PrintSections::Pdf417(code) => pdf417_section(code),
        PrintSections::Image(imagen) => image_section(paper, imagen, scaled),
        PrintSections::Logo(logo) => Ok(logo_section(logo)),
        PrintSections::Line(line) => Ok(line_section(paper, current, line)),
    }
}

/// The style in force after a section: only a section of global styles
/// changes it.
pub open spec fn style_after(current: ResolvedStyle, section: PrintSections) -> ResolvedStyle {
    match section {
        PrintSections::GlobalStyles(styles) => resolved(styles),
        _ => current,
    }
}

/// Titles, subtitles and lines of text print in a style of their own and
/// leave the style in force as it was: what follows them prints as if they
/// had not been there. So does every section but one of global styles.
pub proof fn only_global_styles_change_the_style(current: ResolvedStyle, section: PrintSections)
    requires
        !(section is GlobalStyles),
    ensures
        style_after(current, section) == current,
{
}

/// The bytes of a title, a subtitle or a line of text end with the commands
/// that lead from its style back to the style in force, and where its style
/// is the style in force it prints no command at all.
pub proof fn styled_line_restores(current: ResolvedStyle, effective: ResolvedStyle, text: Seq<char>)
    ensures
        styled_line(current, effective, text).subrange(
            styled_line(current, effective, text).len() - style_diff(effective, current).len(),
            styled_line(current, effective, text).len() as int,
        ) == style_diff(effective, current),
        styled_line(current, current, text) == utf8(plain_text(text)) + seq![0x0Au8],
{
    let line = styled_line(current, effective, text);
    let back = style_diff(effective, current);
    assert(line.subrange(line.len() - back.len(), line.len() as int) =~= back);
    crate::process::styles::diff_of_same_style_is_empty(current);
    assert(styled_line(current, current, text) =~= utf8(plain_text(text)) + seq![0x0Au8]);
}

/// The style in force after the first `n` sections of a job that starts on
/// a printer that was reset.
pub open spec fn style_at(sections: Seq<PrintSections>, n: nat) -> ResolvedStyle
    decreases n,
{
    if n == 0 {
        default_style()
    } else {
        style_after(style_at(sections, (n - 1) as nat), sections[n - 1])
    }
}

/// What the first `n` sections print, one after the other, or the error of
/// the first section that fails.
pub open spec fn sections_bytes(
    options: PrinterOptions,
    paper: PaperSize,
    sections: Seq<PrintSections>,
    scaled: Seq<Picture>,
    n: nat,
) -> Result<Seq<u8>, EncodeError>
    decreases n,
{
    if n == 0 {
        Ok(Seq::empty())
    } else {
        match sections_bytes(options, paper, sections, scaled, (n - 1) as nat) {
            Err(e) => Err(e),
            Ok(bytes) => match section_bytes(
                options,
                paper,
                style_at(sections, (n - 1) as nat),
                sections[n - 1],
                scaled[n - 1],
            ) {
                Err(e) => Err(e),
                Ok(more) => Ok(bytes + more),
            },
        }
    }
}

/// What ends a document: five lines of feed and a partial cut where the job
/// cuts, then a drawer pulse of 100 ms on pin 2 where it opens the drawer.
pub open spec fn epilogue(options: PrinterOptions) -> Seq<u8> {
    (if options.cut_paper {
        feed_bytes(5) + cut_bytes(65, 0)
    } else {
        Seq::<u8>::empty()
    }) + (if options.open_cash_drawer {
        drawer_bytes(0x00, 100)
    } else {
        Seq::<u8>::empty()
    })
}

/// The document of a job: the reset of the printer, the sections in order,
/// and the epilogue. A job without sections or without a printer name has
/// none, and a section that fails leaves none. `scaled` holds, for each
/// section, what scaling makes of its picture where it is an image that is
/// too wide.
pub open spec fn document(job: PrintJobRequest, scaled: Seq<Picture>) -> Result<
    Seq<u8>,
    EncodeError,
> {
    if job.sections@.len() == 0 {
        Err(EncodeError::Validation(ValidationError::EmptySections))
    } else if job.printer@.len() == 0 {
        Err(EncodeError::Validation(ValidationError::BlankPrinter))
    } else {
        match sections_bytes(
            job.options,
            job.paper_size,
            job.sections@,
            scaled,
            job.sections@.len(),
        ) {
            Err(e) => Err(e),
            Ok(bytes) => Ok(seq![0x1Bu8, 0x40u8] + bytes + epilogue(job.options)),
        }
    }
}

/// What may stand for the scaled picture of a section: a picture of four
/// samples to the pixel, and for an image that is too wide one of the size
/// that scaling gives it.
pub open spec fn picture_for(paper: PaperSize, section: PrintSections, scaled: Picture) -> bool {
    match section {
        PrintSections::Image(imagen) => scaled_for(
            imagen.data@,
            image_max_width(paper, imagen),
            scaled,
        ),
        _ => scaled.has_channels(4),
    }
}

/// A picture that may stand for the scaled picture of a section.
pub open spec fn some_picture_for(paper: PaperSize, section: PrintSections) -> Picture {
    match section {
        PrintSections::Image(imagen) => some_scaled(imagen.data@, image_max_width(paper, imagen)),
        _ => dark_picture(0, 0),
    }
}

/// Whatever the section, some picture may stand for its scaled picture.
pub proof fn some_picture_fits(paper: PaperSize, section: PrintSections)
    ensures
        picture_for(paper, section, some_picture_for(paper, section)),
{
    match section {
        PrintSections::Image(imagen) => {
            some_scaled_fits(imagen.data@, image_max_width(paper, imagen));
        },
        _ => {
            some_scaled_fits(Seq::empty(), 0);
            assert(0int * 0int == 0) by (nonlinear_arith);
        },
    }
}

/// What is handed to `document` for the pictures: one for each section,
/// each fit to stand for the scaled picture of its section.
pub open spec fn pictures_for(job: PrintJobRequest, scaled: Seq<Picture>) -> bool {
    &&& scaled.len() == job.sections@.len()
    &&& forall|i: int|
        0 <= i < scaled.len() ==> picture_for(job.paper_size, job.sections@[i], #[trigger] scaled[i])
}

/// The first `n` sections print the same whatever stands for the pictures
/// of sections that are not scaled.
pub proof fn sections_bytes_agree(
    options: PrinterOptions,
    paper: PaperSize,
    sections: Seq<PrintSections>,
    first: Seq<Picture>,
    second: Seq<Picture>,
    n: nat,
)
    requires
        n <= sections.len(),
        forall|i: int|
            0 <= i < n && needs_scaling(paper, #[trigger] sections[i]) ==> first[i] == second[i],
    ensures
        sections_bytes(options, paper, sections, first, n) == sections_bytes(
            options,
            paper,
            sections,
            second,
            n,
        ),
    decreases n,
{
    if n > 0 {
        sections_bytes_agree(options, paper, sections, first, second, (n - 1) as nat);
        let section = sections[n - 1];
        let style = style_at(sections, (n - 1) as nat);
        assert(section_bytes(options, paper, style, section, first[n - 1]) == section_bytes(
            options,
            paper,
            style,
            section,
            second[n - 1],
        )) by {
            if !needs_scaling(paper, section) {
                match section {
                    PrintSections::Image(imagen) => {
                        let width = image_max_width(paper, imagen);
                        assert(processed(imagen.data@, width, imagen.dithering, first[n - 1])
                            == processed(imagen.data@, width, imagen.dithering, second[n - 1]));
                    },
                    _ => {},
                }
            }
        }
    }
}

/// A job in which no image has to be scaled has one document, whatever
/// stands for the pictures.
pub proof fn document_without_scaling(
    job: PrintJobRequest,
    first: Seq<Picture>,
    second: Seq<Picture>,
)
    requires
        forall|i: int|
            0 <= i < job.sections@.len() ==> !needs_scaling(
                job.paper_size,
                #[trigger] job.sections@[i],
            ),
    ensures
        document(job, first) == document(job, second),
{
    sections_bytes_agree(
        job.options,
        job.paper_size,
        job.sections@,
        first,
        second,
        job.sections@.len(),
    );
}

/// An error stays: once a section has failed, the sections after it change
/// nothing.
pub proof fn sections_bytes_error_stays(
    options: PrinterOptions,
    paper: PaperSize,
    sections: Seq<PrintSections>,
    scaled: Seq<Picture>,
    m: nat,
    n: nat,
)
    requires
        m <= n,
        sections_bytes(options, paper, sections, scaled, m) is Err,
    ensures
        sections_bytes(options, paper, sections, scaled, n) == sections_bytes(
            options,
            paper,
            sections,
            scaled,
            m,
        ),
    decreases n,
{
    if n > m {
        sections_bytes_error_stays(options, paper, sections, scaled, m, (n - 1) as nat);
    }
}

} // verus!
