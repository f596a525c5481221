//! The self-test receipt: a fixed document that shows what a printer can do.

use vstd::prelude::*;
use vstd::string::*;
use crate::bytes::append_bytes;
use crate::commands_esc_pos::codes::barcode::{
    barcode_bytes, Barcode, BarcodeTextPosition, BarcodeType,
};
use crate::commands_esc_pos::codes::qr::{qr_bytes, QRErrorCorrection, QRModel, QRSize, QR};
use crate::commands_esc_pos::control::printer_control::{
    beep_bytes, cut_bytes, drawer_bytes, feed_bytes, PrinterControl,
};
use crate::commands_esc_pos::image_escpos::image_code::{
    raster_command, Image, ImageAlignment, ImageMode,
};
use crate::commands_esc_pos::image_escpos::image_processor::{processed, scaled_for};
use crate::commands_esc_pos::image_escpos::raster::Picture;
use crate::commands_esc_pos::text::table::{
    cell_texts_of, lines_bytes, process_table, rows_lines, table_rows, table_widths,
};
use crate::commands_esc_pos::text::text_type::TextType;
use crate::error::EncodeError;
use crate::models::paper_size::PaperSize;
use crate::models::print_job_request::TestPrintRequest;
use crate::models::print_sections::{Table, Text};
use crate::process::process_print::outcome;
use crate::strings::{byte_len, utf8, utf8_bytes};

verus! {

/// The builder of the self-test receipt.
#[derive(Debug, Clone, Copy)]
pub struct TestPrinter {
    /// The paper of the request that is being encoded.
    pub paper_size: PaperSize,
}

/// A heading of the receipt: its text in bold.
pub open spec fn heading(title: Seq<char>) -> Seq<u8> {
    TextType::BoldOn.bytes() + utf8(title) + TextType::BoldOff.bytes()
}

/// A line of one character as wide as the paper, and a line feed.
pub open spec fn rule_line(paper: PaperSize, c: char) -> Seq<u8> {
    utf8(Seq::new(paper.chars() as nat, |i: int| c)) + seq![0x0Au8]
}

/// The title of the receipt.
pub open spec fn header_part() -> Seq<u8> {
    TextType::AlignCenter.bytes() + TextType::DoubleSize.bytes() + utf8("PRUEBA DE IMPRESORA\n"@)
        + TextType::Normal.bytes() + TextType::AlignLeft.bytes() + seq![0x0Au8]
}

/// The part that shows bold, underline and the three double sizes.
pub open spec fn text_styles_part() -> Seq<u8> {
    heading(">>> ESTILOS DE TEXTO <<<\n"@) + seq![0x0Au8] + (TextType::BoldOn.bytes() + utf8(
        "1. Texto en Negrita\n"@,
    ) + TextType::BoldOff.bytes()) + (TextType::UnderlineOn.bytes() + utf8("2. Texto Subrayado\n"@)
        + TextType::UnderlineOff.bytes()) + (TextType::DoubleHeight.bytes() + utf8(
        "3. Doble Altura\n"@,
    ) + TextType::Normal.bytes()) + (TextType::DoubleWidth.bytes() + utf8("4. Doble Ancho\n"@)
        + TextType::Normal.bytes()) + (TextType::DoubleSize.bytes() + utf8("5. Doble Tamano\n"@)
        + TextType::Normal.bytes()) + seq![0x0Au8]
}

/// The part that shows the three fonts.
pub open spec fn fonts_part() -> Seq<u8> {
    heading(">>> TIPOS DE FUENTE <<<\n"@) + (TextType::FontA.bytes() + utf8(
        "Fuente A (por defecto)\n"@,
    )) + (TextType::FontB.bytes() + utf8("Fuente B (mas pequena)\n"@)) + (TextType::FontC.bytes()
        + utf8("Fuente C (condensada)\n"@)) + TextType::FontA.bytes() + seq![0x0Au8]
}

/// The part that shows the three alignments.
pub open spec fn alignment_part() -> Seq<u8> {
    heading(">>> ALINEACION <<<\n"@) + (TextType::AlignLeft.bytes() + utf8("Izquierda\n"@)) + (
    TextType::AlignCenter.bytes() + utf8("Centrado\n"@)) + (TextType::AlignRight.bytes() + utf8(
        "Derecha\n"@,
    )) + TextType::AlignLeft.bytes() + seq![0x0Au8]
}

/// The part that shows white on black.
pub open spec fn invert_part() -> Seq<u8> {
    heading(">>> INVERSION <<<\n"@) + TextType::InvertOn.bytes() + utf8(
        "Texto Invertido (fondo negro)\n"@,
    ) + TextType::InvertOff.bytes() + seq![0x0Au8]
}

/// The part that shows turned text.
pub open spec fn rotate_part() -> Seq<u8> {
    heading(">>> ROTACION <<<\n"@) + TextType::RotateOn.bytes() + utf8("Texto Rotado 90 grados\n"@)
        + TextType::RotateOff.bytes() + seq![0x0Au8]
}

/// The part that shows the three rules.
pub open spec fn separators_part(paper: PaperSize) -> Seq<u8> {
    heading(">>> LINEAS SEPARADORAS <<<\n"@) + (utf8("Guiones:\n"@) + rule_line(paper, '-')) + (
    utf8("Igual:\n"@) + rule_line(paper, '=')) + (utf8("Asteriscos:\n"@) + rule_line(paper, '*'))
        + seq![0x0Au8]
}

/// A line of a receipt: a label at the left, a value at the right, and dots
/// between them that fill the line, one at the least. Lengths count bytes.
pub open spec fn receipt_line(paper: PaperSize, label: Seq<char>, value: Seq<char>) -> Seq<char> {
    let used = utf8(label).len() + utf8(value).len();
    let free: int = if paper.chars() - used < 1 {
        1
    } else {
        paper.chars() - used
    };
    label + Seq::new(free as nat, |i: int| '.') + value
}

/// The rows of the table of the receipt, header first.
pub open spec fn sample_rows() -> Seq<Seq<Seq<char>>> {
    seq![
        seq!["Producto"@, "Cant"@, "Precio"@],
        seq!["Producto A"@, "2"@, "$10.50"@],
        seq!["Producto B"@, "1"@, "$25.00"@],
        seq!["Producto C Largo"@, "5"@, "$8.99"@],
    ]
}

/// The widths of the columns of the table of the receipt.
pub open spec fn sample_widths() -> Seq<i32> {
    seq![25i32, 8i32, 15i32]
}

/// The part that shows a table and the totals of a receipt.
pub open spec fn columns_part(paper: PaperSize) -> Seq<u8> {
    heading(">>> TABLA CON COLUMNAS <<<\n"@) + lines_bytes(
        rows_lines(sample_rows(), sample_widths(), paper.pixels(), true),
    ) + rule_line(paper, '-') + (utf8(receipt_line(paper, "SUBTOTAL:"@, "$44.49"@)) + seq![0x0Au8])
        + (utf8(receipt_line(paper, "IVA (16%):"@, "$7.12"@)) + seq![0x0Au8]) + rule_line(
        paper,
        '=',
    ) + (TextType::BoldOn.bytes() + TextType::DoubleHeight.bytes() + utf8(
        receipt_line(paper, "TOTAL:"@, "$51.61"@),
    ) + seq![0x0Au8] + TextType::Normal.bytes()) + seq![0x0Au8]
}

/// A barcode of the receipt: 2 dots to the module, its text below, and two
/// line feeds after it. Data that do not fit a barcode leave the line feeds.
pub open spec fn sample_barcode(kind: BarcodeType, data: Seq<char>, height: u8) -> Seq<u8> {
    (if utf8(data).len() <= 255 {
        barcode_bytes(kind, utf8(data), height, 2, BarcodeTextPosition::Below)
    } else {
        Seq::<u8>::empty()
    }) + seq![0x0Au8, 0x0Au8]
}

/// The part that shows a Code 128 barcode.
pub open spec fn barcode_part() -> Seq<u8> {
    heading(">>> CODIGOS DE BARRAS <<<\n"@) + seq![0x0Au8] + TextType::AlignCenter.bytes() + utf8(
        "CODE128:\n"@,
    ) + sample_barcode(BarcodeType::Code128, "123456789012"@, 60) + TextType::AlignLeft.bytes()
}

/// The part that shows two more symbologies.
pub open spec fn barcode_types_part() -> Seq<u8> {
    TextType::AlignCenter.bytes() + (utf8("EAN13:\n"@) + sample_barcode(
        BarcodeType::Ean13,
        "1234567890128"@,
        50,
    )) + (utf8("CODE39:\n"@) + sample_barcode(BarcodeType::Code39, "ABC123"@, 50))
        + TextType::AlignLeft.bytes()
}

/// The QR code of the receipt. Data that do not fit a code leave nothing.
pub open spec fn sample_qr(data: Seq<char>) -> Seq<u8> {
    if utf8(data).len() <= 65532 {
        qr_bytes(QRModel::Model2, QRSize::Size6, QRErrorCorrection::M, utf8(data))
    } else {
        Seq::<u8>::empty()
    }
}

/// The part that shows a QR code.
pub open spec fn qr_part() -> Seq<u8> {
    heading(">>> CODIGO QR <<<\n"@) + seq![0x0Au8] + TextType::AlignCenter.bytes() + utf8(
        "Escanea el QR:\n"@,
    ) + sample_qr("https://neogestify.com"@) + seq![0x0Au8] + utf8("neogestify.com\n"@) + seq![
        0x0Au8,
    ] + TextType::AlignLeft.bytes()
}

/// The part that shows an image, at most 384 dots wide, centred and
/// dithered; a line of text in its place where the image cannot be read.
pub open spec fn image_part(text: Seq<char>, scaled: Picture) -> Seq<u8> {
    heading(">>> IMAGEN <<<\n"@) + seq![0x0Au8] + (match processed(text, 384, true, scaled) {
        Ok(binary) => raster_command(ImageAlignment::Center, ImageMode::Normal, binary) + seq![
            0x0Au8,
        ],
        Err(_) => utf8("Error al procesar imagen\n"@),
    })
}

/// The part that feeds the paper by lines and by dots.
pub open spec fn feed_part() -> Seq<u8> {
    heading(">>> CONTROL DE PAPEL <<<\n"@) + (utf8("Avance de 2 lineas...\n"@) + feed_bytes(2)) + (
    utf8("Avance de papel en puntos...\n"@) + seq![0x1Bu8, 0x4Au8, 50u8]) + seq![0x0Au8]
}

/// The part that opens the cash drawer.
pub open spec fn drawer_part() -> Seq<u8> {
    heading(">>> CAJON DE DINERO <<<\n"@) + utf8("Abriendo cajon (Pin 2)...\n"@) + drawer_bytes(
        0x00,
        100,
    ) + seq![0x0Au8]
}

/// The end of the receipt, with the date and time of printing.
pub open spec fn footer_part(paper: PaperSize, stamp: Seq<char>) -> Seq<u8> {
    seq![0x0Au8] + TextType::AlignCenter.bytes() + rule_line(paper, '*') + (
    TextType::DoubleHeight.bytes() + utf8("PRUEBA COMPLETADA\n"@) + TextType::Normal.bytes())
        + rule_line(paper, '*') + (utf8(stamp) + seq![0x0Au8]) + TextType::AlignLeft.bytes()
}

/// A part of the receipt that is there or is not.
pub open spec fn optional(wanted: bool, part: Seq<u8>) -> Seq<u8> {
    if wanted {
        part
    } else {
        Seq::empty()
    }
}

/// The parts of the receipt that show text.
pub open spec fn text_parts(request: TestPrintRequest) -> Seq<u8> {
    let paper = request.printer_info.paper_size;
    optional(request.include_text, header_part()) + optional(
        request.include_separators,
        rule_line(paper, '='),
    ) + optional(request.include_text_styles, text_styles_part()) + optional(
        request.test_all_fonts,
        fonts_part(),
    ) + optional(request.include_alignment, alignment_part()) + optional(
        request.test_invert,
        invert_part(),
    ) + optional(request.test_rotate, rotate_part()) + optional(
        request.include_separators,
        separators_part(paper),
    ) + optional(request.include_columns, columns_part(paper))
}

/// The parts of the receipt that show codes and an image.
pub open spec fn code_parts(request: TestPrintRequest, scaled: Picture) -> Seq<u8> {
    optional(request.include_barcode, barcode_part()) + optional(
        request.include_barcode_types,
        barcode_types_part(),
    ) + optional(request.include_qr, qr_part()) + (match request.image_base64 {
        Some(text) if request.include_image => image_part(text@, scaled),
        _ => Seq::<u8>::empty(),
    })
}

/// The parts of the receipt that move paper and drawer, and its end: the
/// footer, three long signals where they are wanted, a feed, and a full cut
/// where the paper is cut.
pub open spec fn closing_parts(request: TestPrintRequest, stamp: Seq<char>) -> Seq<u8> {
    let paper = request.printer_info.paper_size;
    optional(request.test_feed, feed_part()) + optional(request.test_cash_drawer, drawer_part())
        + footer_part(paper, stamp) + optional(request.include_beep, beep_bytes(3, 100))
        + feed_bytes(if request.cut_paper { 4u8 } else { 2u8 }) + (if request.cut_paper {
        cut_bytes(0, 4)
    } else {
        feed_bytes(8)
    })
}

/// What may stand for the scaled picture of a request: a picture of four
/// samples to the pixel, and, where the receipt shows an image that is
/// wider than 384 dots, of the size that scaling gives it.
pub open spec fn picture_for_request(request: TestPrintRequest, scaled: Picture) -> bool {
    match request.image_base64 {
        Some(text) if request.include_image => scaled_for(text@, 384, scaled),
        _ => scaled.has_channels(4),
    }
}

/// The self-test receipt of a request, printed at time `stamp`. `scaled` is
/// what scaling makes of the image of the request where that is wider than
/// 384 dots.
pub open spec fn test_document(request: TestPrintRequest, stamp: Seq<char>, scaled: Picture) -> Seq<
    u8,
> {
    seq![0x1Bu8, 0x40u8, 0x0Au8] + text_parts(request) + code_parts(request, scaled)
        + closing_parts(request, stamp)
}

/// `chrono::Local::now`, formatted as day/month/year and hours:minutes:seconds.
/// The text depends on the clock, so nothing is claimed of it.
#[verifier::external_body]
pub(crate) fn local_timestamp() -> (r: String) {
    chrono::Local::now().format("%d/%m/%Y %H:%M:%S").to_string()
}

fn put(document: &mut Vec<u8>, command: TextType)
    ensures
        final(document)@ == old(document)@ + command.bytes(),
{
    append_bytes(document, &command.command());
}

fn put_text(document: &mut Vec<u8>, text: &str)
    ensures
        final(document)@ == old(document)@ + utf8(text@),
{
    append_bytes(document, &utf8_bytes(text));
}

fn put_line_feed(document: &mut Vec<u8>)
    ensures
        final(document)@ == old(document)@ + seq![0x0Au8],
{
    document.push(0x0A);
    assert(document@ =~= old(document)@ + seq![0x0Au8]);
}

fn put_heading(document: &mut Vec<u8>, title: &str)
    ensures
        final(document)@ == old(document)@ + heading(title@),
{
    put(document, TextType::BoldOn);
    put_text(document, title);
    put(document, TextType::BoldOff);
    assert(document@ =~= old(document)@ + heading(title@));
}

fn put_styled(document: &mut Vec<u8>, on: TextType, text: &str, off: TextType)
    ensures
        final(document)@ == old(document)@ + (on.bytes() + utf8(text@) + off.bytes()),
{
    put(document, on);
    put_text(document, text);
    put(document, off);
    assert(document@ =~= old(document)@ + (on.bytes() + utf8(text@) + off.bytes()));
}

fn put_selected(document: &mut Vec<u8>, on: TextType, text: &str)
    ensures
        final(document)@ == old(document)@ + (on.bytes() + utf8(text@)),
{
    put(document, on);
    put_text(document, text);
    assert(document@ =~= old(document)@ + (on.bytes() + utf8(text@)));
}

fn repeated_char(c: char, count: usize) -> (r: String)
    ensures
        r@ == Seq::new(count as nat, |i: int| c),
{
    let mut out: String = String::new();
    let mut i: usize = 0;
    while i < count
        invariant
            i <= count,
            out@ =~= Seq::new(i as nat, |j: int| c),
        decreases count - i,
    {
        out.push(c);
        i += 1;
    }
    out
}

fn cell(text: &str) -> (r: Text)
    ensures
        r.text@ == text@,
        r.styles is None,
{
    Text { text: text.to_owned(), styles: None }
}

fn row_of(first: &str, second: &str, third: &str) -> (r: Vec<Text>)
    ensures
        cell_texts_of(r@) == seq![first@, second@, third@],
{
    let row: Vec<Text> = vec![cell(first), cell(second), cell(third)];
    assert(cell_texts_of(row@) =~= seq![first@, second@, third@]);
    row
}

impl TestPrinter {
    /// A builder for paper of 80 mm.
    pub fn new() -> (r: Self)
        ensures
            r.paper_size == PaperSize::Mm80,
    {
        TestPrinter { paper_size: PaperSize::Mm80 }
    }

    /// The self-test receipt of a request, printed now: the receipt of
    /// `generate_test_document_at` for whatever the clock says. The builder
    /// takes the paper of the request.
    pub fn generate_test_document(&mut self, request: &TestPrintRequest) -> (r: Result<
        Vec<u8>,
        EncodeError,
    >)
        ensures
            exists|stamp: Seq<char>, scaled: Picture|
                picture_for_request(*request, scaled) && outcome(r) == Ok::<Seq<u8>, EncodeError>(
                    #[trigger] test_document(*request, stamp, scaled),
                ),
            final(self).paper_size == request.printer_info.paper_size,
    {
        let stamp: String = local_timestamp();
        let r = self.generate_test_document_at(request, stamp.as_str());
        proof {
            let scaled = choose|scaled: Picture| #[trigger]
                picture_for_request(*request, scaled) && outcome(r) == Ok::<Seq<u8>, EncodeError>(
                    test_document(*request, stamp@, scaled),
                );
            assert(picture_for_request(*request, scaled) && outcome(r) == Ok::<
                Seq<u8>,
                EncodeError,
            >(test_document(*request, stamp@, scaled)));
        }
        r
    }

    /// The self-test receipt of a request, with `stamp` as its date and
    /// time. It never fails: an image that cannot be read leaves a line of
    /// text in its place.
    pub fn generate_test_document_at(&mut self, request: &TestPrintRequest, stamp: &str) -> (r:
        Result<Vec<u8>, EncodeError>)
        ensures
            exists|scaled: Picture| #[trigger]
                picture_for_request(*request, scaled) && outcome(r) == Ok::<Seq<u8>, EncodeError>(
                    test_document(*request, stamp@, scaled),
                ),
            final(self).paper_size == request.printer_info.paper_size,
    {
        self.paper_size = request.printer_info.paper_size;
        let mut document: Vec<u8> = vec![0x1B, 0x40, 0x0A];
        let text: Vec<u8> = self.text_sections(request);
        let codes: Vec<u8> = self.code_sections(request);
        let ghost scaled = choose|scaled: Picture| #[trigger]
            picture_for_request(*request, scaled) && codes@ == code_parts(*request, scaled);
        let closing: Vec<u8> = self.closing_sections(request, stamp);
        append_bytes(&mut document, &text);
        append_bytes(&mut document, &codes);
        append_bytes(&mut document, &closing);
        assert(document@ == test_document(*request, stamp@, scaled));
        let r: Result<Vec<u8>, EncodeError> = Ok(document);
        assert(picture_for_request(*request, scaled) && outcome(r) == Ok::<Seq<u8>, EncodeError>(
            test_document(*request, stamp@, scaled),
        ));
        r
    }

    fn text_sections(&self, request: &TestPrintRequest) -> (r: Vec<u8>)
        requires
            self.paper_size == request.printer_info.paper_size,
        ensures
            r@ == text_parts(*request),
    {
        let mut document: Vec<u8> = Vec::new();
        if request.include_text {
            self.add_header(&mut document);
        }
        if request.include_separators {
            self.add_double_line(&mut document);
        }
        if request.include_text_styles {
            self.add_text_styles_section(&mut document);
        }
        if request.test_all_fonts {
            self.add_fonts_section(&mut document);
        }
        if request.include_alignment {
            self.add_alignment_section(&mut document);
        }
        if request.test_invert {
            self.add_invert_section(&mut document);
        }
        if request.test_rotate {
            self.add_rotate_section(&mut document);
        }
        if request.include_separators {
            self.add_separators_section(&mut document);
        }
        if request.include_columns {
            self.add_columns_section(&mut document);
        }
        assert(document@ =~= text_parts(*request));
        document
    }

    fn code_sections(&self, request: &TestPrintRequest) -> (r: Vec<u8>)
        ensures
            exists|scaled: Picture| #[trigger]
                picture_for_request(*request, scaled) && r@ == code_parts(*request, scaled),
    {
        let mut document: Vec<u8> = Vec::new();
        if request.include_barcode {
            self.add_barcode_section(&mut document);
        }
        if request.include_barcode_types {
            self.add_barcode_types_section(&mut document);
        }
        if request.include_qr {
            self.add_qr_section(&mut document);
        }
        let ghost before = document@;
        let ghost mut scaled = Picture { width: 0, height: 0, data: Seq::empty() };
        proof {
            assert(0int * 0int == 0) by (nonlinear_arith);
        }
        if request.include_image {
            match &request.image_base64 {
                Some(text) => {
                    let picture = self.add_image_section(&mut document, text.as_str());
                    proof {
                        scaled = picture@;
                    }
                },
                None => {},
            }
        }
        assert(document@ =~= code_parts(*request, scaled));
        assert(picture_for_request(*request, scaled) && document@ == code_parts(*request, scaled));
        document
    }

    fn closing_sections(&self, request: &TestPrintRequest, stamp: &str) -> (r: Vec<u8>)
        requires
            self.paper_size == request.printer_info.paper_size,
        ensures
            r@ == closing_parts(*request, stamp@),
    {
        let mut document: Vec<u8> = Vec::new();
        if request.test_feed {
            self.add_feed_section(&mut document);
        }
        if request.test_cash_drawer {
            self.add_cash_drawer_section(&mut document);
        }
        self.add_footer(&mut document, stamp);
        if request.include_beep {
            append_bytes(&mut document, &PrinterControl::beep_custom(3, 100));
        }
        let feed_lines: u8 = if request.cut_paper { 4 } else { 2 };
        append_bytes(&mut document, &PrinterControl::feed_paper(feed_lines));
        if request.cut_paper {
            append_bytes(&mut document, &PrinterControl::cut_paper_with_feed(0, 4));
        } else {
            append_bytes(&mut document, &PrinterControl::feed_paper(8));
        }
        assert(document@ =~= closing_parts(*request, stamp@));
        document
    }

    fn add_header(&self, document: &mut Vec<u8>)
        ensures
            final(document)@ == old(document)@ + header_part(),
    {
        put(document, TextType::AlignCenter);
        put(document, TextType::DoubleSize);
        put_text(document, "PRUEBA DE IMPRESORA\n");
        put(document, TextType::Normal);
        put(document, TextType::AlignLeft);
        put_line_feed(document);
        assert(document@ =~= old(document)@ + header_part());
    }

    fn add_text_styles_section(&self, document: &mut Vec<u8>)
        ensures
            final(document)@ == old(document)@ + text_styles_part(),
    {
        put_heading(document, ">>> ESTILOS DE TEXTO <<<\n");
        put_line_feed(document);
        put_styled(document, TextType::BoldOn, "1. Texto en Negrita\n", TextType::BoldOff);
        put_styled(document, TextType::UnderlineOn, "2. Texto Subrayado\n", TextType::UnderlineOff);
        put_styled(document, TextType::DoubleHeight, "3. Doble Altura\n", TextType::Normal);
        put_styled(document, TextType::DoubleWidth, "4. Doble Ancho\n", TextType::Normal);
        put_styled(document, TextType::DoubleSize, "5. Doble Tamano\n", TextType::Normal);
        put_line_feed(document);
        assert(document@ =~= old(document)@ + text_styles_part());
    }

    fn add_fonts_section(&self, document: &mut Vec<u8>)
        ensures
            final(document)@ == old(document)@ + fonts_part(),
    {
        put_heading(document, ">>> TIPOS DE FUENTE <<<\n");
        put_selected(document, TextType::FontA, "Fuente A (por defecto)\n");
        put_selected(document, TextType::FontB, "Fuente B (mas pequena)\n");
        put_selected(document, TextType::FontC, "Fuente C (condensada)\n");
        put(document, TextType::FontA);
        put_line_feed(document);
        assert(document@ =~= old(document)@ + fonts_part());
    }

    fn add_alignment_section(&self, document: &mut Vec<u8>)
        ensures
            final(document)@ == old(document)@ + alignment_part(),
    {
        put_heading(document, ">>> ALINEACION <<<\n");
        put_selected(document, TextType::AlignLeft, "Izquierda\n");
        put_selected(document, TextType::AlignCenter, "Centrado\n");
        put_selected(document, TextType::AlignRight, "Derecha\n");
        put(document, TextType::AlignLeft);
        put_line_feed(document);
        assert(document@ =~= old(document)@ + alignment_part());
    }

    fn add_invert_section(&self, document: &mut Vec<u8>)
        ensures
            final(document)@ == old(document)@ + invert_part(),
    {
        put_heading(document, ">>> INVERSION <<<\n");
        put(document, TextType::InvertOn);
        put_text(document, "Texto Invertido (fondo negro)\n");
        put(document, TextType::InvertOff);
        put_line_feed(document);
        assert(document@ =~= old(document)@ + invert_part());
    }

    fn add_rotate_section(&self, document: &mut Vec<u8>)
        ensures
            final(document)@ == old(document)@ + rotate_part(),
    {
        put_heading(document, ">>> ROTACION <<<\n");
        put(document, TextType::RotateOn);
        put_text(document, "Texto Rotado 90 grados\n");
        put(document, TextType::RotateOff);
        put_line_feed(document);
        assert(document@ =~= old(document)@ + rotate_part());
    }

    fn add_named_rule(&self, document: &mut Vec<u8>, name: &str, c: char)
        ensures
            final(document)@ == old(document)@ + (utf8(name@) + rule_line(self.paper_size, c)),
    {
        put_text(document, name);
        self.add_rule(document, c);
        assert(document@ =~= old(document)@ + (utf8(name@) + rule_line(self.paper_size, c)));
    }

    fn add_separators_section(&self, document: &mut Vec<u8>)
        ensures
            final(document)@ == old(document)@ + separators_part(self.paper_size),
    {
        put_heading(document, ">>> LINEAS SEPARADORAS <<<\n");
        self.add_named_rule(document, "Guiones:\n", '-');
        self.add_named_rule(document, "Igual:\n", '=');
        self.add_named_rule(document, "Asteriscos:\n", '*');
        put_line_feed(document);
        assert(document@ =~= old(document)@ + separators_part(self.paper_size));
    }

    fn sample_table(&self) -> (r: Vec<u8>)
        ensures
            r@ == lines_bytes(
                rows_lines(sample_rows(), sample_widths(), self.paper_size.pixels(), true),
            ),
    {
        let header: Vec<Text> = row_of("Producto", "Cant", "Precio");
        let first: Vec<Text> = row_of("Producto A", "2", "$10.50");
        let second: Vec<Text> = row_of("Producto B", "1", "$25.00");
        let third: Vec<Text> = row_of("Producto C Largo", "5", "$8.99");
        let ghost rows = seq![header@, first@, second@, third@];
        let table: Table = Table {
            columns: 3,
            truncate: true,
            column_widths: Some(vec![25, 8, 15]),
            header: Some(header),
            body: vec![first, second, third],
        };
        let width: i32 = self.paper_size.pixels_width();
        proof {
            assert(table_widths(table, width as int) =~= sample_widths());
            let found = table_rows(table);
            assert(cell_texts_of(rows[0]).len() == 3);
            assert(rows[0].len() == 3);
            assert(table.header == Some(header));
            assert(table.body@.len() == 3);
            let body = Seq::new(table.body@.len(), |i: int| cell_texts_of(table.body@[i]@));
            assert(found == seq![cell_texts_of(rows[0])] + body);
            assert(found.len() == 4);
            assert(found[0] == cell_texts_of(rows[0]));
            assert(found[1] == cell_texts_of(rows[1]));
            assert(found[2] == cell_texts_of(rows[2]));
            assert(found[3] == cell_texts_of(rows[3]));
            assert(found =~= sample_rows());
        }
        process_table(&table, width, table.truncate)
    }

    fn add_receipt_line(&self, document: &mut Vec<u8>, label: &str, value: &str)
        ensures
            final(document)@ == old(document)@ + (utf8(
                receipt_line(self.paper_size, label@, value@),
            ) + seq![0x0Au8]),
    {
        let line: String = self.create_receipt_line(label, value);
        put_text(document, line.as_str());
        put_line_feed(document);
        assert(document@ =~= old(document)@ + (utf8(
            receipt_line(self.paper_size, label@, value@),
        ) + seq![0x0Au8]));
    }

    fn add_total(&self, document: &mut Vec<u8>)
        ensures
            final(document)@ == old(document)@ + (TextType::BoldOn.bytes()
                + TextType::DoubleHeight.bytes() + utf8(
                receipt_line(self.paper_size, "TOTAL:"@, "$51.61"@),
            ) + seq![0x0Au8] + TextType::Normal.bytes()),
    {
        let total: String = self.create_receipt_line("TOTAL:", "$51.61");
        put(document, TextType::BoldOn);
        put(document, TextType::DoubleHeight);
        put_text(document, total.as_str());
        put_line_feed(document);
        put(document, TextType::Normal);
        assert(document@ =~= old(document)@ + (TextType::BoldOn.bytes()
            + TextType::DoubleHeight.bytes() + utf8(
            receipt_line(self.paper_size, "TOTAL:"@, "$51.61"@),
        ) + seq![0x0Au8] + TextType::Normal.bytes()));
    }

    fn add_columns_section(&self, document: &mut Vec<u8>)
        ensures
            final(document)@ == old(document)@ + columns_part(self.paper_size),
    {
        put_heading(document, ">>> TABLA CON COLUMNAS <<<\n");
        append_bytes(document, &self.sample_table());
        self.add_dashed_line(document);
        self.add_receipt_line(document, "SUBTOTAL:", "$44.49");
        self.add_receipt_line(document, "IVA (16%):", "$7.12");
        self.add_double_line(document);
        self.add_total(document);
        put_line_feed(document);
        assert(document@ =~= old(document)@ + columns_part(self.paper_size));
    }

    fn add_sample_barcode(&self, document: &mut Vec<u8>, kind: BarcodeType, data: &str, height: u8)
        ensures
            final(document)@ == old(document)@ + sample_barcode(kind, data@, height),
    {
        let barcode: Barcode = Barcode::new(kind, data.to_owned()).set_height(height).set_width(
            2,
        ).set_text_position(BarcodeTextPosition::Below);
        match barcode.get_command() {
            Ok(command) => {
                append_bytes(document, &command);
            },
            Err(_) => {},
        }
        put_line_feed(document);
        put_line_feed(document);
        assert(document@ =~= old(document)@ + sample_barcode(kind, data@, height));
    }

    fn add_barcode_section(&self, document: &mut Vec<u8>)
        ensures
            final(document)@ == old(document)@ + barcode_part(),
    {
        put_heading(document, ">>> CODIGOS DE BARRAS <<<\n");
        put_line_feed(document);
        put(document, TextType::AlignCenter);
        put_text(document, "CODE128:\n");
        self.add_sample_barcode(document, BarcodeType::Code128, "123456789012", 60);
        put(document, TextType::AlignLeft);
        assert(document@ =~= old(document)@ + barcode_part());
    }

    fn add_named_barcode(
        &self,
        document: &mut Vec<u8>,
        name: &str,
        kind: BarcodeType,
        data: &str,
    )
        ensures
            final(document)@ == old(document)@ + (utf8(name@) + sample_barcode(kind, data@, 50)),
    {
        put_text(document, name);
        self.add_sample_barcode(document, kind, data, 50);
        assert(document@ =~= old(document)@ + (utf8(name@) + sample_barcode(kind, data@, 50)));
    }

    fn add_barcode_types_section(&self, document: &mut Vec<u8>)
        ensures
            final(document)@ == old(document)@ + barcode_types_part(),
    {
        put(document, TextType::AlignCenter);
        self.add_named_barcode(document, "EAN13:\n", BarcodeType::Ean13, "1234567890128");
        self.add_named_barcode(document, "CODE39:\n", BarcodeType::Code39, "ABC123");
        put(document, TextType::AlignLeft);
        assert(document@ =~= old(document)@ + barcode_types_part());
    }

    fn add_sample_qr(&self, document: &mut Vec<u8>, data: &str)
        ensures
            final(document)@ == old(document)@ + sample_qr(data@),
    {
        let qr: QR = QR::new(data.to_owned()).set_size(QRSize::Size6).set_error_correction(
            QRErrorCorrection::M,
        ).set_model(QRModel::Model2);
        match qr.get_command() {
            Ok(command) => {
                append_bytes(document, &command);
            },
            Err(_) => {
                assert(document@ =~= old(document)@ + sample_qr(data@));
            },
        }
    }

    fn add_qr_section(&self, document: &mut Vec<u8>)
        ensures
            final(document)@ == old(document)@ + qr_part(),
    {
        put_heading(document, ">>> CODIGO QR <<<\n");
        put_line_feed(document);
        put(document, TextType::AlignCenter);
        put_text(document, "Escanea el QR:\n");
        self.add_sample_qr(document, "https://neogestify.com");
        put_line_feed(document);
        put_text(document, "neogestify.com\n");
        put_line_feed(document);
        put(document, TextType::AlignLeft);
        assert(document@ =~= old(document)@ + qr_part());
    }

    fn add_image_section(&self, document: &mut Vec<u8>, image_base64: &str) -> (scaled: Ghost<
        Picture,
    >)
        ensures
            scaled_for(image_base64@, 384, scaled@),
            final(document)@ == old(document)@ + image_part(image_base64@, scaled@),
    {
        put_heading(document, ">>> IMAGEN <<<\n");
        put_line_feed(document);
        let image: Image = Image {
            base64_image: image_base64.to_owned(),
            alignment: ImageAlignment::Center,
            mode: ImageMode::Normal,
            max_width: 384,
            use_dithering: true,
        };
        let command = image.get_command();
        let ghost picture = choose|picture: Picture| #[trigger]
            scaled_for(image.base64_image@, image.max_width, picture) && (match command {
                Ok(bytes) => Ok::<Seq<u8>, EncodeError>(bytes@),
                Err(e) => Err::<Seq<u8>, EncodeError>(e),
            }) == image.command(picture);
        match command {
            Ok(bytes) => {
                append_bytes(document, &bytes);
                put_line_feed(document);
            },
            Err(_) => {
                put_text(document, "Error al procesar imagen\n");
            },
        }
        assert(document@ =~= old(document)@ + image_part(image_base64@, picture));
        Ghost(picture)
    }

    fn add_feed_section(&self, document: &mut Vec<u8>)
        ensures
            final(document)@ == old(document)@ + feed_part(),
    {
        put_heading(document, ">>> CONTROL DE PAPEL <<<\n");
        put_text(document, "Avance de 2 lineas...\n");
        append_bytes(document, &PrinterControl::feed_paper(2));
        put_text(document, "Avance de papel en puntos...\n");
        append_bytes(document, &PrinterControl::feed_paper_dots(50));
        put_line_feed(document);
        assert(document@ =~= old(document)@ + feed_part());
    }

    fn add_cash_drawer_section(&self, document: &mut Vec<u8>)
        ensures
            final(document)@ == old(document)@ + drawer_part(),
    {
        put_heading(document, ">>> CAJON DE DINERO <<<\n");
        put_text(document, "Abriendo cajon (Pin 2)...\n");
        append_bytes(document, &PrinterControl::open_cash_drawer_pin2(100));
        put_line_feed(document);
        assert(document@ =~= old(document)@ + drawer_part());
    }

    fn add_closing_title(&self, document: &mut Vec<u8>)
        ensures
            final(document)@ == old(document)@ + (TextType::DoubleHeight.bytes() + utf8(
                "PRUEBA COMPLETADA\n"@,
            ) + TextType::Normal.bytes()),
    {
        put_styled(document, TextType::DoubleHeight, "PRUEBA COMPLETADA\n", TextType::Normal);
    }

    fn add_stamp(&self, document: &mut Vec<u8>, stamp: &str)
        ensures
            final(document)@ == old(document)@ + (utf8(stamp@) + seq![0x0Au8]),
    {
        put_text(document, stamp);
        put_line_feed(document);
        assert(document@ =~= old(document)@ + (utf8(stamp@) + seq![0x0Au8]));
    }

    fn add_footer(&self, document: &mut Vec<u8>, stamp: &str)
        ensures
            final(document)@ == old(document)@ + footer_part(self.paper_size, stamp@),
    {
        put_line_feed(document);
        put(document, TextType::AlignCenter);
        self.add_star_line(document);
        self.add_closing_title(document);
        self.add_star_line(document);
        self.add_stamp(document, stamp);
        put(document, TextType::AlignLeft);
        assert(document@ =~= old(document)@ + footer_part(self.paper_size, stamp@));
    }

    fn add_rule(&self, document: &mut Vec<u8>, c: char)
        ensures
            final(document)@ == old(document)@ + rule_line(self.paper_size, c),
    {
        let count: i32 = self.paper_size.chars_per_line();
        let line: String = repeated_char(c, count as usize);
        put_text(document, line.as_str());
        put_line_feed(document);
        assert(document@ =~= old(document)@ + rule_line(self.paper_size, c));
    }

    fn add_dashed_line(&self, document: &mut Vec<u8>)
        ensures
            final(document)@ == old(document)@ + rule_line(self.paper_size, '-'),
    {
        self.add_rule(document, '-');
    }

    fn add_double_line(&self, document: &mut Vec<u8>)
        ensures
            final(document)@ == old(document)@ + rule_line(self.paper_size, '='),
    {
        self.add_rule(document, '=');
    }

    fn add_star_line(&self, document: &mut Vec<u8>)
        ensures
            final(document)@ == old(document)@ + rule_line(self.paper_size, '*'),
    {
        self.add_rule(document, '*');
    }

    /// A line of a receipt: the label, dots, and the value at the right edge.
    pub fn create_receipt_line(&self, label: &str, value: &str) -> (r: String)
        ensures
            r@ == receipt_line(self.paper_size, label@, value@),
    {
        let total_width: u128 = self.paper_size.chars_per_line() as u128;
        let used: u128 = byte_len(label) as u128 + byte_len(value) as u128;
        let free: usize = if total_width <= used { 1 } else { (total_width - used) as usize };
        let dots: String = repeated_char('.', free);
        let mut line: String = label.to_owned();
        line.append(dots.as_str());
        line.append(value);
        line
    }
}

} // verus!
