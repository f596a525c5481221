//! The document encoder: walks the sections of a job in order, keeps the
//! text style that is in force, and builds the bytes of the whole document
//! in memory.

use vstd::prelude::*;
use vstd::string::*;
use crate::bytes::append_bytes;
use crate::commands_esc_pos::codes::barcode::{Barcode as BarcodeCommand, BarcodeTextPosition, BarcodeType};
use crate::commands_esc_pos::codes::data_matrix::{DataMatrix, DataMatrixSize};
use crate::commands_esc_pos::codes::pdf417::{PDF417ErrorCorrection, PDF417};
use crate::commands_esc_pos::codes::qr::{QRErrorCorrection, QRModel, QRSize, QR};
use crate::commands_esc_pos::control::printer_control::PrinterControl;
use crate::commands_esc_pos::image_escpos::image_code::{Image, ImageAlignment, ImageMode};
use crate::commands_esc_pos::image_escpos::logo::Logo as LogoCommand;
use crate::commands_esc_pos::image_escpos::image_processor::scaled_for;
use crate::commands_esc_pos::image_escpos::raster::Picture;
use crate::commands_esc_pos::text::table::process_table;
use crate::error::{EncodeError, ValidationError};
use crate::models::paper_size::PaperSize;
use crate::models::print_job_request::PrintJobRequest;
use crate::models::print_sections::{
    Barcode, Beep, Cut, DataMatrixModel, Drawer, Feed, GlobalStyles, Imagen, Line, Logo, Pdf417,
    PrintSections, Qr, Subtitle, Table, Text, Title,
};
use crate::models::printer_options::PrinterOptions;
use crate::process::sections::{
    barcode_section, barcode_type_named, base_style, beep_section, cut_section,
    data_matrix_section, data_matrix_size_of, document, drawer_section, epilogue, feed_section,
    image_alignment_named, image_max_width, image_mode_named, image_section, line_section,
    line_width, logo_section, pdf417_level_of, pdf417_section, picture_for, pictures_for,
    plain_text, some_picture_fits, some_picture_for, qr_level_named, qr_section, qr_size_of, qr_style, section_bytes,
    sections_bytes, sections_bytes_agree, sections_bytes_error_stays, style_after, style_at,
    styled_line, subtitle_style, text_position_named, title_style,
};
use crate::process::styles::{
    default_style, resolved, style_diff, AlignKind, FontKind, ResolvedStyle, SizeKind,
};
use crate::commands_esc_pos::text::table::table_bytes;
use crate::strings::{text_is, utf8_bytes};

verus! {

/// The encoder of one job.
#[derive(Debug, Clone, Copy)]
pub struct ProcessPrint {
    /// The text style in force.
    pub current_styles: ResolvedStyle,
    /// The options of the job that is being encoded.
    pub options: PrinterOptions,
    /// The paper of the job that is being encoded.
    pub paper_size: PaperSize,
}

/// A picture of no pixels.
pub open spec fn no_picture() -> Picture {
    Picture { width: 0, height: 0, data: Seq::empty() }
}

proof fn no_picture_has_channels()
    ensures
        no_picture().has_channels(4),
{
    assert(0int * 0int == 0) by (nonlinear_arith);
}

/// What one more section adds to the sections before it.
proof fn one_more_section(
    options: PrinterOptions,
    paper: PaperSize,
    sections: Seq<PrintSections>,
    scaled: Seq<Picture>,
    picture: Picture,
    i: nat,
)
    requires
        i < sections.len(),
        scaled.len() == i,
    ensures
        sections_bytes(options, paper, sections, scaled.push(picture), i + 1) == (
        match sections_bytes(options, paper, sections, scaled, i) {
            Err(e) => Err::<Seq<u8>, EncodeError>(e),
            Ok(bytes) => match section_bytes(
                options,
                paper,
                style_at(sections, i),
                sections[i as int],
                picture,
            ) {
                Err(e) => Err::<Seq<u8>, EncodeError>(e),
                Ok(more) => Ok::<Seq<u8>, EncodeError>(bytes + more),
            },
        }),
{
    sections_bytes_agree(options, paper, sections, scaled, scaled.push(picture), i);
}

/// A job whose section `i` fails has no document but that error.
proof fn first_failure(job: PrintJobRequest, scaled: Seq<Picture>, i: nat, e: EncodeError)
    requires
        i < job.sections@.len(),
        job.printer@.len() > 0,
        scaled.len() == i + 1,
        forall|j: int|
            0 <= j <= i ==> picture_for(job.paper_size, job.sections@[j], #[trigger] scaled[j]),
        sections_bytes(job.options, job.paper_size, job.sections@, scaled, i + 1) == Err::<
            Seq<u8>,
            EncodeError,
        >(e),
    ensures
        exists|all: Seq<Picture>| #[trigger]
            pictures_for(job, all) && document(job, all) == Err::<Seq<u8>, EncodeError>(e),
{
    let count = job.sections@.len();
    let all = Seq::new(
        count,
        |j: int|
            if j <= i {
                scaled[j]
            } else {
                some_picture_for(job.paper_size, job.sections@[j])
            },
    );
    sections_bytes_agree(job.options, job.paper_size, job.sections@, scaled, all, i + 1);
    sections_bytes_error_stays(job.options, job.paper_size, job.sections@, all, i + 1, count);
    assert forall|j: int| 0 <= j < all.len() implies picture_for(
        job.paper_size,
        job.sections@[j],
        #[trigger] all[j],
    ) by {
        some_picture_fits(job.paper_size, job.sections@[j]);
    }
    assert(pictures_for(job, all));
}

/// The outcome of encoding as a value.
pub open spec fn outcome(r: Result<Vec<u8>, EncodeError>) -> Result<Seq<u8>, EncodeError> {
    match r {
        Ok(bytes) => Ok(bytes@),
        Err(e) => Err(e),
    }
}

fn barcode_type_of(name: &str) -> (r: BarcodeType)
    ensures
        r == barcode_type_named(name@),
{
    if text_is(name, "UPC-A") {
        BarcodeType::UpcA
    } else if text_is(name, "UPC-E") {
        BarcodeType::UpcE
    } else if text_is(name, "EAN13") {
        BarcodeType::Ean13
    } else if text_is(name, "EAN8") {
        BarcodeType::Ean8
    } else if text_is(name, "CODE39") {
        BarcodeType::Code39
    } else if text_is(name, "ITF") {
        BarcodeType::Itf
    } else if text_is(name, "CODABAR") {
        BarcodeType::Codabar
    } else if text_is(name, "CODE93") {
        BarcodeType::Code93
    } else {
        BarcodeType::Code128
    }
}

fn text_position_of(name: &str) -> (r: BarcodeTextPosition)
    ensures
        r == text_position_named(name@),
{
    if text_is(name, "above") {
        BarcodeTextPosition::Above
    } else if text_is(name, "below") {
        BarcodeTextPosition::Below
    } else if text_is(name, "both") {
        BarcodeTextPosition::Both
    } else {
        BarcodeTextPosition::NotPrinted
    }
}

fn qr_size_from(size: u8) -> (r: QRSize)
    ensures
        r == qr_size_of(size),
{
    match size {
        1 => QRSize::Size1,
        2 => QRSize::Size2,
        3 => QRSize::Size3,
        4 => QRSize::Size4,
        5 => QRSize::Size5,
        6 => QRSize::Size6,
        7 => QRSize::Size7,
        8 => QRSize::Size8,
        9 => QRSize::Size9,
        10 => QRSize::Size10,
        11 => QRSize::Size11,
        12 => QRSize::Size12,
        13 => QRSize::Size13,
        14 => QRSize::Size14,
        15 => QRSize::Size15,
        16 => QRSize::Size16,
        _ => QRSize::Size6,
    }
}

fn qr_level_of(name: &str) -> (r: QRErrorCorrection)
    ensures
        r == qr_level_named(name@),
{
    if text_is(name, "L") {
        QRErrorCorrection::L
    } else if text_is(name, "Q") {
        QRErrorCorrection::Q
    } else if text_is(name, "H") {
        QRErrorCorrection::H
    } else {
        QRErrorCorrection::M
    }
}

fn pdf417_level_from(level: u8) -> (r: PDF417ErrorCorrection)
    ensures
        r == pdf417_level_of(level),
{
    match level {
        0 => PDF417ErrorCorrection::Level0,
        1 => PDF417ErrorCorrection::Level1,
        2 => PDF417ErrorCorrection::Level2,
        3 => PDF417ErrorCorrection::Level3,
        4 => PDF417ErrorCorrection::Level4,
        5 => PDF417ErrorCorrection::Level5,
        6 => PDF417ErrorCorrection::Level6,
        7 => PDF417ErrorCorrection::Level7,
        8 => PDF417ErrorCorrection::Level8,
        _ => PDF417ErrorCorrection::Level1,
    }
}

fn data_matrix_size_from(size: u8) -> (r: DataMatrixSize)
    ensures
        r == data_matrix_size_of(size),
{
    match size {
        1 => DataMatrixSize::Size1,
        2 => DataMatrixSize::Size2,
        3 => DataMatrixSize::Size3,
        4 => DataMatrixSize::Size4,
        5 => DataMatrixSize::Size5,
        6 => DataMatrixSize::Size6,
        7 => DataMatrixSize::Size7,
        8 => DataMatrixSize::Size8,
        9 => DataMatrixSize::Size9,
        10 => DataMatrixSize::Size10,
        11 => DataMatrixSize::Size11,
        12 => DataMatrixSize::Size12,
        13 => DataMatrixSize::Size13,
        14 => DataMatrixSize::Size14,
        15 => DataMatrixSize::Size15,
        16 => DataMatrixSize::Size16,
        _ => DataMatrixSize::Size6,
    }
}

fn image_alignment_of(name: &str) -> (r: ImageAlignment)
    ensures
        r == image_alignment_named(name@),
{
    if text_is(name, "left") {
        ImageAlignment::Left
    } else if text_is(name, "right") {
        ImageAlignment::Right
    } else {
        ImageAlignment::Center
    }
}

fn image_mode_of(name: &str) -> (r: ImageMode)
    ensures
        r == image_mode_named(name@),
{
    if text_is(name, "double_width") {
        ImageMode::DoubleWidth
    } else if text_is(name, "double_height") {
        ImageMode::DoubleHeight
    } else if text_is(name, "quadruple") {
        ImageMode::Quadruple
    } else {
        ImageMode::Normal
    }
}

fn with_line_feed(command: Result<Vec<u8>, EncodeError>) -> (r: Result<Vec<u8>, EncodeError>)
    ensures
        match command {
            Ok(bytes) => r matches Ok(out) && out@ == bytes@ + seq![0x0Au8],
            Err(e) => r == Err::<Vec<u8>, EncodeError>(e),
        },
{
    match command {
        Ok(bytes) => {
            let mut out: Vec<u8> = bytes;
            out.push(0x0A);
            Ok(out)
        },
        Err(e) => Err(e),
    }
}

impl ProcessPrint {
    /// An encoder for a printer that was reset, with the default options
    /// and paper of 80 mm.
    pub fn new() -> (r: Self)
        ensures
            r.current_styles == default_style(),
            r.options == (PrinterOptions { cut_paper: true, beep: false, open_cash_drawer: false }),
            r.paper_size == PaperSize::Mm80,
    {
        ProcessPrint {
            current_styles: ResolvedStyle::default(),
            options: PrinterOptions::default(),
            paper_size: PaperSize::Mm80,
        }
    }

    /// Encodes a job. The style in force starts at the defaults of the
    /// printer, which the document resets first; the sections follow in
    /// order, and the first that fails ends the encoding with its error.
    /// Where an image is scaled, the document holds whatever picture the
    /// filter has returned for it. After a job that was encoded, the encoder
    /// holds its options, its paper, and the style that its sections left.
    pub fn generate_document(&mut self, print_job: &PrintJobRequest) -> (r: Result<
        Vec<u8>,
        EncodeError,
    >)
        ensures
            exists|scaled: Seq<Picture>| #[trigger]
                pictures_for(*print_job, scaled) && outcome(r) == document(*print_job, scaled),
            r is Ok ==> final(self).options == print_job.options && final(self).paper_size
                == print_job.paper_size && final(self).current_styles == style_at(
                print_job.sections@,
                print_job.sections@.len(),
            ),
    {
        let count: usize = print_job.sections.len();
        let ghost sections = print_job.sections@;
        let ghost options = print_job.options;
        let ghost paper = print_job.paper_size;
        let ghost blank = Seq::new(count as nat, |j: int| some_picture_for(paper, sections[j]));
        proof {
            assert forall|j: int| 0 <= j < blank.len() implies picture_for(
                paper,
                sections[j],
                #[trigger] blank[j],
            ) by {
                some_picture_fits(paper, sections[j]);
            }
            assert(pictures_for(*print_job, blank));
        }
        if count == 0 {
            return Err(EncodeError::Validation(ValidationError::EmptySections));
        }
        if print_job.printer.as_str().is_empty() {
            return Err(EncodeError::Validation(ValidationError::BlankPrinter));
        }
        self.current_styles = ResolvedStyle::default();
        self.options = print_job.options;
        self.paper_size = print_job.paper_size;
        let mut output: Vec<u8> = PrinterControl::initialize();
        let ghost mut scaled: Seq<Picture> = Seq::empty();
        let ghost mut body: Seq<u8> = Seq::empty();
        let mut i: usize = 0;
        assert(output@ =~= seq![0x1Bu8, 0x40u8] + body);
        while i < count
            invariant
                i <= count,
                count == sections.len(),
                count > 0,
                print_job.printer@.len() > 0,
                sections == print_job.sections@,
                options == print_job.options,
                paper == print_job.paper_size,
                self.options == options,
                self.paper_size == paper,
                self.current_styles == style_at(sections, i as nat),
                scaled.len() == i,
                forall|j: int| 0 <= j < i ==> picture_for(paper, sections[j], #[trigger] scaled[j]),
                sections_bytes(options, paper, sections, scaled, i as nat) == Ok::<
                    Seq<u8>,
                    EncodeError,
                >(body),
                output@ == seq![0x1Bu8, 0x40u8] + body,
            decreases count - i,
        {
            let ghost style = self.current_styles;
            let result = self.process_print_section(&print_job.sections[i]);
            let ghost picture = choose|p: Picture| #[trigger]
                picture_for(paper, sections[i as int], p) && outcome(result) == section_bytes(
                    options,
                    paper,
                    style,
                    sections[i as int],
                    p,
                );
            proof {
                one_more_section(options, paper, sections, scaled, picture, i as nat);
            }
            match result {
                Ok(bytes) => {
                    append_bytes(&mut output, &bytes);
                    proof {
                        scaled = scaled.push(picture);
                        body = body + bytes@;
                        assert(output@ =~= seq![0x1Bu8, 0x40u8] + body);
                    }
                },
                Err(e) => {
                    proof {
                        first_failure(*print_job, scaled.push(picture), i as nat, e);
                    }
                    return Err(e);
                },
            }
            i += 1;
        }
        if self.options.cut_paper {
            append_bytes(&mut output, &PrinterControl::feed_paper(5));
            append_bytes(&mut output, &PrinterControl::cut_paper_with_feed(65, 0));
        }
        if self.options.open_cash_drawer {
            append_bytes(&mut output, &PrinterControl::open_cash_drawer_pin2(100));
        }
        proof {
            assert(pictures_for(*print_job, scaled));
            assert(output@ =~= seq![0x1Bu8, 0x40u8] + body + epilogue(options));
        }
        Ok(output)
    }

    /// Encodes one section in the style in force. Only a section of global
    /// styles changes that style.
    pub fn process_print_section(&mut self, print_section: &PrintSections) -> (r: Result<
        Vec<u8>,
        EncodeError,
    >)
        ensures
            exists|scaled: Picture| #[trigger]
                picture_for(old(self).paper_size, *print_section, scaled) && outcome(r)
                    == section_bytes(
                    old(self).options,
                    old(self).paper_size,
                    old(self).current_styles,
                    *print_section,
                    scaled,
                ),
            final(self).current_styles == style_after(old(self).current_styles, *print_section),
            final(self).options == old(self).options,
            final(self).paper_size == old(self).paper_size,
    {
        proof {
            no_picture_has_channels();
        }
        let r = match print_section {
            PrintSections::Image(imagen) => {
                let r = self.process_imagen(imagen);
                proof {
                    let scaled = choose|scaled: Picture| #[trigger]
                        scaled_for(
                            imagen.data@,
                            image_max_width(old(self).paper_size, *imagen),
                            scaled,
                        ) && outcome(r) == section_bytes(
                            old(self).options,
                            old(self).paper_size,
                            old(self).current_styles,
                            PrintSections::Image(*imagen),
                            scaled,
                        );
                    assert(picture_for(old(self).paper_size, *print_section, scaled));
                }
                return r;
            },
            PrintSections::Title(title) => self.process_title(title),
            PrintSections::Subtitle(subtitle) => self.process_subtitle(subtitle),
            PrintSections::Text(text) => self.process_text(text),
            PrintSections::Feed(feed) => self.process_feed(feed),
            PrintSections::Cut(cut) => self.process_cut(cut),
            PrintSections::Beep(beep) => self.process_beep(beep),
            PrintSections::Drawer(drawer) => self.process_drawer(drawer),
            PrintSections::GlobalStyles(styles) => self.set_global_styles(styles),
            PrintSections::Barcode(barcode) => self.process_barcode(barcode),
            PrintSections::Qr(qr) => self.process_qr(qr),
            PrintSections::Pdf417(code) => self.process_pdf417(code),
            PrintSections::Logo(logo) => self.process_logo(logo),
            PrintSections::DataMatrix(code) => self.process_data_matrix(code),
            PrintSections::Table(table) => self.process_table_fn(table),
            PrintSections::Line(line) => self.process_line(line),
        };
        assert(picture_for(old(self).paper_size, *print_section, no_picture()));
        assert(outcome(r) == section_bytes(
            old(self).options,
            old(self).paper_size,
            old(self).current_styles,
            *print_section,
            no_picture(),
        ));
        r
    }

    /// A line of text in style `effective`, with the way there and back.
    fn styled(&self, effective: &ResolvedStyle, text: &str) -> (r: Vec<u8>)
        ensures
            r@ == styled_line(self.current_styles, *effective, text@),
    {
        let mut output: Vec<u8> = self.current_styles.diff(effective);
        let clean: String = Self::remove_accents(text);
        append_bytes(&mut output, &utf8_bytes(clean.as_str()));
        output.push(0x0A);
        append_bytes(&mut output, &effective.diff(&self.current_styles));
        output
    }

    fn base(&self, styles: &Option<GlobalStyles>) -> (r: ResolvedStyle)
        ensures
            r == base_style(*styles, self.current_styles),
    {
        match styles {
            Some(own) => ResolvedStyle::resolve(own),
            None => self.current_styles,
        }
    }

    /// A title: its text in double size and centred, and the style in force
    /// as it was.
    pub fn process_title(&mut self, title: &Title) -> (r: Result<Vec<u8>, EncodeError>)
        ensures
            r matches Ok(bytes) && bytes@ == styled_line(
                old(self).current_styles,
                title_style(base_style(title.styles, old(self).current_styles)),
                title.text@,
            ),
            *final(self) == *old(self),
    {
        let mut effective: ResolvedStyle = self.base(&title.styles);
        effective.size = SizeKind::Double;
        effective.align = AlignKind::Center;
        Ok(self.styled(&effective, title.text.as_str()))
    }

    /// A subtitle: its text in double height and bold, and the style in
    /// force as it was.
    pub fn process_subtitle(&mut self, subtitle: &Subtitle) -> (r: Result<Vec<u8>, EncodeError>)
        ensures
            r matches Ok(bytes) && bytes@ == styled_line(
                old(self).current_styles,
                subtitle_style(base_style(subtitle.styles, old(self).current_styles)),
                subtitle.text@,
            ),
            *final(self) == *old(self),
    {
        let mut effective: ResolvedStyle = self.base(&subtitle.styles);
        effective.size = SizeKind::Height;
        effective.bold = true;
        Ok(self.styled(&effective, subtitle.text.as_str()))
    }

    /// A line of text in its own style, or in the style in force where it
    /// has none, and the style in force as it was.
    pub fn process_text(&mut self, text: &Text) -> (r: Result<Vec<u8>, EncodeError>)
        ensures
            r matches Ok(bytes) && bytes@ == styled_line(
                old(self).current_styles,
                base_style(text.styles, old(self).current_styles),
                text.text@,
            ),
            *final(self) == *old(self),
    {
        let effective: ResolvedStyle = self.base(&text.styles);
        Ok(self.styled(&effective, text.text.as_str()))
    }

    /// A feed by lines, by dots or by line feeds. Another kind is refused.
    pub fn process_feed(&mut self, feed: &Feed) -> (r: Result<Vec<u8>, EncodeError>)
        ensures
            outcome(r) == feed_section(*feed),
            *final(self) == *old(self),
    {
        let kind: &str = feed.feed_type.as_str();
        if text_is(kind, "lines") {
            Ok(PrinterControl::feed_paper(feed.value))
        } else if text_is(kind, "dots") {
            Ok(PrinterControl::feed_paper_dots(feed.value))
        } else if text_is(kind, "line_feed") {
            Ok(PrinterControl::line_feed_multiple(feed.value as usize))
        } else {
            Err(EncodeError::Validation(ValidationError::UnknownFeedType))
        }
    }

    /// A cut, or eight line feeds where the job does not cut.
    pub fn process_cut(&mut self, cut: &Cut) -> (r: Result<Vec<u8>, EncodeError>)
        ensures
            r matches Ok(bytes) && bytes@ == cut_section(old(self).options, *cut),
            *final(self) == *old(self),
    {
        if !self.options.cut_paper {
            return Ok(PrinterControl::line_feed_multiple(8));
        }
        let name: &str = cut.mode.as_str();
        let mode: u8 = if text_is(name, "full") || text_is(name, "partial_alt2") { 66 } else { 65 };
        Ok(PrinterControl::cut_paper_with_feed(mode, cut.feed))
    }

    /// A buzzer signal, or nothing where the job is silent.
    pub fn process_beep(&mut self, beep: &Beep) -> (r: Result<Vec<u8>, EncodeError>)
        ensures
            r matches Ok(bytes) && bytes@ == beep_section(old(self).options, *beep),
            *final(self) == *old(self),
    {
        if !self.options.beep {
            return Ok(Vec::new());
        }
        let times: u8 = if beep.times == 0 { 1 } else { beep.times };
        let duration: u8 = if beep.duration == 0 { 100 } else { beep.duration };
        Ok(PrinterControl::beep_custom(times, duration))
    }

    /// A drawer pulse on pin 2 or pin 5.
    pub fn process_drawer(&mut self, drawer: &Drawer) -> (r: Result<Vec<u8>, EncodeError>)
        ensures
            r matches Ok(bytes) && bytes@ == drawer_section(*drawer),
            *final(self) == *old(self),
    {
        if drawer.pin == 2 {
            Ok(PrinterControl::open_cash_drawer_pin2(drawer.pulse_time))
        } else {
            Ok(PrinterControl::open_cash_drawer_pin5(drawer.pulse_time))
        }
    }

    /// A barcode and a line feed. Data of more than 255 bytes are refused.
    pub fn process_barcode(&mut self, barcode: &Barcode) -> (r: Result<Vec<u8>, EncodeError>)
        ensures
            outcome(r) == barcode_section(*barcode),
            *final(self) == *old(self),
    {
        let kind: BarcodeType = barcode_type_of(barcode.barcode_type.as_str());
        let position: BarcodeTextPosition = text_position_of(barcode.text_position.as_str());
        let command: BarcodeCommand = BarcodeCommand::new(kind, barcode.data.clone()).set_height(
            barcode.height,
        ).set_width(barcode.width).set_text_position(position);
        with_line_feed(command.get_command())
    }

    /// A QR code in its own alignment and a line feed, and the style in
    /// force as it was. Data of more than 65532 bytes are refused.
    pub fn process_qr(&mut self, qr: &Qr) -> (r: Result<Vec<u8>, EncodeError>)
        ensures
            outcome(r) == qr_section(old(self).current_styles, *qr),
            *final(self) == *old(self),
    {
        let model: QRModel = if qr.model == 1 { QRModel::Model1 } else { QRModel::Model2 };
        let command: QR = QR::new(qr.data.clone()).set_model(model).set_size(
            qr_size_from(qr.size),
        ).set_error_correction(qr_level_of(qr.error_correction.as_str()));
        let mut style: ResolvedStyle = self.current_styles;
        if qr.align.is_some() {
            style.align = AlignKind::resolve(&qr.align);
        }
        assert(style == qr_style(self.current_styles, *qr));
        let code: Vec<u8> = command.get_command()?;
        let mut output: Vec<u8> = self.current_styles.diff(&style);
        append_bytes(&mut output, &code);
        output.push(0x0A);
        append_bytes(&mut output, &style.diff(&self.current_styles));
        assert(output@ =~= style_diff(self.current_styles, style) + code@ + seq![0x0Au8]
            + style_diff(style, self.current_styles));
        Ok(output)
    }

    /// A PDF417 code and a line feed. Data of more than 65532 bytes are
    /// refused.
    pub fn process_pdf417(&mut self, pdf417: &Pdf417) -> (r: Result<Vec<u8>, EncodeError>)
        ensures
            outcome(r) == pdf417_section(*pdf417),
            *final(self) == *old(self),
    {
        let command: PDF417 = PDF417::new(pdf417.data.clone()).set_columns(pdf417.columns).set_rows(
            pdf417.rows,
        ).set_height(pdf417.height).set_width(pdf417.width).set_error_correction(
            pdf417_level_from(pdf417.error_correction),
        );
        with_line_feed(command.get_command())
    }

    /// An image and a line feed. An image text that holds no picture is
    /// refused. Where the picture is too wide it is scaled, and the bytes
    /// are those of whatever picture the filter returns.
    pub fn process_imagen(&mut self, imagen: &Imagen) -> (r: Result<Vec<u8>, EncodeError>)
        ensures
            exists|scaled: Picture| #[trigger]
                scaled_for(imagen.data@, image_max_width(old(self).paper_size, *imagen), scaled)
                    && outcome(r) == section_bytes(
                    old(self).options,
                    old(self).paper_size,
                    old(self).current_styles,
                    PrintSections::Image(*imagen),
                    scaled,
                ),
            *final(self) == *old(self),
    {
        let paper_width: i32 = self.paper_size.pixels_width();
        let max_width: u32 = if imagen.max_width > paper_width || imagen.max_width <= 0 {
            paper_width as u32
        } else {
            imagen.max_width as u32
        };
        let image: Image = Image {
            base64_image: imagen.data.clone(),
            alignment: image_alignment_of(imagen.align.as_str()),
            mode: image_mode_of(imagen.size.as_str()),
            max_width,
            use_dithering: imagen.dithering,
        };
        let command = image.get_command();
        let r = with_line_feed(command);
        proof {
            let scaled = choose|scaled: Picture| #[trigger]
                scaled_for(image.base64_image@, image.max_width, scaled) && outcome(command)
                    == image.command(scaled);
            assert(outcome(r) == image_section(self.paper_size, *imagen, scaled));
            assert(scaled_for(imagen.data@, image_max_width(self.paper_size, *imagen), scaled));
        }
        r
    }

    /// The print command of a stored logo and a line feed.
    pub fn process_logo(&mut self, logo: &Logo) -> (r: Result<Vec<u8>, EncodeError>)
        ensures
            r matches Ok(bytes) && bytes@ == logo_section(*logo),
            *final(self) == *old(self),
    {
        let command: LogoCommand = LogoCommand::new(logo.key_code).set_mode(
            image_mode_of(logo.mode.as_str()),
        );
        let mut output: Vec<u8> = command.get_print_command();
        output.push(0x0A);
        assert(output@ =~= logo_section(*logo));
        Ok(output)
    }

    /// A DataMatrix code and a line feed. Data of more than 65532 bytes are
    /// refused.
    pub fn process_data_matrix(&mut self, data_matrix: &DataMatrixModel) -> (r: Result<
        Vec<u8>,
        EncodeError,
    >)
        ensures
            outcome(r) == data_matrix_section(*data_matrix),
            *final(self) == *old(self),
    {
        let command: DataMatrix = DataMatrix::new(data_matrix.data.clone()).set_size(
            data_matrix_size_from(data_matrix.size),
        );
        with_line_feed(command.get_command())
    }

    /// A table, laid out for the width of the paper in dots.
    pub fn process_table_fn(&mut self, table: &Table) -> (r: Result<Vec<u8>, EncodeError>)
        ensures
            r matches Ok(bytes) && bytes@ == table_bytes(
                *table,
                old(self).paper_size.pixels(),
                table.truncate,
            ),
            *final(self) == *old(self),
    {
        Ok(process_table(table, self.paper_size.pixels_width(), table.truncate))
    }

    /// A horizontal rule as wide as the line in the style in force.
    pub fn process_line(&mut self, line: &Line) -> (r: Result<Vec<u8>, EncodeError>)
        ensures
            r matches Ok(bytes) && bytes@ == line_section(
                old(self).paper_size,
                old(self).current_styles,
                *line,
            ),
            *final(self) == *old(self),
    {
        let count: usize = self.calculate_line_width();
        let text: &str = line.character.as_str();
        let character: char = if text.unicode_len() > 0 { text.get_char(0) } else { '-' };
        let mut rule: String = String::new();
        let mut i: usize = 0;
        while i < count
            invariant
                i <= count,
                rule@ =~= Seq::new(i as nat, |j: int| character),
            decreases count - i,
        {
            rule.push(character);
            i += 1;
        }
        let mut output: Vec<u8> = utf8_bytes(rule.as_str());
        output.push(0x0A);
        Ok(output)
    }

    /// The characters that fit a line in the style in force.
    pub fn calculate_line_width(&self) -> (r: usize)
        ensures
            r == line_width(self.paper_size, self.current_styles),
    {
        let tenths_of_size: i32 = match self.current_styles.size {
            SizeKind::Width => 5,
            SizeKind::Double => 5,
            _ => 10,
        };
        let tenths_of_font: i32 = match self.current_styles.font {
            FontKind::B => 13,
            FontKind::C => 15,
            _ => 10,
        };
        let chars: i32 = self.paper_size.chars_per_line();
        let width: i32 = (chars * tenths_of_size * tenths_of_font) / 100;
        if width < 10 {
            10
        } else {
            width as usize
        }
    }

    /// Makes `styles` the style in force, and returns the commands that
    /// lead there from the style that was in force.
    pub fn set_global_styles(&mut self, styles: &GlobalStyles) -> (r: Result<Vec<u8>, EncodeError>)
        ensures
            r matches Ok(bytes) && bytes@ == style_diff(old(self).current_styles, resolved(*styles)),
            final(self).current_styles == resolved(*styles),
            final(self).options == old(self).options,
            final(self).paper_size == old(self).paper_size,
    {
        let to: ResolvedStyle = ResolvedStyle::resolve(styles);
        let diff: Vec<u8> = self.current_styles.diff(&to);
        self.current_styles = to;
        Ok(diff)
    }

    /// The commands that lead from one set of styles to another.
    pub fn get_styles_diff(&self, from: &GlobalStyles, to: &GlobalStyles) -> (r: Vec<u8>)
        ensures
            r@ == style_diff(resolved(*from), resolved(*to)),
    {
        ResolvedStyle::resolve(from).diff(&ResolvedStyle::resolve(to))
    }

    /// Running text as it is sent to the printer.
    pub fn remove_accents(text: &str) -> (r: String)
        ensures
            r@ == plain_text(text@),
    {
        let mut out: String = String::new();
        for c in it: text.chars()
            invariant
                it.seq() == text@,
                out@ =~= plain_text(text@.take(it.index())),
        {
            let plain: char = if c == 'á' {
                'a'
            } else if c == 'Á' {
                'A'
            } else if c == 'é' {
                'e'
            } else if c == 'É' {
                'E'
            } else if c == 'í' {
                'i'
            } else if c == 'Í' {
                'I'
            } else if c == 'ó' {
                'o'
            } else if c == 'Ó' {
                'O'
            } else if c == 'ú' || c == 'ü' {
                'u'
            } else if c == 'Ú' || c == 'Ü' {
                'U'
            } else if c == 'ñ' {
                'n'
            } else if c == 'Ñ' {
                'N'
            } else if c == '¿' {
                '?'
            } else if c == '¡' {
                '!'
            } else {
                c
            };
            out.push(plain);
        }
        assert(text@.take(text@.len() as int) =~= text@);
        out
    }
}

} // verus!
