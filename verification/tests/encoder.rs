use thermal_printer::error::{DecodeError, EncodeError, ValidationError};
use thermal_printer::models::paper_size::PaperSize;
use thermal_printer::models::print_job_request::PrintJobRequest;
use thermal_printer::models::print_sections::{
    Barcode, Beep, Cut, DataMatrixModel, Drawer, Feed, GlobalStyles, Imagen, Line, Logo, Pdf417,
    PrintSections, Qr, Subtitle, Table, Text, Title,
};
use thermal_printer::models::printer_options::PrinterOptions;
use thermal_printer::process::process_print::ProcessPrint;
use thermal_printer::process::styles::{FontKind, ResolvedStyle, SizeKind};

const RGBA_2X2: &str = "iVBORw0KGgoAAAANSUhEUgAAAAIAAAACCAYAAABytg0kAAAAGElEQVR4nGNgYGD4DwIM/xkYUurr6/8DAEs4CNuFh2w5AAAAAElFTkSuQmCC";
const RGB_8X2: &str = "iVBORw0KGgoAAAANSUhEUgAAAAgAAAACCAIAAADq9gq6AAAAJUlEQVR4nGNgYGBQUFBwcHBISEhoaGhYsGDBgQMHHjx4wIBLAgCuwRUB2gVjAAAAAABJRU5ErkJggg==";

fn quiet() -> PrinterOptions {
    PrinterOptions { cut_paper: false, beep: false, open_cash_drawer: false }
}

fn job(sections: Vec<PrintSections>, options: PrinterOptions) -> PrintJobRequest {
    PrintJobRequest {
        printer: "POS-80".to_string(),
        connection: None,
        sections,
        options,
        paper_size: PaperSize::Mm80,
    }
}

fn encode(sections: Vec<PrintSections>, options: PrinterOptions) -> Result<Vec<u8>, EncodeError> {
    ProcessPrint::new().generate_document(&job(sections, options))
}

fn unset() -> GlobalStyles {
    GlobalStyles {
        bold: None,
        underline: None,
        align: None,
        italic: None,
        invert: None,
        font: None,
        rotate: None,
        upside_down: None,
        size: None,
    }
}

fn text(words: &str) -> PrintSections {
    PrintSections::Text(Text { text: words.to_string(), styles: None })
}

#[test]
fn empty_sections_are_refused() {
    assert_eq!(
        encode(Vec::new(), quiet()),
        Err(EncodeError::Validation(ValidationError::EmptySections))
    );
}

#[test]
fn blank_printer_is_refused() {
    let mut request = job(vec![text("x")], quiet());
    request.printer = String::new();
    assert_eq!(
        ProcessPrint::new().generate_document(&request),
        Err(EncodeError::Validation(ValidationError::BlankPrinter))
    );
    request.sections.clear();
    assert_eq!(
        ProcessPrint::new().generate_document(&request),
        Err(EncodeError::Validation(ValidationError::EmptySections))
    );
}

#[test]
fn error_messages() {
    assert_eq!(
        EncodeError::Validation(ValidationError::EmptySections).message(),
        "No sections to print"
    );
    assert_eq!(
        EncodeError::Validation(ValidationError::BlankPrinter).message(),
        "Printer not specified"
    );
    assert_eq!(
        EncodeError::Validation(ValidationError::UnknownFeedType).message(),
        "Unknown feed type"
    );
    assert_eq!(
        EncodeError::Validation(ValidationError::PayloadTooLong).message(),
        "Code data too long"
    );
    assert!(EncodeError::Decode(DecodeError::Base64).message().starts_with("Failed to create image"));
    assert!(EncodeError::Decode(DecodeError::Image).message().starts_with("Failed to create image"));
}

#[test]
fn document_starts_with_initialize() {
    assert_eq!(encode(vec![text("hi")], quiet()).unwrap(), vec![0x1B, 0x40, 0x68, 0x69, 0x0A]);
}

#[test]
fn default_styles_then_plain_text_has_no_style_bytes() {
    let sections = vec![PrintSections::GlobalStyles(GlobalStyles::default()), text("hola")];
    assert_eq!(
        encode(sections, quiet()).unwrap(),
        vec![0x1B, 0x40, 0x68, 0x6F, 0x6C, 0x61, 0x0A]
    );
}

#[test]
fn epilogue_cuts_and_opens_the_drawer() {
    let cut = PrinterOptions { cut_paper: true, beep: false, open_cash_drawer: false };
    assert_eq!(
        encode(vec![text("a")], cut).unwrap(),
        vec![0x1B, 0x40, 0x61, 0x0A, 0x1B, 0x64, 5, 0x1D, 0x56, 65, 0]
    );
    let both = PrinterOptions { cut_paper: true, beep: false, open_cash_drawer: true };
    assert_eq!(
        encode(vec![text("a")], both).unwrap(),
        vec![0x1B, 0x40, 0x61, 0x0A, 0x1B, 0x64, 5, 0x1D, 0x56, 65, 0, 0x1B, 0x70, 0, 50, 50]
    );
    let drawer = PrinterOptions { cut_paper: false, beep: false, open_cash_drawer: true };
    assert_eq!(
        encode(vec![text("a")], drawer).unwrap(),
        vec![0x1B, 0x40, 0x61, 0x0A, 0x1B, 0x70, 0, 50, 50]
    );
}

#[test]
fn section_cut_and_epilogue_cut_both_fire() {
    let options = PrinterOptions { cut_paper: true, beep: false, open_cash_drawer: true };
    let sections = vec![
        PrintSections::Cut(Cut { mode: "full".to_string(), feed: 3 }),
        PrintSections::Drawer(Drawer { pin: 2, pulse_time: 200 }),
    ];
    assert_eq!(
        encode(sections, options).unwrap(),
        vec![
            0x1B, 0x40, 0x1D, 0x56, 66, 3, 0x1B, 0x70, 0, 100, 100, 0x1B, 0x64, 5, 0x1D, 0x56, 65,
            0, 0x1B, 0x70, 0, 50, 50
        ]
    );
}

#[test]
fn title_is_double_and_centred_and_restores() {
    let mut encoder = ProcessPrint::new();
    let before = encoder.current_styles;
    let bytes = encoder
        .process_title(&Title { text: "Hi".to_string(), styles: None })
        .unwrap();
    assert_eq!(
        bytes,
        vec![
            0x1B, 0x21, 0x30, 0x1B, 0x61, 0x01, 0x48, 0x69, 0x0A, 0x1B, 0x21, 0x00, 0x1B, 0x61,
            0x00
        ]
    );
    assert_eq!(encoder.current_styles, before);
}

#[test]
fn title_leaves_the_current_style_as_it_was() {
    let mut encoder = ProcessPrint::new();
    let mut styles = unset();
    styles.bold = Some(true);
    styles.font = Some("b".to_string());
    styles.size = Some("double".to_string());
    encoder.set_global_styles(&styles).unwrap();
    let before = encoder.current_styles;
    let mut own = unset();
    own.underline = Some(true);
    let bytes = encoder
        .process_title(&Title { text: "T".to_string(), styles: Some(own) })
        .unwrap();
    assert_eq!(encoder.current_styles, before);
    assert_eq!(
        bytes,
        vec![
            0x1B, 0x45, 0x00, 0x1B, 0x2D, 0x01, 0x1B, 0x4D, 0x00, 0x1B, 0x61, 0x01, 0x54, 0x0A,
            0x1B, 0x45, 0x01, 0x1B, 0x2D, 0x00, 0x1B, 0x4D, 0x01, 0x1B, 0x61, 0x00
        ]
    );
    let again = encoder.process_print_section(&text("x")).unwrap();
    assert_eq!(again, vec![0x78, 0x0A]);
    assert_eq!(encoder.current_styles, before);
}

#[test]
fn subtitle_is_tall_and_bold() {
    let mut encoder = ProcessPrint::new();
    let bytes = encoder
        .process_subtitle(&Subtitle { text: "S".to_string(), styles: None })
        .unwrap();
    assert_eq!(
        bytes,
        vec![
            0x1B, 0x45, 0x01, 0x1B, 0x21, 0x10, 0x53, 0x0A, 0x1B, 0x45, 0x00, 0x1B, 0x21, 0x00
        ]
    );
    assert_eq!(encoder.current_styles, ResolvedStyle::default());
}

#[test]
fn text_with_own_styles() {
    let mut encoder = ProcessPrint::new();
    let mut own = unset();
    own.italic = Some(true);
    own.align = Some("RIGHT".to_string());
    let bytes = encoder
        .process_text(&Text { text: "¿Qué? ¡Ñu!".to_string(), styles: Some(own) })
        .unwrap();
    let mut expected = vec![0x1B, 0x34, 0x1B, 0x61, 0x02];
    expected.extend_from_slice("?Que? !Nu!\n".as_bytes());
    expected.extend_from_slice(&[0x1B, 0x35, 0x1B, 0x61, 0x00]);
    assert_eq!(bytes, expected);
}

#[test]
fn running_text_loses_its_accents() {
    assert_eq!(ProcessPrint::remove_accents("áÁéÉíÍóÓúÚ"), "aAeEiIoOuU");
    assert_eq!(ProcessPrint::remove_accents("ñÑüÜ¿¡"), "nNuU?!");
    assert_eq!(ProcessPrint::remove_accents("ÁNGEL Übeda"), "ANGEL Ubeda");
    assert_eq!(ProcessPrint::remove_accents("àç"), "àç");
}

#[test]
fn global_styles_change_the_current_style() {
    let mut styles = unset();
    styles.bold = Some(true);
    let sections = vec![
        PrintSections::GlobalStyles(styles),
        text("a"),
        PrintSections::GlobalStyles(unset()),
        text("b"),
    ];
    assert_eq!(
        encode(sections, quiet()).unwrap(),
        vec![0x1B, 0x40, 0x1B, 0x45, 0x01, 0x61, 0x0A, 0x1B, 0x45, 0x00, 0x62, 0x0A]
    );
}

#[test]
fn style_starts_at_the_defaults_for_every_job() {
    let mut encoder = ProcessPrint::new();
    let mut styles = unset();
    styles.bold = Some(true);
    let first = job(vec![PrintSections::GlobalStyles(styles)], quiet());
    assert_eq!(encoder.generate_document(&first).unwrap(), vec![0x1B, 0x40, 0x1B, 0x45, 0x01]);
    let second = job(vec![text("x")], quiet());
    assert_eq!(encoder.generate_document(&second).unwrap(), vec![0x1B, 0x40, 0x78, 0x0A]);
    assert_eq!(encoder.generate_document(&first).unwrap(), vec![0x1B, 0x40, 0x1B, 0x45, 0x01]);
}

#[test]
fn feed_kinds() {
    let feed = |kind: &str, value: u8| {
        encode(vec![PrintSections::Feed(Feed { feed_type: kind.to_string(), value })], quiet())
    };
    assert_eq!(feed("lines", 4).unwrap(), vec![0x1B, 0x40, 0x1B, 0x64, 4]);
    assert_eq!(feed("dots", 9).unwrap(), vec![0x1B, 0x40, 0x1B, 0x4A, 9]);
    assert_eq!(feed("line_feed", 2).unwrap(), vec![0x1B, 0x40, 0x0A, 0x0A]);
    assert_eq!(
        feed("Lines", 2),
        Err(EncodeError::Validation(ValidationError::UnknownFeedType))
    );
}

#[test]
fn a_failing_section_leaves_no_document() {
    let sections = vec![
        text("before"),
        PrintSections::Feed(Feed { feed_type: "sideways".to_string(), value: 1 }),
        PrintSections::Image(Imagen {
            data: "not base64".to_string(),
            max_width: 0,
            align: "center".to_string(),
            dithering: true,
            size: "normal".to_string(),
        }),
    ];
    assert_eq!(
        encode(sections, quiet()),
        Err(EncodeError::Validation(ValidationError::UnknownFeedType))
    );
}

#[test]
fn cut_section_respects_the_option() {
    let cut = |mode: &str, options: PrinterOptions| {
        let mut encoder = ProcessPrint::new();
        encoder.options = options;
        encoder.process_cut(&Cut { mode: mode.to_string(), feed: 2 }).unwrap()
    };
    let on = PrinterOptions { cut_paper: true, beep: false, open_cash_drawer: false };
    assert_eq!(cut("full", on), vec![0x1D, 0x56, 66, 2]);
    assert_eq!(cut("partial", on), vec![0x1D, 0x56, 65, 2]);
    assert_eq!(cut("partial_alt", on), vec![0x1D, 0x56, 65, 2]);
    assert_eq!(cut("partial_alt2", on), vec![0x1D, 0x56, 66, 2]);
    assert_eq!(cut("other", on), vec![0x1D, 0x56, 65, 2]);
    assert_eq!(cut("full", quiet()), vec![0x0A; 8]);
}

#[test]
fn beep_section_respects_the_option() {
    let loud = PrinterOptions { cut_paper: false, beep: true, open_cash_drawer: false };
    let beep = |times: u8, duration: u8, options: PrinterOptions| {
        encode(vec![PrintSections::Beep(Beep { times, duration })], options).unwrap()
    };
    assert_eq!(beep(2, 3, quiet()), vec![0x1B, 0x40]);
    assert_eq!(beep(2, 3, loud), vec![0x1B, 0x40, 0x1B, 0x28, 0x41, 0x05, 0x00, 0x61, 2, 3]);
    assert_eq!(beep(0, 0, loud), vec![0x1B, 0x40, 0x1B, 0x28, 0x41, 0x05, 0x00, 0x61, 1, 9]);
    assert_eq!(beep(20, 1, loud), vec![0x1B, 0x40, 0x1B, 0x28, 0x41, 0x05, 0x00, 0x61, 9, 1]);
}

#[test]
fn drawer_section_selects_the_pin() {
    let mut encoder = ProcessPrint::new();
    assert_eq!(
        encoder.process_drawer(&Drawer { pin: 2, pulse_time: 120 }).unwrap(),
        vec![0x1B, 0x70, 0, 60, 60]
    );
    assert_eq!(
        encoder.process_drawer(&Drawer { pin: 5, pulse_time: 120 }).unwrap(),
        vec![0x1B, 0x70, 1, 60, 60]
    );
    assert_eq!(
        encoder.process_drawer(&Drawer { pin: 0, pulse_time: 2 }).unwrap(),
        vec![0x1B, 0x70, 1, 1, 1]
    );
}

#[test]
fn barcode_section_scenario() {
    let section = PrintSections::Barcode(Barcode {
        data: "123456789012".to_string(),
        barcode_type: "CODE128".to_string(),
        width: 2,
        height: 60,
        text_position: "below".to_string(),
    });
    let bytes = encode(vec![section], quiet()).unwrap();
    assert_eq!(
        bytes,
        vec![
            0x1B, 0x40, 0x1D, 0x68, 0x3C, 0x1D, 0x77, 0x02, 0x1D, 0x48, 0x02, 0x1D, 0x6B, 0x49,
            0x0C, 0x31, 0x32, 0x33, 0x34, 0x35, 0x36, 0x37, 0x38, 0x39, 0x30, 0x31, 0x32, 0x0A
        ]
    );
}

#[test]
fn barcode_section_names_and_defaults() {
    let mut encoder = ProcessPrint::new();
    let barcode = |kind: &str, position: &str, width: u8| Barcode {
        data: "1".to_string(),
        barcode_type: kind.to_string(),
        width,
        height: 10,
        text_position: position.to_string(),
    };
    let bytes = encoder.process_barcode(&barcode("UPC-A", "none", 9)).unwrap();
    assert_eq!(bytes, vec![0x1D, 0x68, 10, 0x1D, 0x77, 3, 0x1D, 0x48, 0, 0x1D, 0x6B, 65, 1, 0x31, 0x0A]);
    let kinds = [
        ("UPC-E", 66),
        ("EAN13", 67),
        ("EAN8", 68),
        ("CODE39", 69),
        ("ITF", 70),
        ("CODABAR", 71),
        ("CODE93", 72),
        ("CODE128", 73),
        ("code128", 73),
        ("unknown", 73),
    ];
    for (name, code) in kinds {
        assert_eq!(encoder.process_barcode(&barcode(name, "both", 6)).unwrap()[11], code);
    }
    for (name, code) in [("above", 1), ("below", 2), ("both", 3), ("Below", 0), ("", 0)] {
        assert_eq!(encoder.process_barcode(&barcode("EAN8", name, 6)).unwrap()[8], code);
    }
    let long = Barcode { data: "1".repeat(256), ..barcode("EAN8", "none", 2) };
    assert_eq!(
        encoder.process_barcode(&long),
        Err(EncodeError::Validation(ValidationError::PayloadTooLong))
    );
}

#[test]
fn qr_section_with_alignment() {
    let mut encoder = ProcessPrint::new();
    let qr = Qr {
        data: "A".to_string(),
        size: 3,
        error_correction: "H".to_string(),
        model: 1,
        align: Some("center".to_string()),
    };
    let bytes = encoder.process_qr(&qr).unwrap();
    assert_eq!(
        bytes,
        vec![
            0x1B, 0x61, 0x01, 0x1D, 0x28, 0x6B, 0x04, 0x00, 0x31, 0x41, 49, 0x00, 0x1D, 0x28,
            0x6B, 0x03, 0x00, 0x31, 0x43, 3, 0x1D, 0x28, 0x6B, 0x03, 0x00, 0x31, 0x45, 51, 0x1D,
            0x28, 0x6B, 0x04, 0x00, 0x31, 0x50, 0x30, 0x41, 0x1D, 0x28, 0x6B, 0x03, 0x00, 0x31,
            0x51, 0x30, 0x0A, 0x1B, 0x61, 0x00
        ]
    );
    assert_eq!(encoder.current_styles, ResolvedStyle::default());
}

#[test]
fn qr_section_defaults() {
    let mut encoder = ProcessPrint::new();
    let qr = Qr {
        data: "A".to_string(),
        size: 0,
        error_correction: "x".to_string(),
        model: 7,
        align: None,
    };
    let bytes = encoder.process_qr(&qr).unwrap();
    assert_eq!(bytes[7], 50);
    assert_eq!(bytes[16], 6);
    assert_eq!(bytes[24], 49);
    assert_eq!(*bytes.last().unwrap(), 0x0A);
    let sized = Qr { size: 16, error_correction: "L".to_string(), ..qr.clone() };
    let bytes = encoder.process_qr(&sized).unwrap();
    assert_eq!(bytes[16], 16);
    assert_eq!(bytes[24], 48);
    let long = Qr { data: "x".repeat(65533), ..qr };
    assert_eq!(
        encoder.process_qr(&long),
        Err(EncodeError::Validation(ValidationError::PayloadTooLong))
    );
}

#[test]
fn pdf417_section() {
    let mut encoder = ProcessPrint::new();
    let code = Pdf417 {
        data: "Z".to_string(),
        columns: 40,
        rows: 2,
        width: 9,
        height: 1,
        error_correction: 12,
    };
    let bytes = encoder.process_pdf417(&code).unwrap();
    assert_eq!((bytes[7], bytes[15], bytes[23], bytes[31], bytes[39]), (0, 0, 3, 3, 49));
    assert_eq!(*bytes.last().unwrap(), 0x0A);
    let set = Pdf417 { columns: 4, rows: 10, width: 2, height: 8, error_correction: 8, ..code };
    let bytes = encoder.process_pdf417(&set).unwrap();
    assert_eq!((bytes[7], bytes[15], bytes[23], bytes[31], bytes[39]), (4, 10, 2, 8, 56));
}

#[test]
fn data_matrix_section() {
    let mut encoder = ProcessPrint::new();
    let bytes = encoder
        .process_data_matrix(&DataMatrixModel { data: "hi".to_string(), size: 12 })
        .unwrap();
    assert_eq!(bytes[7], 12);
    assert_eq!(&bytes[16..18], &[0x68, 0x69]);
    assert_eq!(*bytes.last().unwrap(), 0x0A);
    let bytes = encoder
        .process_data_matrix(&DataMatrixModel { data: "hi".to_string(), size: 17 })
        .unwrap();
    assert_eq!(bytes[7], 6);
}

#[test]
fn logo_section() {
    let mut encoder = ProcessPrint::new();
    let bytes = encoder
        .process_logo(&Logo { key_code: 3, mode: "quadruple".to_string() })
        .unwrap();
    assert_eq!(bytes, vec![0x1C, 0x70, 3, 3, 0x0A]);
    let bytes = encoder.process_logo(&Logo { key_code: 3, mode: "huge".to_string() }).unwrap();
    assert_eq!(bytes, vec![0x1C, 0x70, 3, 0, 0x0A]);
}

#[test]
fn image_section() {
    let imagen = Imagen {
        data: RGBA_2X2.to_string(),
        max_width: 0,
        align: "left".to_string(),
        dithering: true,
        size: "double_width".to_string(),
    };
    let bytes = encode(vec![PrintSections::Image(imagen.clone())], quiet()).unwrap();
    assert_eq!(
        bytes,
        vec![
            0x1B, 0x40, 0x1B, 0x61, 0x00, 0x1D, 0x76, 0x00, 0x01, 0x01, 0x00, 0x02, 0x00, 0x80,
            0x00, 0x1B, 0x61, 0x00, 0x0A
        ]
    );
    let odd = Imagen { align: "middle".to_string(), size: "big".to_string(), ..imagen };
    let bytes = encode(vec![PrintSections::Image(odd)], quiet()).unwrap();
    assert_eq!(&bytes[2..9], &[0x1B, 0x61, 0x01, 0x1D, 0x76, 0x00, 0x00]);
}

#[test]
fn image_section_scales_wide_pictures() {
    let imagen = Imagen {
        data: RGB_8X2.to_string(),
        max_width: 4,
        align: "center".to_string(),
        dithering: false,
        size: "normal".to_string(),
    };
    let bytes = encode(vec![PrintSections::Image(imagen.clone())], quiet()).unwrap();
    assert_eq!(&bytes[9..13], &[1, 0, 1, 0]);
    assert_eq!(bytes.len(), 2 + 3 + 8 + 1 + 3 + 1);
    let unlimited = Imagen { max_width: 1000, ..imagen.clone() };
    let bytes = encode(vec![PrintSections::Image(unlimited)], quiet()).unwrap();
    assert_eq!(&bytes[9..13], &[1, 0, 2, 0]);
    let negative = Imagen { max_width: -5, ..imagen };
    let bytes = encode(vec![PrintSections::Image(negative)], quiet()).unwrap();
    assert_eq!(&bytes[9..13], &[1, 0, 2, 0]);
}

#[test]
fn image_section_that_cannot_be_read_fails() {
    let imagen = Imagen {
        data: "%%%".to_string(),
        max_width: 0,
        align: "center".to_string(),
        dithering: true,
        size: "normal".to_string(),
    };
    assert_eq!(
        encode(vec![text("a"), PrintSections::Image(imagen)], quiet()),
        Err(EncodeError::Decode(DecodeError::Base64))
    );
}

#[test]
fn table_section_uses_the_paper_width() {
    let table = Table {
        columns: 2,
        column_widths: None,
        header: None,
        body: vec![vec![
            Text { text: "a".to_string(), styles: None },
            Text { text: "b".to_string(), styles: None },
        ]],
        truncate: true,
    };
    let bytes = encode(vec![PrintSections::Table(table)], quiet()).unwrap();
    let mut expected = vec![0x1B, 0x40, 0x61];
    expected.extend(vec![0x20; 287]);
    expected.extend_from_slice(&[0x62, 0x0A]);
    assert_eq!(bytes, expected);
}

#[test]
fn line_section_fills_the_line() {
    let line = |character: &str| PrintSections::Line(Line { character: character.to_string() });
    let bytes = encode(vec![line("=")], quiet()).unwrap();
    let mut expected = vec![0x1B, 0x40];
    expected.extend(vec![0x3D; 48]);
    expected.push(0x0A);
    assert_eq!(bytes, expected);
    let bytes = encode(vec![line("")], quiet()).unwrap();
    assert_eq!(&bytes[2..50], vec![0x2D; 48].as_slice());
    let bytes = encode(vec![line("*-")], quiet()).unwrap();
    assert_eq!(&bytes[2..50], vec![0x2A; 48].as_slice());
}

#[test]
fn line_width_follows_size_and_font() {
    let width = |paper: PaperSize, size: SizeKind, font: FontKind| {
        let mut encoder = ProcessPrint::new();
        encoder.paper_size = paper;
        encoder.current_styles.size = size;
        encoder.current_styles.font = font;
        encoder.calculate_line_width()
    };
    assert_eq!(width(PaperSize::Mm80, SizeKind::Normal, FontKind::A), 48);
    assert_eq!(width(PaperSize::Mm58, SizeKind::Normal, FontKind::A), 32);
    assert_eq!(width(PaperSize::Mm80, SizeKind::Width, FontKind::A), 24);
    assert_eq!(width(PaperSize::Mm80, SizeKind::Double, FontKind::A), 24);
    assert_eq!(width(PaperSize::Mm80, SizeKind::Height, FontKind::A), 48);
    assert_eq!(width(PaperSize::Mm80, SizeKind::Normal, FontKind::B), 62);
    assert_eq!(width(PaperSize::Mm80, SizeKind::Normal, FontKind::C), 72);
    assert_eq!(width(PaperSize::Mm58, SizeKind::Normal, FontKind::B), 41);
    assert_eq!(width(PaperSize::Mm58, SizeKind::Double, FontKind::B), 20);
    assert_eq!(width(PaperSize::Mm80, SizeKind::Double, FontKind::B), 31);
    assert_eq!(width(PaperSize::Mm58, SizeKind::Width, FontKind::C), 24);
    assert_eq!(width(PaperSize::Mm80, SizeKind::Other, FontKind::Other), 48);
}

#[test]
fn paper_of_58_mm() {
    let mut request = job(vec![PrintSections::Line(Line { character: "-".to_string() })], quiet());
    request.paper_size = PaperSize::Mm58;
    let bytes = ProcessPrint::new().generate_document(&request).unwrap();
    assert_eq!(bytes.len(), 2 + 32 + 1);
}
