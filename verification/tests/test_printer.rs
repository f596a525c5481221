use thermal_printer::models::paper_size::PaperSize;
use thermal_printer::models::print_job_request::{
    default_false, default_true, PrintJobRequest, TestPrintRequest,
};
use thermal_printer::models::printer_options::PrinterOptions;
use thermal_printer::process::test_printer::TestPrinter;

fn nothing_wanted(paper_size: PaperSize) -> TestPrintRequest {
    TestPrintRequest {
        printer_info: PrintJobRequest {
            printer: String::new(),
            connection: None,
            sections: Vec::new(),
            options: PrinterOptions::default(),
            paper_size,
        },
        include_text: false,
        include_text_styles: false,
        include_alignment: false,
        include_columns: false,
        include_separators: false,
        include_barcode: false,
        include_barcode_types: false,
        include_qr: false,
        include_image: false,
        image_base64: None,
        include_beep: false,
        test_cash_drawer: false,
        cut_paper: false,
        test_feed: false,
        test_all_fonts: false,
        test_invert: false,
        test_rotate: false,
    }
}

fn footer(width: usize, stamp: &str) -> Vec<u8> {
    let mut bytes = vec![0x0A, 0x1B, 0x61, 0x01];
    bytes.extend(vec![0x2A; width]);
    bytes.push(0x0A);
    bytes.extend_from_slice(&[0x1B, 0x21, 0x10]);
    bytes.extend_from_slice(b"PRUEBA COMPLETADA\n");
    bytes.extend_from_slice(&[0x1B, 0x21, 0x00]);
    bytes.extend(vec![0x2A; width]);
    bytes.push(0x0A);
    bytes.extend_from_slice(stamp.as_bytes());
    bytes.push(0x0A);
    bytes.extend_from_slice(&[0x1B, 0x61, 0x00]);
    bytes
}

fn find(haystack: &[u8], needle: &[u8]) -> Option<usize> {
    haystack.windows(needle.len()).position(|window| window == needle)
}

#[test]
fn smallest_receipt() {
    let request = nothing_wanted(PaperSize::Mm58);
    let bytes = TestPrinter::new()
        .generate_test_document_at(&request, "01/02/2026 03:04:05")
        .unwrap();
    let mut expected = vec![0x1B, 0x40, 0x0A];
    expected.extend(footer(32, "01/02/2026 03:04:05"));
    expected.extend_from_slice(&[0x1B, 0x64, 2, 0x1B, 0x64, 8]);
    assert_eq!(bytes, expected);
}

#[test]
fn receipt_ends_with_signal_feed_and_cut() {
    let mut request = nothing_wanted(PaperSize::Mm80);
    request.include_beep = true;
    request.cut_paper = true;
    let bytes = TestPrinter::new().generate_test_document_at(&request, "now").unwrap();
    let mut expected = vec![0x1B, 0x40, 0x0A];
    expected.extend(footer(48, "now"));
    expected.extend_from_slice(&[0x1B, 0x28, 0x41, 0x05, 0x00, 0x61, 3, 9]);
    expected.extend_from_slice(&[0x1B, 0x64, 4, 0x1D, 0x56, 0, 4]);
    assert_eq!(bytes, expected);
}

#[test]
fn header_and_rule() {
    let mut request = nothing_wanted(PaperSize::Mm58);
    request.include_text = true;
    request.include_separators = true;
    let bytes = TestPrinter::new().generate_test_document_at(&request, "t").unwrap();
    let mut expected = vec![0x1B, 0x40, 0x0A, 0x1B, 0x61, 0x01, 0x1B, 0x21, 0x30];
    expected.extend_from_slice(b"PRUEBA DE IMPRESORA\n");
    expected.extend_from_slice(&[0x1B, 0x21, 0x00, 0x1B, 0x61, 0x00, 0x0A]);
    expected.extend(vec![0x3D; 32]);
    expected.push(0x0A);
    expected.extend_from_slice(&[0x1B, 0x45, 0x01]);
    expected.extend_from_slice(b">>> LINEAS SEPARADORAS <<<\n");
    expected.extend_from_slice(&[0x1B, 0x45, 0x00]);
    expected.extend_from_slice(b"Guiones:\n");
    expected.extend(vec![0x2D; 32]);
    expected.push(0x0A);
    expected.extend_from_slice(b"Igual:\n");
    expected.extend(vec![0x3D; 32]);
    expected.push(0x0A);
    expected.extend_from_slice(b"Asteriscos:\n");
    expected.extend(vec![0x2A; 32]);
    expected.extend_from_slice(&[0x0A, 0x0A]);
    assert_eq!(&bytes[..expected.len()], expected.as_slice());
}

#[test]
fn barcode_part_holds_the_code128_command() {
    let mut request = nothing_wanted(PaperSize::Mm80);
    request.include_barcode = true;
    let bytes = TestPrinter::new().generate_test_document_at(&request, "t").unwrap();
    let command = [
        0x1D, 0x68, 0x3C, 0x1D, 0x77, 0x02, 0x1D, 0x48, 0x02, 0x1D, 0x6B, 0x49, 0x0C, 0x31, 0x32,
        0x33, 0x34, 0x35, 0x36, 0x37, 0x38, 0x39, 0x30, 0x31, 0x32, 0x0A, 0x0A, 0x1B, 0x61, 0x00,
    ];
    assert!(find(&bytes, &command).is_some());
    assert!(find(&bytes, b"CODE128:\n").is_some());
    assert!(find(&bytes, b"EAN13:\n").is_none());
    request.include_barcode_types = true;
    let bytes = TestPrinter::new().generate_test_document_at(&request, "t").unwrap();
    assert!(find(&bytes, b"EAN13:\n\x1D\x68\x32\x1D\x77\x02\x1D\x48\x02\x1D\x6B\x43\x0D1234567890128\n\n").is_some());
    assert!(find(&bytes, b"CODE39:\n\x1D\x68\x32\x1D\x77\x02\x1D\x48\x02\x1D\x6B\x45\x06ABC123\n\n").is_some());
}

#[test]
fn qr_part_holds_the_address() {
    let mut request = nothing_wanted(PaperSize::Mm80);
    request.include_qr = true;
    let bytes = TestPrinter::new().generate_test_document_at(&request, "t").unwrap();
    let mut stored = vec![0x1D, 0x28, 0x6B, 25, 0, 0x31, 0x50, 0x30];
    stored.extend_from_slice(b"https://neogestify.com");
    stored.extend_from_slice(&[0x1D, 0x28, 0x6B, 0x03, 0x00, 0x31, 0x51, 0x30, 0x0A]);
    stored.extend_from_slice(b"neogestify.com\n\n");
    assert!(find(&bytes, &stored).is_some());
}

#[test]
fn columns_part_holds_table_and_totals() {
    let mut request = nothing_wanted(PaperSize::Mm58);
    request.include_columns = true;
    let bytes = TestPrinter::new().generate_test_document_at(&request, "t").unwrap();
    let text = String::from_utf8_lossy(&bytes).to_string();
    assert!(text.contains("Producto                 Cant    Precio\n"));
    assert!(text.contains("Producto C Largo         5       $8.99\n"));
    assert!(text.contains("SUBTOTAL:.................$44.49\n"));
    assert!(text.contains("IVA (16%):.................$7.12\n"));
    assert!(text.contains("TOTAL:....................$51.61\n"));
}

#[test]
fn receipt_line_fills_with_dots() {
    let printer = TestPrinter::new();
    let line = printer.create_receipt_line("TOTAL:", "$51.61");
    assert_eq!(line.len(), 48);
    assert_eq!(line, format!("TOTAL:{}$51.61", ".".repeat(36)));
    let crowded = printer.create_receipt_line(&"x".repeat(30), &"y".repeat(30));
    assert_eq!(crowded, format!("{}.{}", "x".repeat(30), "y".repeat(30)));
}

#[test]
fn image_part_falls_back_to_text() {
    let mut request = nothing_wanted(PaperSize::Mm80);
    request.include_image = true;
    let bytes = TestPrinter::new().generate_test_document_at(&request, "t").unwrap();
    assert!(find(&bytes, b">>> IMAGEN <<<").is_none());
    request.image_base64 = Some("not an image".to_string());
    let bytes = TestPrinter::new().generate_test_document_at(&request, "t").unwrap();
    assert!(find(&bytes, b">>> IMAGEN <<<\n\x1B\x45\x00\nError al procesar imagen\n").is_some());
    request.image_base64 = Some(
        "iVBORw0KGgoAAAANSUhEUgAAAAIAAAACCAYAAABytg0kAAAAGElEQVR4nGNgYGD4DwIM/xkYUurr6/8DAEs4CNuFh2w5AAAAAElFTkSuQmCC"
            .to_string(),
    );
    let bytes = TestPrinter::new().generate_test_document_at(&request, "t").unwrap();
    let command = [
        0x1B, 0x61, 0x01, 0x1D, 0x76, 0x00, 0x00, 0x01, 0x00, 0x02, 0x00, 0x80, 0x00, 0x1B, 0x61,
        0x00, 0x0A,
    ];
    assert!(find(&bytes, &command).is_some());
}

#[test]
fn every_part_in_order() {
    let mut request = nothing_wanted(PaperSize::Mm80);
    request.include_text = true;
    request.include_text_styles = true;
    request.include_alignment = true;
    request.include_columns = true;
    request.include_separators = true;
    request.include_barcode = true;
    request.include_qr = true;
    request.test_all_fonts = true;
    request.test_invert = true;
    request.test_rotate = true;
    request.test_feed = true;
    request.test_cash_drawer = true;
    let bytes = TestPrinter::new().generate_test_document_at(&request, "t").unwrap();
    let headings: [&[u8]; 13] = [
        b"PRUEBA DE IMPRESORA\n",
        b">>> ESTILOS DE TEXTO <<<\n",
        b">>> TIPOS DE FUENTE <<<\n",
        b">>> ALINEACION <<<\n",
        b">>> INVERSION <<<\n",
        b">>> ROTACION <<<\n",
        b">>> LINEAS SEPARADORAS <<<\n",
        b">>> TABLA CON COLUMNAS <<<\n",
        b">>> CODIGOS DE BARRAS <<<\n",
        b">>> CODIGO QR <<<\n",
        b">>> CONTROL DE PAPEL <<<\n",
        b">>> CAJON DE DINERO <<<\n",
        b"PRUEBA COMPLETADA\n",
    ];
    let mut last = 0;
    for heading in headings {
        let place = find(&bytes, heading).unwrap();
        assert!(place > last);
        last = place;
    }
    assert!(find(&bytes, b"Avance de papel en puntos...\n\x1B\x4A\x32\n").is_some());
    assert!(find(&bytes, b"Abriendo cajon (Pin 2)...\n\x1B\x70\x00\x32\x32\n").is_some());
    assert!(find(&bytes, b"\x1D\x42\x01Texto Invertido (fondo negro)\n\x1D\x42\x00\n").is_some());
}

#[test]
fn receipt_printed_now_carries_a_date() {
    let request = nothing_wanted(PaperSize::Mm58);
    let bytes = TestPrinter::new().generate_test_document(&request).unwrap();
    let fixed = TestPrinter::new()
        .generate_test_document_at(&request, "00/00/0000 00:00:00")
        .unwrap();
    assert_eq!(bytes.len(), fixed.len());
    let stamp_at = find(&fixed, b"00/00/0000 00:00:00").unwrap();
    assert_eq!(&bytes[..stamp_at], &fixed[..stamp_at]);
    let stamp = &bytes[stamp_at..stamp_at + 19];
    assert_eq!(stamp[2], b'/');
    assert_eq!(stamp[5], b'/');
    assert_eq!(stamp[10], b' ');
    assert_eq!(stamp[13], b':');
    assert!(stamp[6..10].iter().all(|b| b.is_ascii_digit()));
    assert_ne!(stamp, b"00/00/0000 00:00:00");
}

#[test]
fn request_defaults() {
    assert!(default_true());
    assert!(!default_false());
}
