use thermal_printer::models::paper_size::PaperSize;
use thermal_printer::models::print_sections::GlobalStyles;
use thermal_printer::models::printer_options::PrinterOptions;
use thermal_printer::process::process_print::ProcessPrint;
use thermal_printer::process::styles::{AlignKind, FontKind, ResolvedStyle, SizeKind};

fn unset() -> GlobalStyles {
    GlobalStyles {
        bold: None,
        underline: None,
        align: None,
        italic: None,
        invert: None,
        font: None,
        rotate: None,
        upside_down: None,
        size: None,
    }
}

#[test]
fn default_styles_resolve_to_the_reset_style() {
    let resolved = ResolvedStyle::resolve(&GlobalStyles::default());
    assert_eq!(resolved, ResolvedStyle::default());
    assert_eq!(resolved.font, FontKind::A);
    assert_eq!(resolved.size, SizeKind::Normal);
    assert_eq!(resolved.align, AlignKind::Left);
    assert!(!resolved.bold);
}

#[test]
fn absent_attributes_resolve_to_defaults() {
    assert_eq!(ResolvedStyle::resolve(&unset()), ResolvedStyle::default());
}

#[test]
fn names_are_read_in_any_case() {
    let mut styles = unset();
    styles.font = Some("B".to_string());
    styles.size = Some("DOUBLE".to_string());
    styles.align = Some("Center".to_string());
    let resolved = ResolvedStyle::resolve(&styles);
    assert_eq!(resolved.font, FontKind::B);
    assert_eq!(resolved.size, SizeKind::Double);
    assert_eq!(resolved.align, AlignKind::Center);
    assert_eq!(FontKind::from_lowercase("B"), FontKind::Other);
    assert_eq!(FontKind::from_lowercase("c"), FontKind::C);
    assert_eq!(SizeKind::from_lowercase("width"), SizeKind::Width);
    assert_eq!(SizeKind::from_lowercase("height"), SizeKind::Height);
    assert_eq!(AlignKind::from_lowercase("right"), AlignKind::Right);
    assert_eq!(AlignKind::from_lowercase("justify"), AlignKind::Other);
}

#[test]
fn diff_of_equal_styles_is_empty() {
    let encoder = ProcessPrint::new();
    assert_eq!(encoder.get_styles_diff(&GlobalStyles::default(), &unset()), Vec::<u8>::new());
    assert_eq!(encoder.get_styles_diff(&unset(), &GlobalStyles::default()), Vec::<u8>::new());
    let mut upper = unset();
    upper.font = Some("C".to_string());
    let mut lower = unset();
    lower.font = Some("c".to_string());
    assert_eq!(encoder.get_styles_diff(&upper, &lower), Vec::<u8>::new());
}

#[test]
fn global_styles_equal_to_current_emit_nothing() {
    let mut encoder = ProcessPrint::new();
    let bytes = encoder.set_global_styles(&GlobalStyles::default()).unwrap();
    assert_eq!(bytes, Vec::<u8>::new());
    let mut bold = unset();
    bold.bold = Some(true);
    assert_eq!(encoder.set_global_styles(&bold).unwrap(), vec![0x1B, 0x45, 0x01]);
    assert_eq!(encoder.set_global_styles(&bold).unwrap(), Vec::<u8>::new());
}

#[test]
fn one_toggle_gives_one_command() {
    let base = ResolvedStyle::default();
    let mut bold = base;
    bold.bold = true;
    assert_eq!(base.diff(&bold), vec![0x1B, 0x45, 0x01]);
    assert_eq!(bold.diff(&base), vec![0x1B, 0x45, 0x00]);
    let mut underline = base;
    underline.underline = true;
    assert_eq!(base.diff(&underline), vec![0x1B, 0x2D, 0x01]);
    let mut italic = base;
    italic.italic = true;
    assert_eq!(base.diff(&italic), vec![0x1B, 0x34]);
    assert_eq!(italic.diff(&base), vec![0x1B, 0x35]);
    let mut invert = base;
    invert.invert = true;
    assert_eq!(base.diff(&invert), vec![0x1D, 0x42, 0x01]);
    let mut rotate = base;
    rotate.rotate = true;
    assert_eq!(base.diff(&rotate), vec![0x1B, 0x56, 0x01]);
    let mut upside_down = base;
    upside_down.upside_down = true;
    assert_eq!(base.diff(&upside_down), vec![0x1B, 0x7B, 0x01]);
    let mut font = base;
    font.font = FontKind::B;
    assert_eq!(base.diff(&font), vec![0x1B, 0x4D, 0x01]);
    assert_eq!(font.diff(&base), vec![0x1B, 0x4D, 0x00]);
    let mut size = base;
    size.size = SizeKind::Width;
    assert_eq!(base.diff(&size), vec![0x1B, 0x21, 0x20]);
    let mut align = base;
    align.align = AlignKind::Right;
    assert_eq!(base.diff(&align), vec![0x1B, 0x61, 0x02]);
}

#[test]
fn diff_follows_the_fixed_order() {
    let base = ResolvedStyle::default();
    let all = ResolvedStyle {
        bold: true,
        underline: true,
        italic: true,
        invert: true,
        rotate: true,
        upside_down: true,
        font: FontKind::C,
        size: SizeKind::Height,
        align: AlignKind::Center,
    };
    assert_eq!(
        base.diff(&all),
        vec![
            0x1B, 0x45, 0x01, 0x1B, 0x2D, 0x01, 0x1B, 0x34, 0x1D, 0x42, 0x01, 0x1B, 0x56, 0x01,
            0x1B, 0x7B, 0x01, 0x1B, 0x4D, 0x02, 0x1B, 0x21, 0x10, 0x1B, 0x61, 0x01
        ]
    );
}

#[test]
fn unknown_selector_has_no_command() {
    let base = ResolvedStyle::default();
    let mut odd = base;
    odd.font = FontKind::Other;
    assert_eq!(base.diff(&odd), Vec::<u8>::new());
    assert_eq!(odd.diff(&base), vec![0x1B, 0x4D, 0x00]);
    let mut styles = unset();
    styles.font = Some("z".to_string());
    assert_eq!(ResolvedStyle::resolve(&styles).font, FontKind::Other);
    assert_eq!(FontKind::Other.command(), Vec::<u8>::new());
    assert_eq!(SizeKind::Other.command(), Vec::<u8>::new());
    assert_eq!(AlignKind::Other.command(), Vec::<u8>::new());
}

#[test]
fn paper_sizes() {
    assert_eq!(PaperSize::Mm58.chars_per_line(), 32);
    assert_eq!(PaperSize::Mm80.chars_per_line(), 48);
    assert_eq!(PaperSize::Mm58.pixels_width(), 384);
    assert_eq!(PaperSize::Mm80.pixels_width(), 576);
    assert_eq!(PaperSize::from_string("58mm"), PaperSize::Mm58);
    assert_eq!(PaperSize::from_string("58"), PaperSize::Mm58);
    assert_eq!(PaperSize::from_string("SMALL"), PaperSize::Mm58);
    assert_eq!(PaperSize::from_string("80mm"), PaperSize::Mm80);
    assert_eq!(PaperSize::from_string("Normal"), PaperSize::Mm80);
    assert_eq!(PaperSize::from_string("anything"), PaperSize::Mm80);
    assert_eq!(PaperSize::from_lowercase("SMALL"), PaperSize::Mm80);
}

#[test]
fn printer_options_defaults_and_assign() {
    let mut options = PrinterOptions::default();
    assert!(options.cut_paper);
    assert!(!options.beep);
    assert!(!options.open_cash_drawer);
    options.assign(false, true, true);
    assert_eq!(options, PrinterOptions { cut_paper: false, beep: true, open_cash_drawer: true });
}
