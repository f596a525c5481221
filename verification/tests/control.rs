use thermal_printer::commands_esc_pos::control::printer_control::PrinterControl;
use thermal_printer::commands_esc_pos::text::text_type::TextType;

#[test]
fn initialize_is_esc_at() {
    assert_eq!(PrinterControl::initialize(), vec![0x1B, 0x40]);
}

#[test]
fn feeds_and_line_feeds() {
    assert_eq!(PrinterControl::line_feed(), vec![0x0A]);
    assert_eq!(PrinterControl::line_feed_multiple(3), vec![0x0A, 0x0A, 0x0A]);
    assert_eq!(PrinterControl::line_feed_multiple(0), Vec::<u8>::new());
    assert_eq!(PrinterControl::carriage_return(), vec![0x0D]);
    assert_eq!(PrinterControl::feed_paper(7), vec![0x1B, 0x64, 7]);
    assert_eq!(PrinterControl::feed_paper_dots(50), vec![0x1B, 0x4A, 50]);
    assert_eq!(PrinterControl::print_and_feed(2), vec![0x1B, 0x64, 2]);
}

#[test]
fn four_cut_variants() {
    assert_eq!(PrinterControl::cut_paper_full(), vec![0x1D, 0x56, 0x00]);
    assert_eq!(PrinterControl::cut_paper_partial(), vec![0x1D, 0x56, 0x01]);
    assert_eq!(PrinterControl::cut_paper_partial_alt(), vec![0x1D, 0x56, 0x42, 0x00]);
    assert_eq!(PrinterControl::cut_paper_with_feed(65, 3), vec![0x1D, 0x56, 65, 3]);
    assert_eq!(PrinterControl::cut_paper_simple(), vec![0x1B, 0x69]);
    assert_eq!(PrinterControl::cut_paper_full_simple(), vec![0x1B, 0x6D]);
}

#[test]
fn drawer_pulse_counts_two_milliseconds() {
    assert_eq!(PrinterControl::open_cash_drawer_pin2(100), vec![0x1B, 0x70, 0x00, 50, 50]);
    assert_eq!(PrinterControl::open_cash_drawer_pin5(100), vec![0x1B, 0x70, 0x01, 50, 50]);
    assert_eq!(PrinterControl::open_cash_drawer_pin2(0), vec![0x1B, 0x70, 0x00, 0, 0]);
    assert_eq!(PrinterControl::open_cash_drawer_pin2(511), vec![0x1B, 0x70, 0x00, 255, 255]);
}

#[test]
fn drawer_pulse_is_capped() {
    assert_eq!(PrinterControl::open_cash_drawer_pin2(512), vec![0x1B, 0x70, 0x00, 255, 255]);
    assert_eq!(PrinterControl::open_cash_drawer_pin5(65535), vec![0x1B, 0x70, 0x01, 255, 255]);
}

#[test]
fn beep_is_clamped_to_one_digit() {
    assert_eq!(
        PrinterControl::beep_custom(2, 3),
        vec![0x1B, 0x28, 0x41, 0x05, 0x00, 0x61, 2, 3]
    );
    assert_eq!(
        PrinterControl::beep_custom(0, 100),
        vec![0x1B, 0x28, 0x41, 0x05, 0x00, 0x61, 1, 9]
    );
    assert_eq!(PrinterControl::beep(), PrinterControl::beep_custom(2, 3));
    assert_eq!(PrinterControl::beep_error(), PrinterControl::beep_custom(3, 5));
    assert_eq!(PrinterControl::beep_success(), PrinterControl::beep_custom(1, 2));
}

#[test]
fn spacing_status_and_modes() {
    assert_eq!(PrinterControl::set_default_line_spacing(), vec![0x1B, 0x32]);
    assert_eq!(PrinterControl::set_line_spacing(30), vec![0x1B, 0x33, 30]);
    assert_eq!(PrinterControl::set_character_spacing(2), vec![0x1B, 0x20, 2]);
    assert_eq!(PrinterControl::set_print_mode(true), vec![0x1B, 0x63, 0x35, 1]);
    assert_eq!(PrinterControl::set_print_mode(false), vec![0x1B, 0x63, 0x35, 0]);
    assert_eq!(PrinterControl::get_printer_status(4), vec![0x10, 0x04, 4]);
    assert_eq!(PrinterControl::enable_page_mode(), vec![0x1B, 0x4C]);
    assert_eq!(PrinterControl::enable_standard_mode(), vec![0x1B, 0x53]);
    assert_eq!(PrinterControl::print_page_mode(), vec![0x1B, 0x0C]);
}

#[test]
fn page_area_is_little_endian() {
    assert_eq!(
        PrinterControl::set_page_mode_area(0x0102, 0, 576, 0xFFFF),
        vec![0x1B, 0x57, 0x02, 0x01, 0x00, 0x00, 0x40, 0x02, 0xFF, 0xFF]
    );
}

#[test]
fn closing_sequences() {
    assert_eq!(PrinterControl::print_and_cut(), vec![0x1B, 0x64, 5, 0x1D, 0x56, 0x01]);
    assert_eq!(
        PrinterControl::finish_printing(),
        vec![
            0x1B, 0x64, 3, 0x1B, 0x28, 0x41, 0x05, 0x00, 0x61, 2, 3, 0x1B, 0x64, 2, 0x1D, 0x56,
            0x01
        ]
    );
}

#[test]
fn text_commands() {
    assert_eq!(TextType::Normal.command(), vec![0x1B, 0x21, 0x00]);
    assert_eq!(TextType::DoubleHeight.command(), vec![0x1B, 0x21, 0x10]);
    assert_eq!(TextType::DoubleWidth.command(), vec![0x1B, 0x21, 0x20]);
    assert_eq!(TextType::DoubleSize.command(), vec![0x1B, 0x21, 0x30]);
    assert_eq!(TextType::BoldOn.command(), vec![0x1B, 0x45, 0x01]);
    assert_eq!(TextType::BoldOff.command(), vec![0x1B, 0x45, 0x00]);
    assert_eq!(TextType::UnderlineOn.command(), vec![0x1B, 0x2D, 0x01]);
    assert_eq!(TextType::UnderlineOff.command(), vec![0x1B, 0x2D, 0x00]);
    assert_eq!(TextType::ItalicOn.command(), vec![0x1B, 0x34]);
    assert_eq!(TextType::ItalicOff.command(), vec![0x1B, 0x35]);
    assert_eq!(TextType::AlignLeft.command(), vec![0x1B, 0x61, 0x00]);
    assert_eq!(TextType::AlignCenter.command(), vec![0x1B, 0x61, 0x01]);
    assert_eq!(TextType::AlignRight.command(), vec![0x1B, 0x61, 0x02]);
    assert_eq!(TextType::InvertOn.command(), vec![0x1D, 0x42, 0x01]);
    assert_eq!(TextType::InvertOff.command(), vec![0x1D, 0x42, 0x00]);
    assert_eq!(TextType::FontA.command(), vec![0x1B, 0x4D, 0x00]);
    assert_eq!(TextType::FontB.command(), vec![0x1B, 0x4D, 0x01]);
    assert_eq!(TextType::FontC.command(), vec![0x1B, 0x4D, 0x02]);
    assert_eq!(TextType::RotateOn.command(), vec![0x1B, 0x56, 0x01]);
    assert_eq!(TextType::RotateOff.command(), vec![0x1B, 0x56, 0x00]);
    assert_eq!(TextType::UpsideDownOn.command(), vec![0x1B, 0x7B, 0x01]);
    assert_eq!(TextType::UpsideDownOff.command(), vec![0x1B, 0x7B, 0x00]);
}
