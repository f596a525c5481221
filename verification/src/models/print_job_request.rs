//! A print job and what describes a printer.

use vstd::prelude::*;
use crate::models::connection_config::ConnectionConfig;
use crate::models::paper_size::PaperSize;
use crate::models::print_sections::PrintSections;
use crate::models::printer_options::PrinterOptions;

verus! {

/// One receipt to print.
#[derive(Debug, Clone)]
pub struct PrintJobRequest {
    /// The name of the printer. A job with an empty name is refused.
    pub printer: String,
    /// How the printer is reached, where that is not through its name.
    pub connection: Option<ConnectionConfig>,
    /// What is printed, in order.
    pub sections: Vec<PrintSections>,
    pub options: PrinterOptions,
    pub paper_size: PaperSize,
}

/// A printer as the operating system reports it.
#[derive(Debug, Clone)]
pub struct PrinterInfo {
    pub name: String,
    pub interface_type: String,
    /// Address and port, hardware address or port name.
    pub identifier: String,
    pub status: String,
}

/// A request for the self-test receipt: the printer, and which parts of the
/// receipt are wanted.
#[derive(Debug, Clone)]
pub struct TestPrintRequest {
    pub printer_info: PrintJobRequest,
    pub include_text: bool,
    pub include_text_styles: bool,
    pub include_alignment: bool,
    pub include_columns: bool,
    pub include_separators: bool,
    pub include_barcode: bool,
    pub include_barcode_types: bool,
    pub include_qr: bool,
    pub include_image: bool,
    pub image_base64: Option<String>,
    pub include_beep: bool,
    pub test_cash_drawer: bool,
    pub cut_paper: bool,
    pub test_feed: bool,
    pub test_all_fonts: bool,
    pub test_invert: bool,
    pub test_rotate: bool,
}

/// The value of a part of the self-test that is on unless it is switched off.
pub fn default_true() -> (r: bool)
    ensures
        r,
{
    true
}

/// The value of a part of the self-test that is off unless it is asked for.
pub fn default_false() -> (r: bool)
    ensures
        !r,
{
    false
}

} // verus!
