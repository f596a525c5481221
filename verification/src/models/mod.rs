//! The data that describes a print job.

pub mod connection_config;
pub mod paper_size;
pub mod print_job_request;
pub mod print_sections;
pub mod printer_options;

pub use connection_config::{ConnectionConfig, PrinterDevice, UsbDevice};
pub use paper_size::PaperSize;
pub use print_job_request::{PrintJobRequest, PrinterInfo, TestPrintRequest};
pub use print_sections::{
    Barcode, Beep, Cut, DataMatrixModel, Drawer, Feed, GlobalStyles, Imagen, Line, Logo, Pdf417,
    PrintSections, Qr, Subtitle, Table, Text, Title,
};
pub use printer_options::PrinterOptions;
