//! The document encoder and the self-test receipt.

pub mod process_print;
pub mod sections;
pub mod styles;
pub mod test_printer;
