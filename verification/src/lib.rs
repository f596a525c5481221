//! Encoding of receipts into ESC/POS byte streams for thermal printers.
//!
//! A receipt is an ordered list of sections (styled text, tables, barcodes,
//! two-dimensional codes, images, control actions). The encoder walks the
//! list, tracks the text style that is in force, and returns the exact bytes
//! that a printer has to receive. Every function of this crate carries a
//! contract over byte sequences that Verus checks.

pub mod bytes;
pub mod commands_esc_pos;
pub mod desktop;
pub mod desktop_printers;
pub mod drivers;
pub mod error;
pub mod models;
pub mod process;
pub mod strings;
