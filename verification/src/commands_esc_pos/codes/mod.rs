//! Barcodes and two-dimensional codes.

pub mod barcode;
pub mod data_matrix;
pub mod framing;
pub mod pdf417;
pub mod qr;
