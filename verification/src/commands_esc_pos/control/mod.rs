//! Printer control commands.

pub mod printer_control;
