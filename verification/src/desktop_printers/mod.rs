//! The printers of the operating system.

pub mod unix_base;
