//! Builders of ESC/POS commands.

pub mod codes;
pub mod control;
pub mod image_escpos;
pub mod text;
