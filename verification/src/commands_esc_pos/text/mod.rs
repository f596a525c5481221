//! Text styling commands.

pub mod table;
pub mod text_type;
