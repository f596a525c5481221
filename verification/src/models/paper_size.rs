//! Paper widths.

use vstd::prelude::*;
use crate::strings::{lowercase_of, text_is};

verus! {

/// The width of the paper roll.
#[derive(Debug, Clone, Copy, PartialEq, Eq, Structural)]
pub enum PaperSize {
    Mm58,
    Mm80,
}

/// The paper size that a lower-case name stands for. Names that are not
/// known stand for the 80 mm roll.
pub open spec fn paper_size_named(lower: Seq<char>) -> PaperSize {
    if lower == "58mm"@ || lower == "58"@ || lower == "small"@ {
        PaperSize::Mm58
    } else {
        PaperSize::Mm80
    }
}

impl PaperSize {
    /// Characters per line in the standard font: 32 on 58 mm, 48 on 80 mm.
    pub open spec fn chars(self) -> int {
        match self {
            PaperSize::Mm58 => 32,
            PaperSize::Mm80 => 48,
        }
    }

    /// Printable dots per line: 384 on 58 mm, 576 on 80 mm.
    pub open spec fn pixels(self) -> int {
        match self {
            PaperSize::Mm58 => 384,
            PaperSize::Mm80 => 576,
        }
    }

    /// Characters per line in the standard font.
    pub fn chars_per_line(&self) -> (r: i32)
        ensures
            r == self.chars(),
    {
        match self {
            PaperSize::Mm58 => 32,
            PaperSize::Mm80 => 48,
        }
    }

    /// Printable dots per line.
    pub fn pixels_width(&self) -> (r: i32)
        ensures
            r == self.pixels(),
    {
        match self {
            PaperSize::Mm58 => 384,
            PaperSize::Mm80 => 576,
        }
    }

    /// The paper size that a name in lower case stands for.
    pub fn from_lowercase(lower: &str) -> (r: Self)
        ensures
            r == paper_size_named(lower@),
    {
        if text_is(lower, "58mm") || text_is(lower, "58") || text_is(lower, "small") {
            PaperSize::Mm58
        } else {
            PaperSize::Mm80
        }
    }

    /// The paper size that a name stands for, whatever its case: "58mm", "58"
    /// and "small" give the 58 mm roll, every other name the 80 mm roll.
    pub fn from_string(size: &str) -> (r: Self)
        ensures
            r == paper_size_named(lowercase_of(size@)),
    {
        let lower: String = size.to_lowercase();
        Self::from_lowercase(lower.as_str())
    }
}

} // verus!
