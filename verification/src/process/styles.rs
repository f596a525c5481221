//! The text style in force and the commands that lead from one style to
//! another.

use vstd::prelude::*;
use vstd::string::*;
use crate::bytes::append_bytes;
use crate::commands_esc_pos::text::text_type::TextType;
use crate::models::print_sections::GlobalStyles;
use crate::strings::{lowercase_of, text_is};

verus! {

/// A font of the printer. `Other` stands for every name that is none of
/// "a", "b" and "c": the printer has no command for it.
#[derive(Debug, Clone, Copy, PartialEq, Eq, Structural)]
pub enum FontKind {
    A,
    B,
    C,
    Other,
}

/// A character size. `Other` stands for every name that the printer has no
/// command for.
#[derive(Debug, Clone, Copy, PartialEq, Eq, Structural)]
pub enum SizeKind {
    Normal,
    Width,
    Height,
    Double,
    Other,
}

/// An alignment. `Other` stands for every name that the printer has no
/// command for.
#[derive(Debug, Clone, Copy, PartialEq, Eq, Structural)]
pub enum AlignKind {
    Left,
    Center,
    Right,
    Other,
}

/// A style with every attribute determined.
#[derive(Debug, Clone, Copy, PartialEq, Eq, Structural)]
pub struct ResolvedStyle {
    pub bold: bool,
    pub underline: bool,
    pub italic: bool,
    pub invert: bool,
    pub rotate: bool,
    pub upside_down: bool,
    pub font: FontKind,
    pub size: SizeKind,
    pub align: AlignKind,
}

/// The font that a lower-case name stands for.
pub open spec fn font_named(lower: Seq<char>) -> FontKind {
    if lower == "a"@ {
        FontKind::A
    } else if lower == "b"@ {
        FontKind::B
    } else if lower == "c"@ {
        FontKind::C
    } else {
        FontKind::Other
    }
}

/// The size that a lower-case name stands for.
pub open spec fn size_named(lower: Seq<char>) -> SizeKind {
    if lower == "normal"@ {
        SizeKind::Normal
    } else if lower == "width"@ {
        SizeKind::Width
    } else if lower == "height"@ {
        SizeKind::Height
    } else if lower == "double"@ {
        SizeKind::Double
    } else {
        SizeKind::Other
    }
}

/// The alignment that a lower-case name stands for.
pub open spec fn align_named(lower: Seq<char>) -> AlignKind {
    if lower == "left"@ {
        AlignKind::Left
    } else if lower == "center"@ {
        AlignKind::Center
    } else if lower == "right"@ {
        AlignKind::Right
    } else {
        AlignKind::Other
    }
}

/// A flag that is absent is off.
pub open spec fn flag_of(flag: Option<bool>) -> bool {
    match flag {
        Some(b) => b,
        None => false,
    }
}

/// The font of an optional name of any case; font A where there is none.
pub open spec fn font_of(name: Option<String>) -> FontKind {
    match name {
        Some(s) => font_named(lowercase_of(s@)),
        None => FontKind::A,
    }
}

/// The size of an optional name of any case; normal where there is none.
pub open spec fn size_of(name: Option<String>) -> SizeKind {
    match name {
        Some(s) => size_named(lowercase_of(s@)),
        None => SizeKind::Normal,
    }
}

/// The alignment of an optional name of any case; left where there is none.
pub open spec fn align_of(name: Option<String>) -> AlignKind {
    match name {
        Some(s) => align_named(lowercase_of(s@)),
        None => AlignKind::Left,
    }
}

/// The style that a set of optional attributes stands for.
pub open spec fn resolved(styles: GlobalStyles) -> ResolvedStyle {
    ResolvedStyle {
        bold: flag_of(styles.bold),
        underline: flag_of(styles.underline),
        italic: flag_of(styles.italic),
        invert: flag_of(styles.invert),
        rotate: flag_of(styles.rotate),
        upside_down: flag_of(styles.upside_down),
        font: font_of(styles.font),
        size: size_of(styles.size),
        align: align_of(styles.align),
    }
}

/// The style of a printer after a reset.
pub open spec fn default_style() -> ResolvedStyle {
    ResolvedStyle {
        bold: false,
        underline: false,
        italic: false,
        invert: false,
        rotate: false,
        upside_down: false,
        font: FontKind::A,
        size: SizeKind::Normal,
        align: AlignKind::Left,
    }
}

/// The command that changes a flag from `from` to `to`: none where they agree.
pub open spec fn toggle(from: bool, to: bool, on: TextType, off: TextType) -> Seq<u8> {
    if from == to {
        Seq::<u8>::empty()
    } else if to {
        on.bytes()
    } else {
        off.bytes()
    }
}

/// The command that selects a font: none for a font without a command.
pub open spec fn font_command(font: FontKind) -> Seq<u8> {
    match font {
        FontKind::A => TextType::FontA.bytes(),
        FontKind::B => TextType::FontB.bytes(),
        FontKind::C => TextType::FontC.bytes(),
        FontKind::Other => Seq::<u8>::empty(),
    }
}

/// The command that selects a size: none for a size without a command.
pub open spec fn size_command(size: SizeKind) -> Seq<u8> {
    match size {
        SizeKind::Normal => TextType::Normal.bytes(),
        SizeKind::Width => TextType::DoubleWidth.bytes(),
        SizeKind::Height => TextType::DoubleHeight.bytes(),
        SizeKind::Double => TextType::DoubleSize.bytes(),
        SizeKind::Other => Seq::<u8>::empty(),
    }
}

/// The command that selects an alignment: none for one without a command.
pub open spec fn align_command(align: AlignKind) -> Seq<u8> {
    match align {
        AlignKind::Left => TextType::AlignLeft.bytes(),
        AlignKind::Center => TextType::AlignCenter.bytes(),
        AlignKind::Right => TextType::AlignRight.bytes(),
        AlignKind::Other => Seq::<u8>::empty(),
    }
}

/// The commands that lead from the flags of `from` to those of `to`, in the
/// order bold, underline, italic, invert, rotate, upside-down.
pub open spec fn flags_diff(from: ResolvedStyle, to: ResolvedStyle) -> Seq<u8> {
    toggle(from.bold, to.bold, TextType::BoldOn, TextType::BoldOff)
        + toggle(from.underline, to.underline, TextType::UnderlineOn, TextType::UnderlineOff)
        + toggle(from.italic, to.italic, TextType::ItalicOn, TextType::ItalicOff)
        + toggle(from.invert, to.invert, TextType::InvertOn, TextType::InvertOff)
        + toggle(from.rotate, to.rotate, TextType::RotateOn, TextType::RotateOff)
        + toggle(from.upside_down, to.upside_down, TextType::UpsideDownOn, TextType::UpsideDownOff)
}

/// The commands that lead from the font, size and alignment of `from` to
/// those of `to`, in that order.
pub open spec fn selectors_diff(from: ResolvedStyle, to: ResolvedStyle) -> Seq<u8> {
    (if from.font == to.font { Seq::<u8>::empty() } else { font_command(to.font) })
        + (if from.size == to.size { Seq::<u8>::empty() } else { size_command(to.size) })
        + (if from.align == to.align { Seq::<u8>::empty() } else { align_command(to.align) })
}

/// The commands that lead from style `from` to style `to`: for each of the
/// nine attributes, in the order bold, underline, italic, invert, rotate,
/// upside-down, font, size, alignment, the command for its new value where
/// that differs from the from one, and nothing where it does not.
pub open spec fn style_diff(from: ResolvedStyle, to: ResolvedStyle) -> Seq<u8> {
    flags_diff(from, to) + selectors_diff(from, to)
}

impl FontKind {
    /// The font that a name in lower case stands for.
    pub fn from_lowercase(lower: &str) -> (r: Self)
        ensures
            r == font_named(lower@),
    {
        if text_is(lower, "a") {
            FontKind::A
        } else if text_is(lower, "b") {
            FontKind::B
        } else if text_is(lower, "c") {
            FontKind::C
        } else {
            FontKind::Other
        }
    }

    /// The command that selects the font.
    pub fn command(&self) -> (r: Vec<u8>)
        ensures
            r@ == font_command(*self),
    {
        match self {
            FontKind::A => TextType::FontA.command(),
            FontKind::B => TextType::FontB.command(),
            FontKind::C => TextType::FontC.command(),
            FontKind::Other => Vec::new(),
        }
    }

    /// The font of an optional name of any case.
    pub fn resolve(name: &Option<String>) -> (r: Self)
        ensures
            r == font_of(*name),
    {
        match name {
            Some(s) => {
                let lower: String = s.as_str().to_lowercase();
                Self::from_lowercase(lower.as_str())
            },
            None => FontKind::A,
        }
    }
}

impl SizeKind {
    /// The size that a name in lower case stands for.
    pub fn from_lowercase(lower: &str) -> (r: Self)
        ensures
            r == size_named(lower@),
    {
        if text_is(lower, "normal") {
            SizeKind::Normal
        } else if text_is(lower, "width") {
            SizeKind::Width
        } else if text_is(lower, "height") {
            SizeKind::Height
        } else if text_is(lower, "double") {
            SizeKind::Double
        } else {
            SizeKind::Other
        }
    }

    /// The command that selects the size.
    pub fn command(&self) -> (r: Vec<u8>)
        ensures
            r@ == size_command(*self),
    {
        match self {
            SizeKind::Normal => TextType::Normal.command(),
            SizeKind::Width => TextType::DoubleWidth.command(),
            SizeKind::Height => TextType::DoubleHeight.command(),
            SizeKind::Double => TextType::DoubleSize.command(),
            SizeKind::Other => Vec::new(),
        }
    }

    /// The size of an optional name of any case.
    pub fn resolve(name: &Option<String>) -> (r: Self)
        ensures
            r == size_of(*name),
    {
        match name {
            Some(s) => {
                let lower: String = s.as_str().to_lowercase();
                Self::from_lowercase(lower.as_str())
            },
            None => SizeKind::Normal,
        }
    }
}

impl AlignKind {
    /// The alignment that a name in lower case stands for.
    pub fn from_lowercase(lower: &str) -> (r: Self)
        ensures
            r == align_named(lower@),
    {
        if text_is(lower, "left") {
            AlignKind::Left
        } else if text_is(lower, "center") {
            AlignKind::Center
        } else if text_is(lower, "right") {
            AlignKind::Right
        } else {
            AlignKind::Other
        }
    }

    /// The command that selects the alignment.
    pub fn command(&self) -> (r: Vec<u8>)
        ensures
            r@ == align_command(*self),
    {
        match self {
            AlignKind::Left => TextType::AlignLeft.command(),
            AlignKind::Center => TextType::AlignCenter.command(),
            AlignKind::Right => TextType::AlignRight.command(),
            AlignKind::Other => Vec::new(),
        }
    }

    /// The alignment of an optional name of any case.
    pub fn resolve(name: &Option<String>) -> (r: Self)
        ensures
            r == align_of(*name),
    {
        match name {
            Some(s) => {
                let lower: String = s.as_str().to_lowercase();
                Self::from_lowercase(lower.as_str())
            },
            None => AlignKind::Left,
        }
    }
}

fn flag_value(flag: &Option<bool>) -> (r: bool)
    ensures
        r == flag_of(*flag),
{
    match flag {
        Some(b) => *b,
        None => false,
    }
}

fn push_toggle(output: &mut Vec<u8>, from: bool, to: bool, on: TextType, off: TextType)
    ensures
        final(output)@ == old(output)@ + toggle(from, to, on, off),
{
    if from != to {
        let command: Vec<u8> = if to { on.command() } else { off.command() };
        append_bytes(output, &command);
    }
}

impl Default for ResolvedStyle {
    /// The style of a printer after a reset.
    fn default() -> (r: Self)
        ensures
            r == default_style(),
    {
        ResolvedStyle {
            bold: false,
            underline: false,
            italic: false,
            invert: false,
            rotate: false,
            upside_down: false,
            font: FontKind::A,
            size: SizeKind::Normal,
            align: AlignKind::Left,
        }
    }
}

impl ResolvedStyle {
    /// Determines every attribute of `styles`.
    pub fn resolve(styles: &GlobalStyles) -> (r: Self)
        ensures
            r == resolved(*styles),
    {
        ResolvedStyle {
            bold: flag_value(&styles.bold),
            underline: flag_value(&styles.underline),
            italic: flag_value(&styles.italic),
            invert: flag_value(&styles.invert),
            rotate: flag_value(&styles.rotate),
            upside_down: flag_value(&styles.upside_down),
            font: FontKind::resolve(&styles.font),
            size: SizeKind::resolve(&styles.size),
            align: AlignKind::resolve(&styles.align),
        }
    }

    /// The commands that lead from the flags of this style to those of `to`.
    fn flags_to(&self, to: &ResolvedStyle) -> (r: Vec<u8>)
        ensures
            r@ == flags_diff(*self, *to),
    {
        let mut output: Vec<u8> = Vec::new();
        push_toggle(&mut output, self.bold, to.bold, TextType::BoldOn, TextType::BoldOff);
        push_toggle(
            &mut output,
            self.underline,
            to.underline,
            TextType::UnderlineOn,
            TextType::UnderlineOff,
        );
        push_toggle(&mut output, self.italic, to.italic, TextType::ItalicOn, TextType::ItalicOff);
        push_toggle(&mut output, self.invert, to.invert, TextType::InvertOn, TextType::InvertOff);
        push_toggle(&mut output, self.rotate, to.rotate, TextType::RotateOn, TextType::RotateOff);
        push_toggle(
            &mut output,
            self.upside_down,
            to.upside_down,
            TextType::UpsideDownOn,
            TextType::UpsideDownOff,
        );
        assert(output@ =~= flags_diff(*self, *to));
        output
    }

    /// The commands that lead from the font, size and alignment of this style
    /// to those of `to`.
    fn selectors_to(&self, to: &ResolvedStyle) -> (r: Vec<u8>)
        ensures
            r@ == selectors_diff(*self, *to),
    {
        let mut output: Vec<u8> = Vec::new();
        if self.font != to.font {
            let command: Vec<u8> = to.font.command();
            append_bytes(&mut output, &command);
        }
        if self.size != to.size {
            let command: Vec<u8> = to.size.command();
            append_bytes(&mut output, &command);
        }
        if self.align != to.align {
            let command: Vec<u8> = to.align.command();
            append_bytes(&mut output, &command);
        }
        assert(output@ =~= selectors_diff(*self, *to));
        output
    }

    /// The commands that lead from this style to `to`.
    pub fn diff(&self, to: &ResolvedStyle) -> (r: Vec<u8>)
        ensures
            r@ == style_diff(*self, *to),
    {
        let mut output: Vec<u8> = self.flags_to(to);
        let selectors: Vec<u8> = self.selectors_to(to);
        append_bytes(&mut output, &selectors);
        output
    }
}

/// Between two styles with the same resolved attributes lies no command. This holds also where one names a default and the other
/// leaves it out.
pub proof fn diff_of_equal_styles_is_empty(from: GlobalStyles, to: GlobalStyles)
    requires
        resolved(from) == resolved(to),
    ensures
        style_diff(resolved(from), resolved(to)) == Seq::<u8>::empty(),
{
    assert(style_diff(resolved(from), resolved(to)) =~= Seq::<u8>::empty());
}

/// A style is no command away from itself.
pub proof fn diff_of_same_style_is_empty(style: ResolvedStyle)
    ensures
        style_diff(style, style) == Seq::<u8>::empty(),
{
    assert(style_diff(style, style) =~= Seq::<u8>::empty());
}

/// Where two styles differ in one flag only, the commands between them are
/// the one command that switches that flag to its new value.
pub proof fn diff_of_one_flag(from: ResolvedStyle, to: ResolvedStyle)
    requires
        from != to,
        from.font == to.font,
        from.size == to.size,
        from.align == to.align,
    ensures
        to == (ResolvedStyle { bold: to.bold, ..from }) ==> style_diff(from, to) == (if to.bold {
            TextType::BoldOn.bytes()
        } else {
            TextType::BoldOff.bytes()
        }),
        to == (ResolvedStyle { underline: to.underline, ..from }) ==> style_diff(from, to) == (
        if to.underline {
            TextType::UnderlineOn.bytes()
        } else {
            TextType::UnderlineOff.bytes()
        }),
        to == (ResolvedStyle { italic: to.italic, ..from }) ==> style_diff(from, to) == (
        if to.italic {
            TextType::ItalicOn.bytes()
        } else {
            TextType::ItalicOff.bytes()
        }),
        to == (ResolvedStyle { invert: to.invert, ..from }) ==> style_diff(from, to) == (
        if to.invert {
            TextType::InvertOn.bytes()
        } else {
            TextType::InvertOff.bytes()
        }),
        to == (ResolvedStyle { rotate: to.rotate, ..from }) ==> style_diff(from, to) == (
        if to.rotate {
            TextType::RotateOn.bytes()
        } else {
            TextType::RotateOff.bytes()
        }),
        to == (ResolvedStyle { upside_down: to.upside_down, ..from }) ==> style_diff(from, to)
            == (if to.upside_down {
            TextType::UpsideDownOn.bytes()
        } else {
            TextType::UpsideDownOff.bytes()
        }),
{
    if to == (ResolvedStyle { bold: to.bold, ..from }) {
        assert(style_diff(from, to) =~= toggle(
            from.bold,
            to.bold,
            TextType::BoldOn,
            TextType::BoldOff,
        ));
    }
    if to == (ResolvedStyle { underline: to.underline, ..from }) {
        assert(style_diff(from, to) =~= toggle(
            from.underline,
            to.underline,
            TextType::UnderlineOn,
            TextType::UnderlineOff,
        ));
    }
    if to == (ResolvedStyle { italic: to.italic, ..from }) {
        assert(style_diff(from, to) =~= toggle(
            from.italic,
            to.italic,
            TextType::ItalicOn,
            TextType::ItalicOff,
        ));
    }
    if to == (ResolvedStyle { invert: to.invert, ..from }) {
        assert(style_diff(from, to) =~= toggle(
            from.invert,
            to.invert,
            TextType::InvertOn,
            TextType::InvertOff,
        ));
    }
    if to == (ResolvedStyle { rotate: to.rotate, ..from }) {
        assert(style_diff(from, to) =~= toggle(
            from.rotate,
            to.rotate,
            TextType::RotateOn,
            TextType::RotateOff,
        ));
    }
    if to == (ResolvedStyle { upside_down: to.upside_down, ..from }) {
        assert(style_diff(from, to) =~= toggle(
            from.upside_down,
            to.upside_down,
            TextType::UpsideDownOn,
            TextType::UpsideDownOff,
        ));
    }
}

/// Where two styles differ in the font only, in the size only or in the
/// alignment only, the commands between them are the one command that
/// selects the new value. A value that the printer has no command for
/// (`Other`) is left out: nothing can select it.
pub proof fn diff_of_one_selector(from: ResolvedStyle, to: ResolvedStyle)
    requires
        from != to,
        to.font != FontKind::Other,
        to.size != SizeKind::Other,
        to.align != AlignKind::Other,
    ensures
        to == (ResolvedStyle { font: to.font, ..from }) ==> style_diff(from, to) == font_command(
            to.font,
        ) && font_command(to.font).len() == 3,
        to == (ResolvedStyle { size: to.size, ..from }) ==> style_diff(from, to) == size_command(
            to.size,
        ) && size_command(to.size).len() == 3,
        to == (ResolvedStyle { align: to.align, ..from }) ==> style_diff(from, to)
            == align_command(to.align) && align_command(to.align).len() == 3,
{
    if to == (ResolvedStyle { font: to.font, ..from }) {
        assert(style_diff(from, to) =~= font_command(to.font));
    }
    if to == (ResolvedStyle { size: to.size, ..from }) {
        assert(style_diff(from, to) =~= size_command(to.size));
    }
    if to == (ResolvedStyle { align: to.align, ..from }) {
        assert(style_diff(from, to) =~= align_command(to.align));
    }
}

} // verus!
