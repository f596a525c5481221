//! The commands that switch one text attribute.

use vstd::prelude::*;

verus! {

/// One command that sets a text attribute of the printer.
#[derive(Debug, Clone, Copy, PartialEq, Eq, Structural)]
pub enum TextType {
    Normal,
    DoubleHeight,
    DoubleWidth,
    DoubleSize,
    BoldOn,
    BoldOff,
    UnderlineOn,
    UnderlineOff,
    ItalicOn,
    ItalicOff,
    AlignLeft,
    AlignCenter,
    AlignRight,
    InvertOn,
    InvertOff,
    FontA,
    FontB,
    FontC,
    RotateOn,
    RotateOff,
    UpsideDownOn,
    UpsideDownOff,
}

impl TextType {
    /// The bytes of the command.
    pub open spec fn bytes(self) -> Seq<u8> {
        match self {
            TextType::Normal => seq![0x1Bu8, 0x21u8, 0x00u8],
            TextType::DoubleHeight => seq![0x1Bu8, 0x21u8, 0x10u8],
            TextType::DoubleWidth => seq![0x1Bu8, 0x21u8, 0x20u8],
            TextType::DoubleSize => seq![0x1Bu8, 0x21u8, 0x30u8],
            TextType::BoldOn => seq![0x1Bu8, 0x45u8, 0x01u8],
            TextType::BoldOff => seq![0x1Bu8, 0x45u8, 0x00u8],
            TextType::UnderlineOn => seq![0x1Bu8, 0x2Du8, 0x01u8],
            TextType::UnderlineOff => seq![0x1Bu8, 0x2Du8, 0x00u8],
            TextType::ItalicOn => seq![0x1Bu8, 0x34u8],
            TextType::ItalicOff => seq![0x1Bu8, 0x35u8],
            TextType::AlignLeft => seq![0x1Bu8, 0x61u8, 0x00u8],
            TextType::AlignCenter => seq![0x1Bu8, 0x61u8, 0x01u8],
            TextType::AlignRight => seq![0x1Bu8, 0x61u8, 0x02u8],
            TextType::InvertOn => seq![0x1Du8, 0x42u8, 0x01u8],
            TextType::InvertOff => seq![0x1Du8, 0x42u8, 0x00u8],
            TextType::FontA => seq![0x1Bu8, 0x4Du8, 0x00u8],
            TextType::FontB => seq![0x1Bu8, 0x4Du8, 0x01u8],
            TextType::FontC => seq![0x1Bu8, 0x4Du8, 0x02u8],
            TextType::RotateOn => seq![0x1Bu8, 0x56u8, 0x01u8],
            TextType::RotateOff => seq![0x1Bu8, 0x56u8, 0x00u8],
            TextType::UpsideDownOn => seq![0x1Bu8, 0x7Bu8, 0x01u8],
            TextType::UpsideDownOff => seq![0x1Bu8, 0x7Bu8, 0x00u8],
        }
    }

    /// Returns the bytes of the command.
    pub fn command(&self) -> (r: Vec<u8>)
        ensures
            r@ == self.bytes(),
    {
        match self {
            TextType::Normal => vec![0x1B, 0x21, 0x00],
            TextType::DoubleHeight => vec![0x1B, 0x21, 0x10],
            TextType::DoubleWidth => vec![0x1B, 0x21, 0x20],
            TextType::DoubleSize => vec![0x1B, 0x21, 0x30],
            TextType::BoldOn => vec![0x1B, 0x45, 0x01],
            TextType::BoldOff => vec![0x1B, 0x45, 0x00],
            TextType::UnderlineOn => vec![0x1B, 0x2D, 0x01],
            TextType::UnderlineOff => vec![0x1B, 0x2D, 0x00],
            TextType::ItalicOn => vec![0x1B, 0x34],
            TextType::ItalicOff => vec![0x1B, 0x35],
            TextType::AlignLeft => vec![0x1B, 0x61, 0x00],
            TextType::AlignCenter => vec![0x1B, 0x61, 0x01],
            TextType::AlignRight => vec![0x1B, 0x61, 0x02],
            TextType::InvertOn => vec![0x1D, 0x42, 0x01],
            TextType::InvertOff => vec![0x1D, 0x42, 0x00],
            TextType::FontA => vec![0x1B, 0x4D, 0x00],
            TextType::FontB => vec![0x1B, 0x4D, 0x01],
            TextType::FontC => vec![0x1B, 0x4D, 0x02],
            TextType::RotateOn => vec![0x1B, 0x56, 0x01],
            TextType::RotateOff => vec![0x1B, 0x56, 0x00],
            TextType::UpsideDownOn => vec![0x1B, 0x7B, 0x01],
            TextType::UpsideDownOff => vec![0x1B, 0x7B, 0x00],
        }
    }
}

} // verus!
