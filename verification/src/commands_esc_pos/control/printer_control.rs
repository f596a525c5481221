//! Commands that act on the printer itself: reset, feed, cut, drawer, buzzer,
//! spacing, status and page mode.

use vstd::prelude::*;
use crate::bytes::{append_bytes, high_byte, low_byte, repeat_byte, repeated, split_u16};

verus! {

/// The builders of the control commands.
pub struct PrinterControl;

/// The duration byte of a drawer pulse: the time in units of 2 ms, at most 255.
pub open spec fn pulse_units(pulse_time: u16) -> u8 {
    if pulse_time / 2 > 255 {
        255u8
    } else {
        (pulse_time / 2) as u8
    }
}

/// `v` brought into the range from 1 to 9.
pub open spec fn clamp_1_9(v: u8) -> u8 {
    if v < 1 {
        1u8
    } else if v > 9 {
        9u8
    } else {
        v
    }
}

/// The bytes of the buzzer command for the given count and duration.
pub open spec fn beep_bytes(count: u8, duration: u8) -> Seq<u8> {
    seq![0x1Bu8, 0x28u8, 0x41u8, 0x05u8, 0x00u8, 0x61u8, clamp_1_9(count), clamp_1_9(duration)]
}

/// The bytes of a feed by whole lines.
pub open spec fn feed_bytes(lines: u8) -> Seq<u8> {
    seq![0x1Bu8, 0x64u8, lines]
}

/// The bytes of a cut in the given mode after a feed.
pub open spec fn cut_bytes(mode: u8, feed_lines: u8) -> Seq<u8> {
    seq![0x1Du8, 0x56u8, mode, feed_lines]
}

/// The bytes of a drawer pulse on the connector pin selected by `pin_code`.
pub open spec fn drawer_bytes(pin_code: u8, pulse_time: u16) -> Seq<u8> {
    seq![0x1Bu8, 0x70u8, pin_code, pulse_units(pulse_time), pulse_units(pulse_time)]
}

/// The bytes that set the print area of page mode.
pub open spec fn page_area_bytes(x: u16, y: u16, width: u16, height: u16) -> Seq<u8> {
    seq![
        0x1Bu8,
        0x57u8,
        low_byte(x as int),
        high_byte(x as int),
        low_byte(y as int),
        high_byte(y as int),
        low_byte(width as int),
        high_byte(width as int),
        low_byte(height as int),
        high_byte(height as int),
    ]
}

/// The bytes of the sequence that ends a receipt: feed, buzzer, feed, partial cut.
pub open spec fn finish_bytes() -> Seq<u8> {
    feed_bytes(3) + beep_bytes(2, 3) + feed_bytes(2) + seq![0x1Du8, 0x56u8, 0x01u8]
}

fn pulse_byte(pulse_time: u16) -> (t: u8)
    ensures
        t == pulse_units(pulse_time),
{
    let half: u16 = pulse_time / 2;
    if half > 255 {
        255
    } else {
        half as u8
    }
}

fn clamp_digit(v: u8) -> (r: u8)
    ensures
        r == clamp_1_9(v),
{
    if v < 1 {
        1
    } else if v > 9 {
        9
    } else {
        v
    }
}

impl PrinterControl {
    /// Resets the printer to its defaults (ESC @).
    pub fn initialize() -> (r: Vec<u8>)
        ensures
            r@ == seq![0x1Bu8, 0x40u8],
    {
        vec![0x1B, 0x40]
    }

    /// One line feed (LF).
    pub fn line_feed() -> (r: Vec<u8>)
        ensures
            r@ == seq![0x0Au8],
    {
        vec![0x0A]
    }

    /// `lines` line feeds.
    pub fn line_feed_multiple(lines: usize) -> (r: Vec<u8>)
        ensures
            r@ == repeat_byte(0x0A, lines as nat),
    {
        repeated(0x0A, lines)
    }

    /// Carriage return (CR).
    pub fn carriage_return() -> (r: Vec<u8>)
        ensures
            r@ == seq![0x0Du8],
    {
        vec![0x0D]
    }

    /// Feeds the paper by `lines` lines (ESC d n).
    pub fn feed_paper(lines: u8) -> (r: Vec<u8>)
        ensures
            r@ == feed_bytes(lines),
    {
        vec![0x1B, 0x64, lines]
    }

    /// Feeds the paper by `dots` dots (ESC J n).
    pub fn feed_paper_dots(dots: u8) -> (r: Vec<u8>)
        ensures
            r@ == seq![0x1Bu8, 0x4Au8, dots],
    {
        vec![0x1B, 0x4A, dots]
    }

    /// Full cut (GS V 0).
    pub fn cut_paper_full() -> (r: Vec<u8>)
        ensures
            r@ == seq![0x1Du8, 0x56u8, 0x00u8],
    {
        vec![0x1D, 0x56, 0x00]
    }

    /// Partial cut (GS V 1).
    pub fn cut_paper_partial() -> (r: Vec<u8>)
        ensures
            r@ == seq![0x1Du8, 0x56u8, 0x01u8],
    {
        vec![0x1D, 0x56, 0x01]
    }

    /// Partial cut in the form with a feed count, with no feed (GS V 66 0).
    pub fn cut_paper_partial_alt() -> (r: Vec<u8>)
        ensures
            r@ == seq![0x1Du8, 0x56u8, 0x42u8, 0x00u8],
    {
        vec![0x1D, 0x56, 0x42, 0x00]
    }

    /// Cut in mode `mode` after feeding `feed_lines` lines (GS V m n).
    pub fn cut_paper_with_feed(mode: u8, feed_lines: u8) -> (r: Vec<u8>)
        ensures
            r@ == cut_bytes(mode, feed_lines),
    {
        vec![0x1D, 0x56, mode, feed_lines]
    }

    /// Partial cut in the short form (ESC i).
    pub fn cut_paper_simple() -> (r: Vec<u8>)
        ensures
            r@ == seq![0x1Bu8, 0x69u8],
    {
        vec![0x1B, 0x69]
    }

    /// Full cut in the short form (ESC m).
    pub fn cut_paper_full_simple() -> (r: Vec<u8>)
        ensures
            r@ == seq![0x1Bu8, 0x6Du8],
    {
        vec![0x1B, 0x6D]
    }

    /// Pulse on drawer pin 2 (ESC p 0 t t). `pulse_time` is in milliseconds;
    /// the printer counts in units of 2 ms and takes at most 255 of them.
    pub fn open_cash_drawer_pin2(pulse_time: u16) -> (r: Vec<u8>)
        ensures
            r@ == drawer_bytes(0x00, pulse_time),
    {
        let t: u8 = pulse_byte(pulse_time);
        vec![0x1B, 0x70, 0x00, t, t]
    }

    /// Pulse on drawer pin 5 (ESC p 1 t t), with the same timing as pin 2.
    pub fn open_cash_drawer_pin5(pulse_time: u16) -> (r: Vec<u8>)
        ensures
            r@ == drawer_bytes(0x01, pulse_time),
    {
        let t: u8 = pulse_byte(pulse_time);
        vec![0x1B, 0x70, 0x01, t, t]
    }

    /// Sounds the buzzer `count` times for `duration` units each
    /// (ESC ( A 5 0 97 m t). Both values are brought into the range 1 to 9.
    pub fn beep_custom(count: u8, duration: u8) -> (r: Vec<u8>)
        ensures
            r@ == beep_bytes(count, duration),
    {
        let c: u8 = clamp_digit(count);
        let d: u8 = clamp_digit(duration);
        vec![0x1B, 0x28, 0x41, 0x05, 0x00, 0x61, c, d]
    }

    /// The usual signal: twice, three units each.
    pub fn beep() -> (r: Vec<u8>)
        ensures
            r@ == beep_bytes(2, 3),
    {
        Self::beep_custom(2, 3)
    }

    /// The signal for an error: three times, five units each.
    pub fn beep_error() -> (r: Vec<u8>)
        ensures
            r@ == beep_bytes(3, 5),
    {
        Self::beep_custom(3, 5)
    }

    /// The signal for success: once, two units.
    pub fn beep_success() -> (r: Vec<u8>)
        ensures
            r@ == beep_bytes(1, 2),
    {
        Self::beep_custom(1, 2)
    }

    /// Selects the default line spacing (ESC 2).
    pub fn set_default_line_spacing() -> (r: Vec<u8>)
        ensures
            r@ == seq![0x1Bu8, 0x32u8],
    {
        vec![0x1B, 0x32]
    }

    /// Sets the line spacing in dots (ESC 3 n).
    pub fn set_line_spacing(spacing: u8) -> (r: Vec<u8>)
        ensures
            r@ == seq![0x1Bu8, 0x33u8, spacing],
    {
        vec![0x1B, 0x33, spacing]
    }

    /// Sets the space to the right of each character in dots (ESC SP n).
    pub fn set_character_spacing(spacing: u8) -> (r: Vec<u8>)
        ensures
            r@ == seq![0x1Bu8, 0x20u8, spacing],
    {
        vec![0x1B, 0x20, spacing]
    }

    /// Enables or disables the panel buttons (ESC c 5 n).
    pub fn set_print_mode(enable: bool) -> (r: Vec<u8>)
        ensures
            r@ == seq![0x1Bu8, 0x63u8, 0x35u8, if enable { 1u8 } else { 0u8 }],
    {
        let flag: u8 = if enable { 1 } else { 0 };
        vec![0x1B, 0x63, 0x35, flag]
    }

    /// Asks for one of the status bytes of the printer (DLE EOT n).
    pub fn get_printer_status(status_type: u8) -> (r: Vec<u8>)
        ensures
            r@ == seq![0x10u8, 0x04u8, status_type],
    {
        vec![0x10, 0x04, status_type]
    }

    /// Prints what is buffered and feeds `lines` lines (ESC d n).
    pub fn print_and_feed(lines: u8) -> (r: Vec<u8>)
        ensures
            r@ == feed_bytes(lines),
    {
        Self::feed_paper(lines)
    }

    /// Feeds five lines, then cuts partially.
    pub fn print_and_cut() -> (r: Vec<u8>)
        ensures
            r@ == feed_bytes(5) + seq![0x1Du8, 0x56u8, 0x01u8],
    {
        let mut output: Vec<u8> = Self::feed_paper(5);
        let cut: Vec<u8> = Self::cut_paper_partial();
        append_bytes(&mut output, &cut);
        output
    }

    /// Ends a receipt: feeds three lines, sounds the usual signal, feeds two
    /// more lines and cuts partially.
    pub fn finish_printing() -> (r: Vec<u8>)
        ensures
            r@ == finish_bytes(),
    {
        let mut output: Vec<u8> = Self::feed_paper(3);
        let signal: Vec<u8> = Self::beep();
        append_bytes(&mut output, &signal);
        let feed: Vec<u8> = Self::feed_paper(2);
        append_bytes(&mut output, &feed);
        let cut: Vec<u8> = Self::cut_paper_partial();
        append_bytes(&mut output, &cut);
        output
    }

    /// Enters page mode (ESC L).
    pub fn enable_page_mode() -> (r: Vec<u8>)
        ensures
            r@ == seq![0x1Bu8, 0x4Cu8],
    {
        vec![0x1B, 0x4C]
    }

    /// Returns to standard mode (ESC S).
    pub fn enable_standard_mode() -> (r: Vec<u8>)
        ensures
            r@ == seq![0x1Bu8, 0x53u8],
    {
        vec![0x1B, 0x53]
    }

    /// Sets the print area of page mode (ESC W), each of the four numbers as
    /// two bytes, low byte first.
    pub fn set_page_mode_area(x: u16, y: u16, width: u16, height: u16) -> (r: Vec<u8>)
        ensures
            r@ == page_area_bytes(x, y, width, height),
    {
        let xs: (u8, u8) = split_u16(x);
        let ys: (u8, u8) = split_u16(y);
        let ws: (u8, u8) = split_u16(width);
        let hs: (u8, u8) = split_u16(height);
        vec![0x1B, 0x57, xs.0, xs.1, ys.0, ys.1, ws.0, ws.1, hs.0, hs.1]
    }

    /// Prints the page that page mode has built (ESC FF).
    pub fn print_page_mode() -> (r: Vec<u8>)
        ensures
            r@ == seq![0x1Bu8, 0x0Cu8],
    {
        vec![0x1B, 0x0C]
    }
}

} // verus!
