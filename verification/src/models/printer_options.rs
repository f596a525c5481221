//! Options of a print job.

use vstd::prelude::*;

verus! {

/// What the printer does besides printing the sections.
#[derive(Debug, Clone, Copy, PartialEq, Eq, Structural)]
pub struct PrinterOptions {
    /// Cut the paper: at the end of the job, and where a section asks for it.
    pub cut_paper: bool,
    /// Sound the buzzer where a section asks for it.
    pub beep: bool,
    /// Open the cash drawer at the end of the job.
    pub open_cash_drawer: bool,
}

impl Default for PrinterOptions {
    /// Cut the paper, no buzzer, drawer closed.
    fn default() -> (r: Self)
        ensures
            r == (PrinterOptions { cut_paper: true, beep: false, open_cash_drawer: false }),
    {
        PrinterOptions { cut_paper: true, beep: false, open_cash_drawer: false }
    }
}

impl PrinterOptions {
    /// Sets the three options.
    pub fn assign(&mut self, cut_paper: bool, beep: bool, open_cash_drawer: bool)
        ensures
            *final(self) == (PrinterOptions { cut_paper, beep, open_cash_drawer }),
    {
        self.cut_paper = cut_paper;
        self.beep = beep;
        self.open_cash_drawer = open_cash_drawer;
    }
}

} // verus!
