//! PDF417 codes (GS ( k, family 48).

use vstd::prelude::*;
use vstd::string::*;
use crate::bytes::append_bytes;
use crate::commands_esc_pos::codes::framing::{
    print_symbol, print_symbol_bytes, set_parameter, set_parameter_bytes, store_data,
    store_data_bytes, store_data_length_framing, MAX_CODE_DATA,
};
use crate::error::{EncodeError, ValidationError};
use crate::strings::{utf8, utf8_bytes};

verus! {

/// The error correction level of a PDF417 code: level n adds 2^(n+1)
/// correction words.
#[derive(Debug, Clone, Copy, PartialEq, Eq, Structural)]
pub enum PDF417ErrorCorrection {
    Level0,
    Level1,
    Level2,
    Level3,
    Level4,
    Level5,
    Level6,
    Level7,
    Level8,
}

impl PDF417ErrorCorrection {
    /// The number that selects the level.
    pub open spec fn code(self) -> u8 {
        match self {
            PDF417ErrorCorrection::Level0 => 48,
            PDF417ErrorCorrection::Level1 => 49,
            PDF417ErrorCorrection::Level2 => 50,
            PDF417ErrorCorrection::Level3 => 51,
            PDF417ErrorCorrection::Level4 => 52,
            PDF417ErrorCorrection::Level5 => 53,
            PDF417ErrorCorrection::Level6 => 54,
            PDF417ErrorCorrection::Level7 => 55,
            PDF417ErrorCorrection::Level8 => 56,
        }
    }

    /// The number that selects the level.
    pub fn value(&self) -> (r: u8)
        ensures
            r == self.code(),
    {
        match self {
            PDF417ErrorCorrection::Level0 => 48,
            PDF417ErrorCorrection::Level1 => 49,
            PDF417ErrorCorrection::Level2 => 50,
            PDF417ErrorCorrection::Level3 => 51,
            PDF417ErrorCorrection::Level4 => 52,
            PDF417ErrorCorrection::Level5 => 53,
            PDF417ErrorCorrection::Level6 => 54,
            PDF417ErrorCorrection::Level7 => 55,
            PDF417ErrorCorrection::Level8 => 56,
        }
    }
}

/// The code family of PDF417 in the commands.
pub const PDF417_FAMILY: u8 = 0x30;

/// A PDF417 code to print.
#[derive(Debug, Clone)]
pub struct PDF417 {
    pub data: String,
    /// The number of columns: 0 lets the printer choose, else 1 to 30.
    pub columns: u8,
    /// The number of rows: 0 lets the printer choose, else 3 to 90.
    pub rows: u8,
    /// The width of a module, 2 to 8.
    pub width: u8,
    /// The height of a row, 2 to 8.
    pub height: u8,
    pub error_correction: PDF417ErrorCorrection,
}

/// The settings of a PDF417 code, in the order of their commands: columns,
/// rows, module width, row height, error correction.
pub open spec fn pdf417_settings_bytes(
    columns: u8,
    rows: u8,
    width: u8,
    height: u8,
    level: PDF417ErrorCorrection,
) -> Seq<u8> {
    set_parameter_bytes(PDF417_FAMILY, 0x41, columns) + set_parameter_bytes(
        PDF417_FAMILY,
        0x42,
        rows,
    ) + set_parameter_bytes(PDF417_FAMILY, 0x43, width) + set_parameter_bytes(
        PDF417_FAMILY,
        0x44,
        height,
    ) + set_parameter_bytes(PDF417_FAMILY, 0x45, level.code())
}

/// The commands that print a PDF417 code: the five settings, the data, and
/// the print function.
pub open spec fn pdf417_bytes(
    columns: u8,
    rows: u8,
    width: u8,
    height: u8,
    level: PDF417ErrorCorrection,
    data: Seq<u8>,
) -> Seq<u8> {
    pdf417_settings_bytes(columns, rows, width, height, level) + store_data_bytes(
        PDF417_FAMILY,
        data,
    ) + print_symbol_bytes(PDF417_FAMILY)
}

impl PDF417 {
    /// Every setting lies in the range that the printer takes.
    pub open spec fn wf(self) -> bool {
        &&& self.columns <= 30
        &&& (self.rows == 0 || 3 <= self.rows <= 90)
        &&& 2 <= self.width <= 8
        &&& 2 <= self.height <= 8
    }

    /// The bytes that print this code.
    pub open spec fn bytes(self) -> Seq<u8> {
        pdf417_bytes(
            self.columns,
            self.rows,
            self.width,
            self.height,
            self.error_correction,
            utf8(self.data@),
        )
    }

    /// A code whose columns and rows the printer chooses, with modules 3 dots
    /// wide, rows 3 dots high and error correction level 1.
    pub fn new(data: String) -> (r: Self)
        ensures
            r == (PDF417 {
                data,
                columns: 0,
                rows: 0,
                width: 3,
                height: 3,
                error_correction: PDF417ErrorCorrection::Level1,
            }),
            r.wf(),
    {
        PDF417 {
            data,
            columns: 0,
            rows: 0,
            width: 3,
            height: 3,
            error_correction: PDF417ErrorCorrection::Level1,
        }
    }

    /// Sets the number of columns where it is at most 30, and keeps the
    /// number that was set before where it is not.
    pub fn set_columns(self, columns: u8) -> (r: Self)
        ensures
            columns <= 30 ==> r == (PDF417 { columns, ..self }),
            columns > 30 ==> r == self,
            self.wf() ==> r.wf(),
    {
        let mut code = self;
        if columns <= 30 {
            code.columns = columns;
        }
        code
    }

    /// Sets the number of rows where it is 0 or lies between 3 and 90, and
    /// keeps the number that was set before where it does not.
    pub fn set_rows(self, rows: u8) -> (r: Self)
        ensures
            (rows == 0 || 3 <= rows <= 90) ==> r == (PDF417 { rows, ..self }),
            !(rows == 0 || 3 <= rows <= 90) ==> r == self,
            self.wf() ==> r.wf(),
    {
        let mut code = self;
        if rows == 0 || (rows >= 3 && rows <= 90) {
            code.rows = rows;
        }
        code
    }

    /// Sets the module width where it lies between 2 and 8, and keeps the
    /// width that was set before where it does not.
    pub fn set_width(self, width: u8) -> (r: Self)
        ensures
            2 <= width <= 8 ==> r == (PDF417 { width, ..self }),
            !(2 <= width <= 8) ==> r == self,
            self.wf() ==> r.wf(),
    {
        let mut code = self;
        if 2 <= width && width <= 8 {
            code.width = width;
        }
        code
    }

    /// Sets the row height where it lies between 2 and 8, and keeps the
    /// height that was set before where it does not.
    pub fn set_height(self, height: u8) -> (r: Self)
        ensures
            2 <= height <= 8 ==> r == (PDF417 { height, ..self }),
            !(2 <= height <= 8) ==> r == self,
            self.wf() ==> r.wf(),
    {
        let mut code = self;
        if 2 <= height && height <= 8 {
            code.height = height;
        }
        code
    }

    /// Sets the error correction level.
    pub fn set_error_correction(self, error_correction: PDF417ErrorCorrection) -> (r: Self)
        ensures
            r == (PDF417 { error_correction, ..self }),
            self.wf() ==> r.wf(),
    {
        let mut code = self;
        code.error_correction = error_correction;
        code
    }

    /// The five settings as commands.
    fn settings(&self) -> (r: Vec<u8>)
        ensures
            r@ == pdf417_settings_bytes(
                self.columns,
                self.rows,
                self.width,
                self.height,
                self.error_correction,
            ),
    {
        let mut output: Vec<u8> = set_parameter(PDF417_FAMILY, 0x41, self.columns);
        append_bytes(&mut output, &set_parameter(PDF417_FAMILY, 0x42, self.rows));
        append_bytes(&mut output, &set_parameter(PDF417_FAMILY, 0x43, self.width));
        append_bytes(&mut output, &set_parameter(PDF417_FAMILY, 0x44, self.height));
        append_bytes(
            &mut output,
            &set_parameter(PDF417_FAMILY, 0x45, self.error_correction.value()),
        );
        output
    }

    /// The commands that print the code. Data of more than 65532 bytes do not
    /// fit the length field and are refused.
    pub fn get_command(&self) -> (r: Result<Vec<u8>, EncodeError>)
        ensures
            match r {
                Ok(bytes) => utf8(self.data@).len() <= MAX_CODE_DATA && bytes@ == self.bytes(),
                Err(e) => utf8(self.data@).len() > MAX_CODE_DATA && e == EncodeError::Validation(
                    ValidationError::PayloadTooLong,
                ),
            },
    {
        let data: Vec<u8> = utf8_bytes(self.data.as_str());
        let stored: Vec<u8> = store_data(PDF417_FAMILY, &data)?;
        let mut output: Vec<u8> = self.settings();
        append_bytes(&mut output, &stored);
        append_bytes(&mut output, &print_symbol(PDF417_FAMILY));
        Ok(output)
    }

    /// The command that asks the printer whether it knows PDF417. Not every
    /// printer answers.
    pub fn check_support() -> (r: Vec<u8>)
        ensures
            r@ == seq![0x1Du8, 0x28u8, 0x6Bu8, 0x02u8, 0x00u8, 0x30u8, 0x40u8],
    {
        vec![0x1D, 0x28, 0x6B, 0x02, 0x00, 0x30, 0x40]
    }
}

/// In the commands of a PDF417 code the store command starts at byte 40, and
/// its two length bytes, read with the low byte first, are the length of the
/// data plus three.
pub proof fn pdf417_length_framing(
    columns: u8,
    rows: u8,
    width: u8,
    height: u8,
    level: PDF417ErrorCorrection,
    data: Seq<u8>,
)
    requires
        data.len() <= MAX_CODE_DATA,
    ensures
        pdf417_bytes(columns, rows, width, height, level, data).subrange(
            40,
            48 + data.len() as int,
        ) == store_data_bytes(PDF417_FAMILY, data),
        pdf417_bytes(columns, rows, width, height, level, data)[43] as int + 256 * (pdf417_bytes(
            columns,
            rows,
            width,
            height,
            level,
            data,
        )[44] as int) == data.len() + 3,
{
    store_data_length_framing(PDF417_FAMILY, data);
    let all = pdf417_bytes(columns, rows, width, height, level, data);
    let stored = store_data_bytes(PDF417_FAMILY, data);
    assert(all.subrange(40, 48 + data.len() as int) =~= stored);
    assert(all[43] == stored[3]);
    assert(all[44] == stored[4]);
}

} // verus!
