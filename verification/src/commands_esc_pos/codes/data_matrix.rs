//! DataMatrix codes (GS ( k, family 50).

use vstd::prelude::*;
use vstd::string::*;
use crate::bytes::append_bytes;
use crate::commands_esc_pos::codes::framing::{
    print_symbol, print_symbol_bytes, set_parameter, set_parameter_bytes, store_data,
    store_data_bytes, store_data_length_framing, MAX_CODE_DATA,
};
use crate::error::{EncodeError, ValidationError};
use crate::strings::{utf8, utf8_bytes};

verus! {

/// The size of a module of a DataMatrix code, in dots.
#[derive(Debug, Clone, Copy, PartialEq, Eq, Structural)]
pub enum DataMatrixSize {
    Size1,
    Size2,
    Size3,
    Size4,
    Size5,
    Size6,
    Size7,
    Size8,
    Size9,
    Size10,
    Size11,
    Size12,
    Size13,
    Size14,
    Size15,
    Size16,
}

impl DataMatrixSize {
    /// The size in dots.
    pub open spec fn code(self) -> u8 {
        match self {
            DataMatrixSize::Size1 => 1,
            DataMatrixSize::Size2 => 2,
            DataMatrixSize::Size3 => 3,
            DataMatrixSize::Size4 => 4,
            DataMatrixSize::Size5 => 5,
            DataMatrixSize::Size6 => 6,
            DataMatrixSize::Size7 => 7,
            DataMatrixSize::Size8 => 8,
            DataMatrixSize::Size9 => 9,
            DataMatrixSize::Size10 => 10,
            DataMatrixSize::Size11 => 11,
            DataMatrixSize::Size12 => 12,
            DataMatrixSize::Size13 => 13,
            DataMatrixSize::Size14 => 14,
            DataMatrixSize::Size15 => 15,
            DataMatrixSize::Size16 => 16,
        }
    }

    /// The size in dots.
    pub fn value(&self) -> (r: u8)
        ensures
            r == self.code(),
    {
        match self {
            DataMatrixSize::Size1 => 1,
            DataMatrixSize::Size2 => 2,
            DataMatrixSize::Size3 => 3,
            DataMatrixSize::Size4 => 4,
            DataMatrixSize::Size5 => 5,
            DataMatrixSize::Size6 => 6,
            DataMatrixSize::Size7 => 7,
            DataMatrixSize::Size8 => 8,
            DataMatrixSize::Size9 => 9,
            DataMatrixSize::Size10 => 10,
            DataMatrixSize::Size11 => 11,
            DataMatrixSize::Size12 => 12,
            DataMatrixSize::Size13 => 13,
            DataMatrixSize::Size14 => 14,
            DataMatrixSize::Size15 => 15,
            DataMatrixSize::Size16 => 16,
        }
    }
}

/// The code family of DataMatrix in the commands.
pub const DATA_MATRIX_FAMILY: u8 = 0x32;

/// A DataMatrix code to print.
#[derive(Debug, Clone)]
pub struct DataMatrix {
    pub data: String,
    pub size: DataMatrixSize,
}

/// The commands that print a DataMatrix code: module size, the data, and the
/// print function.
pub open spec fn data_matrix_bytes(size: DataMatrixSize, data: Seq<u8>) -> Seq<u8> {
    set_parameter_bytes(DATA_MATRIX_FAMILY, 0x43, size.code()) + store_data_bytes(
        DATA_MATRIX_FAMILY,
        data,
    ) + print_symbol_bytes(DATA_MATRIX_FAMILY)
}

impl DataMatrix {
    /// The bytes that print this code.
    pub open spec fn bytes(self) -> Seq<u8> {
        data_matrix_bytes(self.size, utf8(self.data@))
    }

    /// A code with modules of 6 dots.
    pub fn new(data: String) -> (r: Self)
        ensures
            r == (DataMatrix { data, size: DataMatrixSize::Size6 }),
    {
        DataMatrix { data, size: DataMatrixSize::Size6 }
    }

    /// Sets the module size.
    pub fn set_size(self, size: DataMatrixSize) -> (r: Self)
        ensures
            r == (DataMatrix { size, ..self }),
    {
        let mut code = self;
        code.size = size;
        code
    }

    /// The commands that print the code. Data of more than 65532 bytes do not
    /// fit the length field and are refused.
    pub fn get_command(&self) -> (r: Result<Vec<u8>, EncodeError>)
        ensures
            match r {
                Ok(bytes) => utf8(self.data@).len() <= MAX_CODE_DATA && bytes@ == self.bytes(),
                Err(e) => utf8(self.data@).len() > MAX_CODE_DATA && e == EncodeError::Validation(
                    ValidationError::PayloadTooLong,
                ),
            },
    {
        let data: Vec<u8> = utf8_bytes(self.data.as_str());
        let stored: Vec<u8> = store_data(DATA_MATRIX_FAMILY, &data)?;
        let mut output: Vec<u8> = set_parameter(DATA_MATRIX_FAMILY, 0x43, self.size.value());
        append_bytes(&mut output, &stored);
        append_bytes(&mut output, &print_symbol(DATA_MATRIX_FAMILY));
        Ok(output)
    }
}

/// In the commands of a DataMatrix code the store command starts at byte 8,
/// and its two length bytes, read with the low byte first, are the length of
/// the data plus three.
pub proof fn data_matrix_length_framing(size: DataMatrixSize, data: Seq<u8>)
    requires
        data.len() <= MAX_CODE_DATA,
    ensures
        data_matrix_bytes(size, data).subrange(8, 16 + data.len() as int) == store_data_bytes(
            DATA_MATRIX_FAMILY,
            data,
        ),
        data_matrix_bytes(size, data)[11] as int + 256 * (data_matrix_bytes(size, data)[12] as int)
            == data.len() + 3,
{
    store_data_length_framing(DATA_MATRIX_FAMILY, data);
    let all = data_matrix_bytes(size, data);
    let stored = store_data_bytes(DATA_MATRIX_FAMILY, data);
    assert(all.subrange(8, 16 + data.len() as int) =~= stored);
    assert(all[11] == stored[3]);
    assert(all[12] == stored[4]);
}

} // verus!
