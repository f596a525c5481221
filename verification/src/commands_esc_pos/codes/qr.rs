//! QR codes (GS ( k, family 49).

use vstd::prelude::*;
use vstd::string::*;
use crate::bytes::append_bytes;
use crate::commands_esc_pos::codes::framing::{
    print_symbol, print_symbol_bytes, set_parameter, set_parameter_bytes, store_data,
    store_data_bytes, store_data_length_framing, MAX_CODE_DATA,
};
use crate::error::{EncodeError, ValidationError};
use crate::strings::{utf8, utf8_bytes};

verus! {

/// The model of a QR code.
#[derive(Debug, Clone, Copy, PartialEq, Eq, Structural)]
pub enum QRModel {
    Model1,
    Model2,
}

impl QRModel {
    /// The number that selects the model.
    pub open spec fn code(self) -> u8 {
        match self {
            QRModel::Model1 => 49,
            QRModel::Model2 => 50,
        }
    }

    /// The number that selects the model.
    pub fn value(&self) -> (r: u8)
        ensures
            r == self.code(),
    {
        match self {
            QRModel::Model1 => 49,
            QRModel::Model2 => 50,
        }
    }
}

/// The size of a module of a QR code, in dots.
#[derive(Debug, Clone, Copy, PartialEq, Eq, Structural)]
pub enum QRSize {
    Size1,
    Size2,
    Size3,
    Size4,
    Size5,
    Size6,
    Size7,
    Size8,
    Size9,
    Size10,
    Size11,
    Size12,
    Size13,
    Size14,
    Size15,
    Size16,
}

impl QRSize {
    /// The size in dots.
    pub open spec fn code(self) -> u8 {
        match self {
            QRSize::Size1 => 1,
            QRSize::Size2 => 2,
            QRSize::Size3 => 3,
            QRSize::Size4 => 4,
            QRSize::Size5 => 5,
            QRSize::Size6 => 6,
            QRSize::Size7 => 7,
            QRSize::Size8 => 8,
            QRSize::Size9 => 9,
            QRSize::Size10 => 10,
            QRSize::Size11 => 11,
            QRSize::Size12 => 12,
            QRSize::Size13 => 13,
            QRSize::Size14 => 14,
            QRSize::Size15 => 15,
            QRSize::Size16 => 16,
        }
    }

    /// The size in dots.
    pub fn value(&self) -> (r: u8)
        ensures
            r == self.code(),
    {
        match self {
            QRSize::Size1 => 1,
            QRSize::Size2 => 2,
            QRSize::Size3 => 3,
            QRSize::Size4 => 4,
            QRSize::Size5 => 5,
            QRSize::Size6 => 6,
            QRSize::Size7 => 7,
            QRSize::Size8 => 8,
            QRSize::Size9 => 9,
            QRSize::Size10 => 10,
            QRSize::Size11 => 11,
            QRSize::Size12 => 12,
            QRSize::Size13 => 13,
            QRSize::Size14 => 14,
            QRSize::Size15 => 15,
            QRSize::Size16 => 16,
        }
    }
}

/// The error correction level of a QR code: the share of the symbol that may
/// be lost, from 7 % (L) to 30 % (H).
#[derive(Debug, Clone, Copy, PartialEq, Eq, Structural)]
pub enum QRErrorCorrection {
    L,
    M,
    Q,
    H,
}

impl QRErrorCorrection {
    /// The number that selects the level.
    pub open spec fn code(self) -> u8 {
        match self {
            QRErrorCorrection::L => 48,
            QRErrorCorrection::M => 49,
            QRErrorCorrection::Q => 50,
            QRErrorCorrection::H => 51,
        }
    }

    /// The number that selects the level.
    pub fn value(&self) -> (r: u8)
        ensures
            r == self.code(),
    {
        match self {
            QRErrorCorrection::L => 48,
            QRErrorCorrection::M => 49,
            QRErrorCorrection::Q => 50,
            QRErrorCorrection::H => 51,
        }
    }
}

/// The code family of QR in the commands.
pub const QR_FAMILY: u8 = 0x31;

/// A QR code to print.
#[derive(Debug, Clone)]
pub struct QR {
    pub model: QRModel,
    pub size: QRSize,
    pub error_correction: QRErrorCorrection,
    pub data: String,
}

/// The command that selects the model: it has one parameter byte more than
/// the other settings.
pub open spec fn qr_model_bytes(model: QRModel) -> Seq<u8> {
    seq![0x1Du8, 0x28u8, 0x6Bu8, 0x04u8, 0x00u8, 0x31u8, 0x41u8, model.code(), 0x00u8]
}

/// The commands that print a QR code: model, module size, error correction,
/// the data, and the print function.
pub open spec fn qr_bytes(
    model: QRModel,
    size: QRSize,
    level: QRErrorCorrection,
    data: Seq<u8>,
) -> Seq<u8> {
    qr_model_bytes(model) + set_parameter_bytes(QR_FAMILY, 0x43, size.code())
        + set_parameter_bytes(QR_FAMILY, 0x45, level.code()) + store_data_bytes(QR_FAMILY, data)
        + print_symbol_bytes(QR_FAMILY)
}

impl QR {
    /// The bytes that print this code.
    pub open spec fn bytes(self) -> Seq<u8> {
        qr_bytes(self.model, self.size, self.error_correction, utf8(self.data@))
    }

    /// A code of model 2 with modules of 6 dots and error correction M.
    pub fn new(data: String) -> (r: Self)
        ensures
            r == (QR {
                model: QRModel::Model2,
                size: QRSize::Size6,
                error_correction: QRErrorCorrection::M,
                data,
            }),
    {
        QR { model: QRModel::Model2, size: QRSize::Size6, error_correction: QRErrorCorrection::M, data }
    }

    /// Sets the model.
    pub fn set_model(self, model: QRModel) -> (r: Self)
        ensures
            r == (QR { model, ..self }),
    {
        let mut code = self;
        code.model = model;
        code
    }

    /// Sets the module size.
    pub fn set_size(self, size: QRSize) -> (r: Self)
        ensures
            r == (QR { size, ..self }),
    {
        let mut code = self;
        code.size = size;
        code
    }

    /// Sets the error correction level.
    pub fn set_error_correction(self, error_correction: QRErrorCorrection) -> (r: Self)
        ensures
            r == (QR { error_correction, ..self }),
    {
        let mut code = self;
        code.error_correction = error_correction;
        code
    }

    /// The commands that print the code. Data of more than 65532 bytes do not
    /// fit the length field and are refused.
    pub fn get_command(&self) -> (r: Result<Vec<u8>, EncodeError>)
        ensures
            match r {
                Ok(bytes) => utf8(self.data@).len() <= MAX_CODE_DATA && bytes@ == self.bytes(),
                Err(e) => utf8(self.data@).len() > MAX_CODE_DATA && e == EncodeError::Validation(
                    ValidationError::PayloadTooLong,
                ),
            },
    {
        let data: Vec<u8> = utf8_bytes(self.data.as_str());
        let stored: Vec<u8> = store_data(QR_FAMILY, &data)?;
        let mut output: Vec<u8> = vec![
            0x1D,
            0x28,
            0x6B,
            0x04,
            0x00,
            0x31,
            0x41,
            self.model.value(),
            0x00,
        ];
        append_bytes(&mut output, &set_parameter(QR_FAMILY, 0x43, self.size.value()));
        append_bytes(&mut output, &set_parameter(QR_FAMILY, 0x45, self.error_correction.value()));
        append_bytes(&mut output, &stored);
        append_bytes(&mut output, &print_symbol(QR_FAMILY));
        Ok(output)
    }
}

/// In the commands of a QR code the store command starts at byte 25, and its
/// two length bytes, read with the low byte first, are the length of the
/// data plus three.
pub proof fn qr_length_framing(
    model: QRModel,
    size: QRSize,
    level: QRErrorCorrection,
    data: Seq<u8>,
)
    requires
        data.len() <= MAX_CODE_DATA,
    ensures
        qr_bytes(model, size, level, data).subrange(25, 33 + data.len() as int) == store_data_bytes(
            QR_FAMILY,
            data,
        ),
        qr_bytes(model, size, level, data)[28] as int + 256 * (qr_bytes(
            model,
            size,
            level,
            data,
        )[29] as int) == data.len() + 3,
{
    store_data_length_framing(QR_FAMILY, data);
    let all = qr_bytes(model, size, level, data);
    let stored = store_data_bytes(QR_FAMILY, data);
    assert(all.subrange(25, 33 + data.len() as int) =~= stored);
    assert(all[28] == stored[3]);
    assert(all[29] == stored[4]);
}

} // verus!
