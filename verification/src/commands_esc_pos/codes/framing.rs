//! The frame shared by the commands of the two-dimensional codes (GS ( k):
//! a header, two length bytes with the low byte first, the code family, the
//! function, and the parameters of the function.

use vstd::prelude::*;
use crate::bytes::{high_byte, low_byte, split_u16};
use crate::error::{EncodeError, ValidationError};

verus! {

/// The longest data that the two length bytes of a store command can frame.
pub const MAX_CODE_DATA: usize = 65532;

/// The command that sets one parameter of a code family: function `function`
/// of family `family` with the value `value`.
pub open spec fn set_parameter_bytes(family: u8, function: u8, value: u8) -> Seq<u8> {
    seq![0x1Du8, 0x28u8, 0x6Bu8, 0x03u8, 0x00u8, family, function, value]
}

/// The command that stores the data of a symbol. Its length bytes count the
/// data and the three bytes between them and the data.
pub open spec fn store_data_bytes(family: u8, data: Seq<u8>) -> Seq<u8> {
    seq![
        0x1Du8,
        0x28u8,
        0x6Bu8,
        low_byte(data.len() as int + 3),
        high_byte(data.len() as int + 3),
        family,
        0x50u8,
        0x30u8,
    ] + data
}

/// The command that prints the stored symbol.
pub open spec fn print_symbol_bytes(family: u8) -> Seq<u8> {
    seq![0x1Du8, 0x28u8, 0x6Bu8, 0x03u8, 0x00u8, family, 0x51u8, 0x30u8]
}

/// The command that sets one parameter of a code family.
pub fn set_parameter(family: u8, function: u8, value: u8) -> (r: Vec<u8>)
    ensures
        r@ == set_parameter_bytes(family, function, value),
{
    vec![0x1D, 0x28, 0x6B, 0x03, 0x00, family, function, value]
}

/// The command that stores `data` for a symbol of family `family`. Data
/// longer than 65532 bytes cannot be framed and is refused.
pub fn store_data(family: u8, data: &Vec<u8>) -> (r: Result<Vec<u8>, EncodeError>)
    ensures
        match r {
            Ok(bytes) => data@.len() <= MAX_CODE_DATA && bytes@ == store_data_bytes(family, data@),
            Err(e) => data@.len() > MAX_CODE_DATA && e == EncodeError::Validation(
                ValidationError::PayloadTooLong,
            ),
        },
{
    if data.len() > MAX_CODE_DATA {
        return Err(EncodeError::Validation(ValidationError::PayloadTooLong));
    }
    let framed: u16 = (data.len() + 3) as u16;
    let length: (u8, u8) = split_u16(framed);
    let mut output: Vec<u8> = vec![0x1D, 0x28, 0x6B, length.0, length.1, family, 0x50, 0x30];
    output.extend_from_slice(data.as_slice());
    Ok(output)
}

/// The command that prints the stored symbol of family `family`.
pub fn print_symbol(family: u8) -> (r: Vec<u8>)
    ensures
        r@ == print_symbol_bytes(family),
{
    vec![0x1D, 0x28, 0x6B, 0x03, 0x00, family, 0x51, 0x30]
}

/// The two length bytes of a store command, read with the low byte first,
/// are the length of the data plus three.
pub proof fn store_data_length_framing(family: u8, data: Seq<u8>)
    requires
        data.len() <= MAX_CODE_DATA,
    ensures
        store_data_bytes(family, data)[3] as int + 256 * (store_data_bytes(family, data)[4] as int)
            == data.len() + 3,
        store_data_bytes(family, data).len() == data.len() + 8,
        store_data_bytes(family, data).subrange(8, data.len() as int + 8) == data,
{
    let n: int = data.len() as int + 3;
    assert(low_byte(n) as int == n % 256);
    assert(high_byte(n) as int == n / 256);
    assert(store_data_bytes(family, data).subrange(8, data.len() as int + 8) =~= data);
}

} // verus!
