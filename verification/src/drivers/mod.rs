//! What the transports have in common: their errors, their interface, their
//! names, and the console that stands in for a printer.

use vstd::prelude::*;
use vstd::string::*;
use crate::models::connection_config::DEFAULT_TIMEOUT_SECONDS;
use crate::strings::{decimal, to_decimal};

pub mod usb;

verus! {

/// Why a transport failed.
#[derive(Debug, Clone)]
pub enum DriverError {
    /// Reading or writing failed.
    Io(String),
    /// The destination could not be reached.
    Connection(String),
    /// The destination did not answer in time.
    Timeout(String),
    /// There is no such destination.
    NotFound(String),
}

/// The words that describe an error: its kind, a colon, and its message.
pub open spec fn described(error: DriverError) -> Seq<char> {
    match error {
        DriverError::Io(message) => "IO error: "@ + message@,
        DriverError::Connection(message) => "Connection error: "@ + message@,
        DriverError::Timeout(message) => "Timeout error: "@ + message@,
        DriverError::NotFound(message) => "Not found: "@ + message@,
    }
}

impl DriverError {
    /// The words that describe the error.
    pub fn describe(&self) -> (r: String)
        ensures
            r@ == described(*self),
    {
        match self {
            DriverError::Io(message) => "IO error: ".to_owned().concat(message.as_str()),
            DriverError::Connection(message) => "Connection error: ".to_owned().concat(
                message.as_str(),
            ),
            DriverError::Timeout(message) => "Timeout error: ".to_owned().concat(message.as_str()),
            DriverError::NotFound(message) => "Not found: ".to_owned().concat(message.as_str()),
        }
    }
}

/// A way to hand bytes to a printer. Every transport offers these four
/// operations, whatever it is made of.
pub trait Driver {
    /// What the transport is and where it leads.
    fn name(&self) -> String;

    /// Sends bytes to the printer.
    fn write(&self, data: &[u8]) -> Result<(), DriverError>;

    /// Reads what the printer has sent into `buf`, and returns how many
    /// bytes it was.
    fn read(&self, buf: &mut [u8]) -> Result<usize, DriverError>;

    /// Sends on what is still held back.
    fn flush(&self) -> Result<(), DriverError>;
}

/// The seconds that a transport waits: those asked for, or five.
pub fn timeout_or_default(timeout_secs: Option<u64>) -> (r: u64)
    ensures
        r == (match timeout_secs {
            Some(seconds) => seconds,
            None => DEFAULT_TIMEOUT_SECONDS,
        }),
{
    match timeout_secs {
        Some(seconds) => seconds,
        None => DEFAULT_TIMEOUT_SECONDS,
    }
}

/// The name of the transport to a socket.
pub fn network_name(host: &str, port: u16) -> (r: String)
    ensures
        r@ == "network ("@ + host@ + ":"@ + decimal(port as nat) + ")"@,
{
    let digits: String = to_decimal(port as u64);
    "network (".to_owned().concat(host).concat(":").concat(digits.as_str()).concat(")")
}

/// The name of the transport to a device file.
pub fn file_name(path: &str) -> (r: String)
    ensures
        r@ == "file ("@ + path@ + ")"@,
{
    "file (".to_owned().concat(path).concat(")")
}

/// The name of the transport to a serial line.
pub fn serial_name(path: &str) -> (r: String)
    ensures
        r@ == "serial port ("@ + path@ + ")"@,
{
    "serial port (".to_owned().concat(path).concat(")")
}

/// The name of the transport to the print spool.
pub fn system_name(printer_name: &str) -> (r: String)
    ensures
        r@ == "system ("@ + printer_name@ + ")"@,
{
    "system (".to_owned().concat(printer_name).concat(")")
}

/// The console: no printer at all. It shows the bytes it is given or drops
/// them, and never fails.
#[derive(Debug, Clone, Copy, PartialEq, Eq, Structural)]
pub struct ConsoleDriver {
    pub show_output: bool,
}

impl ConsoleDriver {
    /// A console that shows its output or keeps silent.
    pub fn new(show_output: bool) -> (r: Self)
        ensures
            r.show_output == show_output,
    {
        ConsoleDriver { show_output }
    }

    /// The name of the console.
    pub fn name(&self) -> (r: String)
        ensures
            r@ == "console (debug)"@,
    {
        "console (debug)".to_owned()
    }

    /// What a write of `data` shows: the data, or nothing where the console
    /// keeps silent.
    pub fn echo(&self, data: &[u8]) -> (r: Vec<u8>)
        ensures
            r@ == (if self.show_output {
                data@
            } else {
                Seq::<u8>::empty()
            }),
    {
        let mut shown: Vec<u8> = Vec::new();
        if self.show_output {
            shown.extend_from_slice(data);
        }
        shown
    }

    /// The console has nothing to read: no byte, and no error.
    pub fn read(&self) -> (r: Result<usize, DriverError>)
        ensures
            r matches Ok(count) && count == 0,
    {
        Ok(0)
    }

    /// The console holds nothing back.
    pub fn flush(&self) -> (r: Result<(), DriverError>)
        ensures
            r is Ok,
    {
        Ok(())
    }
}

} // verus!
