//! How a printer is reached.

use vstd::prelude::*;

verus! {

/// Seconds to wait on a transport when a configuration names no timeout.
pub const DEFAULT_TIMEOUT_SECONDS: u64 = 5;

/// The destination of the bytes of a job.
#[derive(Debug, Clone)]
#[allow(inconsistent_fields)]
pub enum ConnectionConfig {
    /// A printer known to the operating system's print spool.
    System { printer_name: String },
    /// A TCP socket.
    Network { host: String, port: u16, timeout_secs: u64 },
    /// A USB device, found by its vendor and product numbers.
    Usb { vendor_id: u16, product_id: u16, timeout_secs: u64 },
    /// A serial line.
    Serial { port: String, baud_rate: u32, timeout_secs: u64 },
    /// A device file.
    File { path: String },
    /// No printer: the bytes are shown or dropped.
    Console { show_output: bool },
}

/// The timeout of a configuration that names none.
pub fn default_timeout() -> (r: u64)
    ensures
        r == DEFAULT_TIMEOUT_SECONDS,
{
    DEFAULT_TIMEOUT_SECONDS
}

impl Default for ConnectionConfig {
    /// The console, with its output shown.
    fn default() -> (r: Self)
        ensures
            r == (ConnectionConfig::Console { show_output: true }),
    {
        ConnectionConfig::Console { show_output: true }
    }
}

impl ConnectionConfig {
    /// The seconds that the transport waits: those of the configuration, where
    /// it has a timeout; for the others, which never wait, the default.
    pub open spec fn timeout(self) -> u64 {
        match self {
            ConnectionConfig::Network { timeout_secs, .. } => timeout_secs,
            ConnectionConfig::Usb { timeout_secs, .. } => timeout_secs,
            ConnectionConfig::Serial { timeout_secs, .. } => timeout_secs,
            _ => DEFAULT_TIMEOUT_SECONDS,
        }
    }

    /// The seconds that the transport waits.
    pub fn timeout_secs(&self) -> (r: u64)
        ensures
            r == self.timeout(),
    {
        match self {
            ConnectionConfig::Network { timeout_secs, .. } => *timeout_secs,
            ConnectionConfig::Usb { timeout_secs, .. } => *timeout_secs,
            ConnectionConfig::Serial { timeout_secs, .. } => *timeout_secs,
            _ => DEFAULT_TIMEOUT_SECONDS,
        }
    }
}

/// A printer of the operating system.
#[derive(Debug, Clone)]
pub struct PrinterDevice {
    pub name: String,
    pub is_default: bool,
    pub location: Option<String>,
    pub driver: Option<String>,
}

/// A USB device that may be a printer.
#[derive(Debug, Clone)]
pub struct UsbDevice {
    pub vendor_id: u16,
    pub product_id: u16,
    pub name: String,
}

} // verus!
