//! What the desktop side knows of the printers of the operating system.

use vstd::prelude::*;
use vstd::string::*;
use crate::models::print_job_request::PrinterInfo;
use crate::strings::{begins_with, has_char, has_prefix};

verus! {

/// A printer of the print spool.
#[derive(Debug, Clone)]
pub struct SystemPrinterInfo {
    pub name: String,
    pub is_default: bool,
    pub location: Option<String>,
}

/// A printer as the operating system's shell reports it.
#[derive(Debug, Clone)]
pub struct PowerShellPrinter {
    pub name: String,
    pub port_name: String,
    pub printer_status: u32,
    pub interface_type: Option<String>,
}

/// A spooled printer of which only the name is known.
pub fn system_printer(name: &str) -> (r: SystemPrinterInfo)
    ensures
        r.name@ == name@,
        !r.is_default,
        r.location is None,
{
    SystemPrinterInfo { name: name.to_owned(), is_default: false, location: None }
}

/// A port name is "FILE:" in any case.
pub open spec fn is_file_port(name: Seq<char>) -> bool {
    &&& name.len() == 5
    &&& (name[0] == 'F' || name[0] == 'f')
    &&& (name[1] == 'I' || name[1] == 'i')
    &&& (name[2] == 'L' || name[2] == 'l')
    &&& (name[3] == 'E' || name[3] == 'e')
    &&& name[4] == ':'
}

/// The kind of interface that a port name tells of. A name with a colon
/// tells of the network, so the file port, whose name ends in one, is never
/// told apart.
pub open spec fn interface_type_of(port_name: Seq<char>) -> Seq<char> {
    if begins_with(port_name, "IP_"@) || port_name.contains(':') || begins_with(
        port_name,
        "WSD"@,
    ) {
        "Network"@
    } else if begins_with(port_name, "USB"@) {
        "USB"@
    } else if begins_with(port_name, "LPT"@) {
        "Parallel"@
    } else if begins_with(port_name, "COM"@) {
        "Serial"@
    } else if is_file_port(port_name) {
        "File"@
    } else {
        "Other"@
    }
}

/// The word for a printer status number.
pub open spec fn status_name(status: u32) -> Seq<char> {
    if status == 0 {
        "Other"@
    } else if status == 2 {
        "Idle"@
    } else if status == 3 {
        "Printing"@
    } else if status == 4 {
        "Warmup"@
    } else if status == 5 {
        "Stopped"@
    } else if status == 6 {
        "Offline"@
    } else {
        "Unknown"@
    }
}

/// The states that the Windows spooler reports of a printer, as it numbers
/// them.
pub const PRINTER_STATUS_PAUSED: u32 = 0x00000001;

pub const PRINTER_STATUS_ERROR: u32 = 0x00000002;

pub const PRINTER_STATUS_PENDING_DELETION: u32 = 0x00000004;

pub const PRINTER_STATUS_PAPER_JAM: u32 = 0x00000008;

pub const PRINTER_STATUS_PAPER_OUT: u32 = 0x00000010;

pub const PRINTER_STATUS_MANUAL_FEED: u32 = 0x00000020;

pub const PRINTER_STATUS_PAPER_PROBLEM: u32 = 0x00000040;

pub const PRINTER_STATUS_OFFLINE: u32 = 0x00000080;

pub const PRINTER_STATUS_IO_ACTIVE: u32 = 0x00000100;

pub const PRINTER_STATUS_BUSY: u32 = 0x00000200;

pub const PRINTER_STATUS_PRINTING: u32 = 0x00000400;

pub const PRINTER_STATUS_OUTPUT_BIN_FULL: u32 = 0x00000800;

pub const PRINTER_STATUS_NOT_AVAILABLE: u32 = 0x00001000;

pub const PRINTER_STATUS_WAITING: u32 = 0x00002000;

pub const PRINTER_STATUS_PROCESSING: u32 = 0x00004000;

pub const PRINTER_STATUS_INITIALIZING: u32 = 0x00008000;

pub const PRINTER_STATUS_WARMING_UP: u32 = 0x00010000;

pub const PRINTER_STATUS_TONER_LOW: u32 = 0x00020000;

pub const PRINTER_STATUS_NO_TONER: u32 = 0x00040000;

pub const PRINTER_STATUS_PAGE_PUNT: u32 = 0x00080000;

pub const PRINTER_STATUS_USER_INTERVENTION: u32 = 0x00100000;

pub const PRINTER_STATUS_OUT_OF_MEMORY: u32 = 0x00200000;

pub const PRINTER_STATUS_DOOR_OPEN: u32 = 0x00400000;

pub const PRINTER_STATUS_SERVER_UNKNOWN: u32 = 0x00800000;

/// The word for a state of the Windows spooler: "Idle" for none, the word of
/// the state for a number that names one state, and "Unknown" for every
/// other number, also for one that names several states at once.
pub open spec fn spooler_status_name(status: u32) -> Seq<char> {
    if status == 0 {
        "Idle"@
    } else if status == PRINTER_STATUS_BUSY {
        "Printing"@
    } else if status == PRINTER_STATUS_DOOR_OPEN {
        "Offline"@
    } else if status == PRINTER_STATUS_ERROR {
        "Error"@
    } else if status == PRINTER_STATUS_INITIALIZING {
        "Initializing"@
    } else if status == PRINTER_STATUS_IO_ACTIVE {
        "IO Active"@
    } else if status == PRINTER_STATUS_MANUAL_FEED {
        "Manual Feed"@
    } else if status == PRINTER_STATUS_NO_TONER {
        "No Toner"@
    } else if status == PRINTER_STATUS_NOT_AVAILABLE {
        "Not Available"@
    } else if status == PRINTER_STATUS_OFFLINE {
        "Offline"@
    } else if status == PRINTER_STATUS_OUT_OF_MEMORY {
        "Out of Memory"@
    } else if status == PRINTER_STATUS_OUTPUT_BIN_FULL {
        "Output Bin Full"@
    } else if status == PRINTER_STATUS_PAGE_PUNT {
        "Page Punt"@
    } else if status == PRINTER_STATUS_PAPER_JAM {
        "Paper Jam"@
    } else if status == PRINTER_STATUS_PAPER_OUT {
        "Paper Out"@
    } else if status == PRINTER_STATUS_PAPER_PROBLEM {
        "Paper Problem"@
    } else if status == PRINTER_STATUS_PAUSED {
        "Paused"@
    } else if status == PRINTER_STATUS_PENDING_DELETION {
        "Pending Deletion"@
    } else if status == PRINTER_STATUS_PRINTING {
        "Printing"@
    } else if status == PRINTER_STATUS_PROCESSING {
        "Processing"@
    } else if status == PRINTER_STATUS_SERVER_UNKNOWN {
        "Server Unknown"@
    } else if status == PRINTER_STATUS_TONER_LOW {
        "Toner Low"@
    } else if status == PRINTER_STATUS_USER_INTERVENTION {
        "User Intervention"@
    } else if status == PRINTER_STATUS_WAITING {
        "Waiting"@
    } else if status == PRINTER_STATUS_WARMING_UP {
        "Warming Up"@
    } else {
        "Unknown"@
    }
}

/// The path under which a printer is opened as a file: the name itself
/// where it is a network path already, else the name in the device
/// namespace.
pub open spec fn printer_path(printer_name: Seq<char>) -> Seq<char> {
    if begins_with(printer_name, "\\\\"@) {
        printer_name
    } else {
        "\\\\.\\"@ + printer_name
    }
}

/// The kind of interface that a port name tells of: "Network", "USB",
/// "Parallel", "Serial", "File" or "Other".
pub fn get_interface_type(port_name: &str) -> (r: String)
    ensures
        r@ == interface_type_of(port_name@),
{
    if has_prefix(port_name, "IP_") || has_char(port_name, ':') || has_prefix(port_name, "WSD") {
        "Network".to_owned()
    } else if has_prefix(port_name, "USB") {
        "USB".to_owned()
    } else if has_prefix(port_name, "LPT") {
        "Parallel".to_owned()
    } else if has_prefix(port_name, "COM") {
        "Serial".to_owned()
    } else {
        proof {
            if is_file_port(port_name@) {
                assert(port_name@[4] == ':');
            }
        }
        "Other".to_owned()
    }
}

/// The word for a printer status number.
pub fn status_word(status: u32) -> (r: String)
    ensures
        r@ == status_name(status),
{
    if status == 0 {
        "Other".to_owned()
    } else if status == 2 {
        "Idle".to_owned()
    } else if status == 3 {
        "Printing".to_owned()
    } else if status == 4 {
        "Warmup".to_owned()
    } else if status == 5 {
        "Stopped".to_owned()
    } else if status == 6 {
        "Offline".to_owned()
    } else {
        "Unknown".to_owned()
    }
}

/// The word for a state of the Windows spooler.
pub fn spooler_status_word(status: u32) -> (r: String)
    ensures
        r@ == spooler_status_name(status),
{
    if status == 0 {
        "Idle".to_owned()
    } else if status == PRINTER_STATUS_BUSY {
        "Printing".to_owned()
    } else if status == PRINTER_STATUS_DOOR_OPEN {
        "Offline".to_owned()
    } else if status == PRINTER_STATUS_ERROR {
        "Error".to_owned()
    } else if status == PRINTER_STATUS_INITIALIZING {
        "Initializing".to_owned()
    } else if status == PRINTER_STATUS_IO_ACTIVE {
        "IO Active".to_owned()
    } else if status == PRINTER_STATUS_MANUAL_FEED {
        "Manual Feed".to_owned()
    } else if status == PRINTER_STATUS_NO_TONER {
        "No Toner".to_owned()
    } else if status == PRINTER_STATUS_NOT_AVAILABLE {
        "Not Available".to_owned()
    } else if status == PRINTER_STATUS_OFFLINE {
        "Offline".to_owned()
    } else if status == PRINTER_STATUS_OUT_OF_MEMORY {
        "Out of Memory".to_owned()
    } else if status == PRINTER_STATUS_OUTPUT_BIN_FULL {
        "Output Bin Full".to_owned()
    } else if status == PRINTER_STATUS_PAGE_PUNT {
        "Page Punt".to_owned()
    } else if status == PRINTER_STATUS_PAPER_JAM {
        "Paper Jam".to_owned()
    } else if status == PRINTER_STATUS_PAPER_OUT {
        "Paper Out".to_owned()
    } else if status == PRINTER_STATUS_PAPER_PROBLEM {
        "Paper Problem".to_owned()
    } else if status == PRINTER_STATUS_PAUSED {
        "Paused".to_owned()
    } else if status == PRINTER_STATUS_PENDING_DELETION {
        "Pending Deletion".to_owned()
    } else if status == PRINTER_STATUS_PRINTING {
        "Printing".to_owned()
    } else if status == PRINTER_STATUS_PROCESSING {
        "Processing".to_owned()
    } else if status == PRINTER_STATUS_SERVER_UNKNOWN {
        "Server Unknown".to_owned()
    } else if status == PRINTER_STATUS_TONER_LOW {
        "Toner Low".to_owned()
    } else if status == PRINTER_STATUS_USER_INTERVENTION {
        "User Intervention".to_owned()
    } else if status == PRINTER_STATUS_WAITING {
        "Waiting".to_owned()
    } else if status == PRINTER_STATUS_WARMING_UP {
        "Warming Up".to_owned()
    } else {
        "Unknown".to_owned()
    }
}

/// What the library tells of a printer that the shell reports: the kind of
/// interface that the shell gives, or else what the port name tells.
pub fn printer_info_from(printer: PowerShellPrinter) -> (r: PrinterInfo)
    ensures
        r.name == printer.name,
        r.identifier@ == printer.port_name@,
        r.status@ == status_name(printer.printer_status),
        r.interface_type@ == (match printer.interface_type {
            Some(kind) => kind@,
            None => interface_type_of(printer.port_name@),
        }),
{
    let interface_type: String = match printer.interface_type {
        Some(kind) => kind,
        None => get_interface_type(printer.port_name.as_str()),
    };
    let status: String = status_word(printer.printer_status);
    PrinterInfo {
        name: printer.name,
        interface_type,
        identifier: printer.port_name,
        status,
    }
}

/// The path under which a printer is opened as a file.
pub fn windows_printer_path(printer_name: &str) -> (r: String)
    ensures
        r@ == printer_path(printer_name@),
{
    if has_prefix(printer_name, "\\\\") {
        printer_name.to_owned()
    } else {
        "\\\\.\\".to_owned().concat(printer_name)
    }
}

} // verus!
