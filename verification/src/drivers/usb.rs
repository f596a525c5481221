//! The choices that opening a USB printer takes: which device, which
//! interface, and which endpoints.

use vstd::prelude::*;
use vstd::string::*;
use crate::drivers::DriverError;
use crate::strings::{hex4, to_hex4};

verus! {

/// One endpoint of an interface, as its descriptor gives it.
#[derive(Debug, Clone, Copy, PartialEq, Eq, Structural)]
pub struct UsbEndpoint {
    pub address: u8,
    /// The endpoint makes bulk transfers.
    pub bulk: bool,
    /// The endpoint leads from the device to the host.
    pub input: bool,
}

/// One setting of an interface: its number and its endpoints.
#[derive(Debug, Clone)]
pub struct UsbInterface {
    pub number: u8,
    pub endpoints: Vec<UsbEndpoint>,
}

/// The endpoints that a driver talks through, and the interface that it
/// claims for them.
#[derive(Debug, Clone, Copy, PartialEq, Eq, Structural)]
pub struct UsbEndpoints {
    pub output_endpoint: u8,
    pub input_endpoint: u8,
    pub interface_number: u8,
}

/// The address of the last of the first `n` endpoints that makes bulk
/// transfers in the given direction.
pub open spec fn last_bulk(endpoints: Seq<UsbEndpoint>, input: bool, n: int) -> Option<u8>
    decreases n,
{
    if n <= 0 {
        None
    } else if endpoints[n - 1].bulk && endpoints[n - 1].input == input {
        Some(endpoints[n - 1].address)
    } else {
        last_bulk(endpoints, input, n - 1)
    }
}

/// The endpoints of an interface that has a bulk endpoint in each direction.
pub open spec fn bulk_pair(interface: UsbInterface) -> Option<UsbEndpoints> {
    let endpoints = interface.endpoints@;
    match (
        last_bulk(endpoints, false, endpoints.len() as int),
        last_bulk(endpoints, true, endpoints.len() as int),
    ) {
        (Some(output), Some(input)) => Some(
            UsbEndpoints {
                output_endpoint: output,
                input_endpoint: input,
                interface_number: interface.number,
            },
        ),
        _ => None,
    }
}

/// The endpoints of the first interface, from place `from` on, that has a
/// bulk endpoint in each direction.
pub open spec fn first_bulk_pair(interfaces: Seq<UsbInterface>, from: int) -> Option<UsbEndpoints>
    decreases interfaces.len() - from,
{
    if from < 0 || from >= interfaces.len() {
        None
    } else if bulk_pair(interfaces[from]) is Some {
        bulk_pair(interfaces[from])
    } else {
        first_bulk_pair(interfaces, from + 1)
    }
}

/// The place of the first device, from place `from` on, with the given
/// vendor and product numbers.
pub open spec fn first_match(devices: Seq<(u16, u16)>, vendor_id: u16, product_id: u16, from: int) -> Option<
    int,
>
    decreases devices.len() - from,
{
    if from < 0 || from >= devices.len() {
        None
    } else if devices[from] == (vendor_id, product_id) {
        Some(from)
    } else {
        first_match(devices, vendor_id, product_id, from + 1)
    }
}

/// A vendor and a product number as they are written in names and
/// messages.
pub open spec fn ids_text(vendor_id: u16, product_id: u16) -> Seq<char> {
    "(VID: "@ + hex4(vendor_id) + ", PID: "@ + hex4(product_id) + ")"@
}

fn ids(vendor_id: u16, product_id: u16) -> (r: String)
    ensures
        r@ == ids_text(vendor_id, product_id),
{
    let vendor: String = to_hex4(vendor_id);
    let product: String = to_hex4(product_id);
    "(VID: ".to_owned().concat(vendor.as_str()).concat(", PID: ").concat(product.as_str()).concat(
        ")",
    )
}

/// The name of the transport to a USB device.
pub fn usb_name(vendor_id: u16, product_id: u16) -> (r: String)
    ensures
        r@ == "USB "@ + ids_text(vendor_id, product_id),
{
    let ids: String = ids(vendor_id, product_id);
    "USB ".to_owned().concat(ids.as_str())
}

/// The name of a device that does not tell its own.
pub fn unknown_device_name(vendor_id: u16, product_id: u16) -> (r: String)
    ensures
        r@ == "Unknown "@ + ids_text(vendor_id, product_id),
{
    let ids: String = ids(vendor_id, product_id);
    "Unknown ".to_owned().concat(ids.as_str())
}

/// The error for a device that is not plugged in.
pub fn device_not_found(vendor_id: u16, product_id: u16) -> (r: DriverError)
    ensures
        r matches DriverError::NotFound(message) && message@ == "USB device not found "@
            + ids_text(vendor_id, product_id),
{
    let ids: String = ids(vendor_id, product_id);
    DriverError::NotFound("USB device not found ".to_owned().concat(ids.as_str()))
}

/// The place of the first device with the given vendor and product numbers.
pub fn find_device(devices: &Vec<(u16, u16)>, vendor_id: u16, product_id: u16) -> (r: Option<usize>)
    ensures
        match r {
            Some(place) => first_match(devices@, vendor_id, product_id, 0) == Some(place as int),
            None => first_match(devices@, vendor_id, product_id, 0) is None,
        },
{
    let mut i: usize = 0;
    while i < devices.len()
        invariant
            i <= devices@.len(),
            first_match(devices@, vendor_id, product_id, 0) == first_match(
                devices@,
                vendor_id,
                product_id,
                i as int,
            ),
        decreases devices@.len() - i,
    {
        if devices[i].0 == vendor_id && devices[i].1 == product_id {
            return Some(i);
        }
        i += 1;
    }
    None
}

fn bulk_endpoints(interface: &UsbInterface) -> (r: Option<UsbEndpoints>)
    ensures
        r == bulk_pair(*interface),
{
    let mut input: Option<u8> = None;
    let mut output: Option<u8> = None;
    let mut i: usize = 0;
    while i < interface.endpoints.len()
        invariant
            i <= interface.endpoints@.len(),
            input == last_bulk(interface.endpoints@, true, i as int),
            output == last_bulk(interface.endpoints@, false, i as int),
        decreases interface.endpoints@.len() - i,
    {
        let endpoint: UsbEndpoint = interface.endpoints[i];
        if endpoint.bulk && endpoint.input {
            input = Some(endpoint.address);
        } else if endpoint.bulk && !endpoint.input {
            output = Some(endpoint.address);
        }
        i += 1;
    }
    match (output, input) {
        (Some(out), Some(inp)) => Some(
            UsbEndpoints {
                output_endpoint: out,
                input_endpoint: inp,
                interface_number: interface.number,
            },
        ),
        _ => None,
    }
}

/// Chooses the endpoints of a printer: those of the first interface that has
/// a bulk endpoint in each direction, and of each direction the last that
/// the interface lists. A device without such an interface is refused.
pub fn select_endpoints(interfaces: &Vec<UsbInterface>) -> (r: Result<UsbEndpoints, DriverError>)
    ensures
        match r {
            Ok(found) => first_bulk_pair(interfaces@, 0) == Some(found),
            Err(DriverError::NotFound(message)) => first_bulk_pair(interfaces@, 0) is None
                && message@ == "No suitable USB endpoints found for device"@,
            Err(_) => false,
        },
{
    let mut i: usize = 0;
    while i < interfaces.len()
        invariant
            i <= interfaces@.len(),
            first_bulk_pair(interfaces@, 0) == first_bulk_pair(interfaces@, i as int),
        decreases interfaces@.len() - i,
    {
        match bulk_endpoints(&interfaces[i]) {
            Some(found) => {
                return Ok(found);
            },
            None => {},
        }
        i += 1;
    }
    Err(DriverError::NotFound("No suitable USB endpoints found for device".to_owned()))
}

} // verus!
