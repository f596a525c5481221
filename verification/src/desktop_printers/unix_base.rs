//! The printers that the print spool of a Unix system lists.

use vstd::prelude::*;
use vstd::string::*;
use crate::models::print_job_request::PrinterInfo;
use crate::strings::{
    find, found_from, from_chars, lines_of, matches_at, occurs_at, split_in_two,
    split_lines, texts, to_chars, two_parts,
};

verus! {

/// A device of the spool: the printer it belongs to, the kind of its
/// interface, and where it is.
pub struct Device {
    pub name: Seq<char>,
    pub interface_type: Seq<char>,
    pub identifier: Seq<char>,
}

/// A printer as the listing tells of it.
pub struct Listed {
    pub name: Seq<char>,
    pub interface_type: Seq<char>,
    pub identifier: Seq<char>,
    pub status: Seq<char>,
}

/// What has been read of a listing: the devices, and the printers whose
/// device was known when their line came.
pub struct Listing {
    pub devices: Seq<Device>,
    pub printers: Seq<Listed>,
}

/// The device that a line tells of. Such a line reads "device for", the name
/// of the printer, a colon and a space, the kind of the interface, a colon,
/// and the place of the device; it holds the colon and space once, and
/// after them one colon.
pub open spec fn device_of(line: Seq<char>) -> Option<Device> {
    let prefix = "device for "@;
    if !occurs_at(line, prefix, 0) {
        None
    } else {
        match two_parts(line, ": "@) {
            Some((head, device)) if head.len() >= prefix.len() => match two_parts(device, ":"@) {
                Some((kind, place)) => Some(
                    Device {
                        name: head.skip(prefix.len() as int),
                        interface_type: kind,
                        identifier: place,
                    },
                ),
                None => None,
            },
            _ => None,
        }
    }
}

/// The state of a printer that the end of its line tells of.
pub open spec fn status_of(text: Seq<char>) -> Seq<char> {
    if found_from(text, "idle"@, 0) {
        "idle"@
    } else if found_from(text, "printing"@, 0) {
        "printing"@
    } else {
        "unknown"@
    }
}

/// The name and the state of the printer that a line tells of. Such a line
/// reads "printer", the name, " is " once, and the state.
pub open spec fn printer_of(line: Seq<char>) -> Option<(Seq<char>, Seq<char>)> {
    let prefix = "printer "@;
    if !occurs_at(line, prefix, 0) {
        None
    } else {
        match two_parts(line, " is "@) {
            Some((head, state)) if head.len() >= prefix.len() => Some(
                (head.skip(prefix.len() as int), status_of(state)),
            ),
            _ => None,
        }
    }
}

/// The last of the first `n` devices that belongs to the printer `name`.
pub open spec fn device_for(devices: Seq<Device>, name: Seq<char>, n: int) -> Option<Device>
    decreases n,
{
    if n <= 0 {
        None
    } else if devices[n - 1].name == name {
        Some(devices[n - 1])
    } else {
        device_for(devices, name, n - 1)
    }
}

/// Takes one more line into a listing. A device line adds a device. A
/// printer line adds a printer where a device of its name is known, with
/// what the last such device tells. Every other line changes nothing.
pub open spec fn read_line(listing: Listing, line: Seq<char>) -> Listing {
    if occurs_at(line, "device for "@, 0) {
        match device_of(line) {
            Some(device) => Listing { devices: listing.devices.push(device), ..listing },
            None => listing,
        }
    } else {
        match printer_of(line) {
            Some((name, status)) => match device_for(
                listing.devices,
                name,
                listing.devices.len() as int,
            ) {
                Some(device) => Listing {
                    printers: listing.printers.push(
                        Listed {
                            name,
                            interface_type: device.interface_type,
                            identifier: device.identifier,
                            status,
                        },
                    ),
                    ..listing
                },
                None => listing,
            },
            None => listing,
        }
    }
}

/// The listing after the first `n` lines.
pub open spec fn read_lines(lines: Seq<Seq<char>>, n: nat) -> Listing
    decreases n,
{
    if n == 0 {
        Listing { devices: Seq::empty(), printers: Seq::empty() }
    } else {
        read_line(read_lines(lines, (n - 1) as nat), lines[n - 1])
    }
}

/// A printer as a value.
pub open spec fn listed(info: PrinterInfo) -> Listed {
    Listed {
        name: info.name@,
        interface_type: info.interface_type@,
        identifier: info.identifier@,
        status: info.status@,
    }
}

/// Printers as values.
pub open spec fn all_listed(printers: Seq<PrinterInfo>) -> Seq<Listed> {
    Seq::new(printers.len(), |i: int| listed(printers[i]))
}

/// A device as strings.
struct DeviceEntry {
    name: String,
    interface_type: String,
    identifier: String,
}

spec fn entry(device: DeviceEntry) -> Device {
    Device {
        name: device.name@,
        interface_type: device.interface_type@,
        identifier: device.identifier@,
    }
}

spec fn entries(devices: Seq<DeviceEntry>) -> Seq<Device> {
    Seq::new(devices.len(), |i: int| entry(devices[i]))
}

fn parse_device(line: &Vec<char>) -> (r: Option<DeviceEntry>)
    requires
        occurs_at(line@, "device for "@, 0),
    ensures
        match r {
            Some(device) => device_of(line@) == Some(entry(device)),
            None => device_of(line@) is None,
        },
{
    let prefix: Vec<char> = to_chars("device for ");
    let first: usize = match split_in_two(line, &to_chars(": ")) {
        Some(first) => first,
        None => {
            return None;
        },
    };
    if first < prefix.len() {
        return None;
    }
    let separator: usize = to_chars(": ").len();
    let end: usize = line.len();
    let device: Vec<char> = to_chars(from_chars(line, first + separator, end).as_str());
    assert(device@ =~= line@.skip(first + separator));
    let colon: usize = match split_in_two(&device, &to_chars(":")) {
        Some(colon) => colon,
        None => {
            return None;
        },
    };
    let name: String = from_chars(line, prefix.len(), first);
    let interface_type: String = from_chars(&device, 0, colon);
    let identifier: String = from_chars(&device, colon + to_chars(":").len(), device.len());
    proof {
        assert(name@ =~= line@.take(first as int).skip(prefix@.len() as int));
        assert(interface_type@ =~= device@.take(colon as int));
        assert(identifier@ =~= device@.skip(colon + ":"@.len()));
    }
    Some(DeviceEntry { name, interface_type, identifier })
}

fn holds(text: &Vec<char>, pattern: &str) -> (r: bool)
    ensures
        r == found_from(text@, pattern@, 0),
{
    let wanted: Vec<char> = to_chars(pattern);
    let place: usize = find(text, &wanted, 0);
    wanted.len() <= text.len() && place <= text.len() - wanted.len()
}

fn parse_printer(line: &Vec<char>) -> (r: Option<(String, String)>)
    requires
        occurs_at(line@, "printer "@, 0),
    ensures
        match r {
            Some(found) => printer_of(line@) == Some((found.0@, found.1@)),
            None => printer_of(line@) is None,
        },
{
    let prefix: Vec<char> = to_chars("printer ");
    let separator: Vec<char> = to_chars(" is ");
    let first: usize = match split_in_two(line, &separator) {
        Some(first) => first,
        None => {
            return None;
        },
    };
    if first < prefix.len() {
        return None;
    }
    let end: usize = line.len();
    let state: Vec<char> = to_chars(from_chars(line, first + separator.len(), end).as_str());
    assert(state@ =~= line@.skip(first + separator@.len()));
    let status: String = if holds(&state, "idle") {
        "idle".to_owned()
    } else if holds(&state, "printing") {
        "printing".to_owned()
    } else {
        "unknown".to_owned()
    };
    let name: String = from_chars(line, prefix.len(), first);
    assert(name@ =~= line@.take(first as int).skip(prefix@.len() as int));
    Some((name, status))
}

fn find_device_for(devices: &Vec<DeviceEntry>, name: &str) -> (r: Option<usize>)
    ensures
        match r {
            Some(place) => place < devices@.len() && device_for(
                entries(devices@),
                name@,
                devices@.len() as int,
            ) == Some(entry(devices@[place as int])),
            None => device_for(entries(devices@), name@, devices@.len() as int) is None,
        },
{
    let mut n: usize = devices.len();
    while n > 0
        invariant
            n <= devices@.len(),
            device_for(entries(devices@), name@, devices@.len() as int) == device_for(
                entries(devices@),
                name@,
                n as int,
            ),
        decreases n,
    {
        assert(entries(devices@)[n - 1] == entry(devices@[n - 1]));
        if crate::strings::text_is(devices[n - 1].name.as_str(), name) {
            return Some(n - 1);
        }
        n -= 1;
    }
    None
}

/// The printers that the lines of a spool listing tell of: each printer
/// whose state line follows a line for its device, in the order of the
/// state lines.
pub fn parse_printer_lines(lines: &Vec<String>) -> (r: Vec<PrinterInfo>)
    ensures
        all_listed(r@) == read_lines(texts(lines@), lines@.len()).printers,
{
    let mut printers: Vec<PrinterInfo> = Vec::new();
    let mut devices: Vec<DeviceEntry> = Vec::new();
    let mut i: usize = 0;
    assert(all_listed(printers@) =~= Seq::<Listed>::empty());
    assert(entries(devices@) =~= Seq::<Device>::empty());
    while i < lines.len()
        invariant
            i <= lines@.len(),
            read_lines(texts(lines@), i as nat) == (Listing {
                devices: entries(devices@),
                printers: all_listed(printers@),
            }),
        decreases lines@.len() - i,
    {
        let line: Vec<char> = to_chars(lines[i].as_str());
        assert(texts(lines@)[i as int] == line@);
        let ghost before = read_lines(texts(lines@), i as nat);
        if matches_at(&line, &to_chars("device for "), 0) {
            match parse_device(&line) {
                Some(device) => {
                    let ghost old_devices = devices@;
                    devices.push(device);
                    assert(entries(devices@) =~= entries(old_devices).push(entry(device)));
                },
                None => {},
            }
        } else if matches_at(&line, &to_chars("printer "), 0) {
            match parse_printer(&line) {
                Some(found) => {
                    match find_device_for(&devices, found.0.as_str()) {
                        Some(place) => {
                            let ghost old_printers = printers@;
                            let info: PrinterInfo = PrinterInfo {
                                name: found.0,
                                interface_type: devices[place].interface_type.clone(),
                                identifier: devices[place].identifier.clone(),
                                status: found.1,
                            };
                            printers.push(info);
                            assert(all_listed(printers@) =~= all_listed(old_printers).push(
                                listed(info),
                            ));
                        },
                        None => {},
                    }
                },
                None => {},
            }
        }
        i += 1;
    }
    printers
}

/// The printers that a spool listing tells of.
pub fn parse_printers_info(listing: &str) -> (r: Vec<PrinterInfo>)
    ensures
        all_listed(r@) == read_lines(lines_of(listing@), lines_of(listing@).len()).printers,
{
    let lines: Vec<String> = split_lines(listing);
    parse_printer_lines(&lines)
}

} // verus!
