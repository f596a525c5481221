use thermal_printer::desktop::{
    get_interface_type, printer_info_from, spooler_status_word, status_word, system_printer,
    windows_printer_path, PowerShellPrinter,
};
use thermal_printer::drivers::usb::{
    device_not_found, find_device, select_endpoints, unknown_device_name, usb_name, UsbEndpoint,
    UsbEndpoints, UsbInterface,
};
use thermal_printer::drivers::{
    file_name, network_name, serial_name, system_name, timeout_or_default, ConsoleDriver,
    DriverError,
};
use thermal_printer::models::connection_config::{default_timeout, ConnectionConfig};
use thermal_printer::strings::{has_char, has_prefix, text_is, to_decimal, to_hex4};

fn endpoint(address: u8, bulk: bool, input: bool) -> UsbEndpoint {
    UsbEndpoint { address, bulk, input }
}

#[test]
fn driver_errors_are_described() {
    assert_eq!(DriverError::Io("broken pipe".to_string()).describe(), "IO error: broken pipe");
    assert_eq!(
        DriverError::Connection("refused".to_string()).describe(),
        "Connection error: refused"
    );
    assert_eq!(DriverError::Timeout("5 s".to_string()).describe(), "Timeout error: 5 s");
    assert_eq!(DriverError::NotFound("lp0".to_string()).describe(), "Not found: lp0");
}

#[test]
fn timeouts_default_to_five_seconds() {
    assert_eq!(timeout_or_default(None), 5);
    assert_eq!(timeout_or_default(Some(0)), 0);
    assert_eq!(timeout_or_default(Some(30)), 30);
    assert_eq!(default_timeout(), 5);
    let network =
        ConnectionConfig::Network { host: "10.0.0.9".to_string(), port: 9100, timeout_secs: 7 };
    assert_eq!(network.timeout_secs(), 7);
    let usb = ConnectionConfig::Usb { vendor_id: 1, product_id: 2, timeout_secs: 9 };
    assert_eq!(usb.timeout_secs(), 9);
    let serial =
        ConnectionConfig::Serial { port: "COM1".to_string(), baud_rate: 9600, timeout_secs: 1 };
    assert_eq!(serial.timeout_secs(), 1);
    assert_eq!(ConnectionConfig::File { path: "/dev/usb/lp0".to_string() }.timeout_secs(), 5);
    assert!(matches!(ConnectionConfig::default(), ConnectionConfig::Console { show_output: true }));
}

#[test]
fn driver_names() {
    assert_eq!(network_name("192.168.1.100", 9100), "network (192.168.1.100:9100)");
    assert_eq!(network_name("printer", 0), "network (printer:0)");
    assert_eq!(network_name("h", 65535), "network (h:65535)");
    assert_eq!(file_name("/dev/usb/lp0"), "file (/dev/usb/lp0)");
    assert_eq!(serial_name("COM3"), "serial port (COM3)");
    assert_eq!(system_name("POS-80"), "system (POS-80)");
    assert_eq!(usb_name(0x0525, 0xa700), "USB (VID: 0525, PID: a700)");
    assert_eq!(unknown_device_name(0, 0xffff), "Unknown (VID: 0000, PID: ffff)");
}

#[test]
fn numbers_in_text() {
    assert_eq!(to_decimal(0), "0");
    assert_eq!(to_decimal(7), "7");
    assert_eq!(to_decimal(10), "10");
    assert_eq!(to_decimal(9100), "9100");
    assert_eq!(to_decimal(u64::MAX), "18446744073709551615");
    assert_eq!(to_hex4(0), "0000");
    assert_eq!(to_hex4(0x0abc), "0abc");
    assert_eq!(to_hex4(0xffff), "ffff");
    assert_eq!(to_hex4(0x1234), "1234");
}

#[test]
fn text_helpers() {
    assert!(text_is("abc", "abc"));
    assert!(!text_is("abc", "abd"));
    assert!(!text_is("abc", "ab"));
    assert!(has_prefix("USB001", "USB"));
    assert!(has_prefix("USB", "USB"));
    assert!(has_prefix("x", ""));
    assert!(!has_prefix("US", "USB"));
    assert!(!has_prefix("usb001", "USB"));
    assert!(has_char("a:b", ':'));
    assert!(has_char(":", ':'));
    assert!(!has_char("ab", ':'));
    assert!(!has_char("", ':'));
}

#[test]
fn console_driver() {
    let shown = ConsoleDriver::new(true);
    assert_eq!(shown.name(), "console (debug)");
    assert_eq!(shown.echo(&[1, 2, 3]), vec![1, 2, 3]);
    assert_eq!(shown.read().unwrap(), 0);
    assert!(shown.flush().is_ok());
    let silent = ConsoleDriver::new(false);
    assert_eq!(silent.echo(&[1, 2, 3]), Vec::<u8>::new());
    assert_eq!(silent.read().unwrap(), 0);
}

#[test]
fn usb_device_is_found_by_its_numbers() {
    let devices = vec![(1, 2), (0x0525, 0xa700), (3, 4), (0x0525, 0xa700)];
    assert_eq!(find_device(&devices, 0x0525, 0xa700), Some(1));
    assert_eq!(find_device(&devices, 1, 2), Some(0));
    assert_eq!(find_device(&devices, 2, 1), None);
    assert_eq!(find_device(&Vec::new(), 1, 2), None);
    match device_not_found(0x04b8, 0x0e15) {
        DriverError::NotFound(message) => {
            assert_eq!(message, "USB device not found (VID: 04b8, PID: 0e15)")
        }
        _ => panic!("wrong kind of error"),
    }
}

#[test]
fn usb_endpoints_come_from_the_first_suitable_interface() {
    let interfaces = vec![
        UsbInterface { number: 0, endpoints: vec![endpoint(0x81, true, true)] },
        UsbInterface {
            number: 1,
            endpoints: vec![endpoint(0x02, true, false), endpoint(0x83, false, true)],
        },
        UsbInterface {
            number: 2,
            endpoints: vec![
                endpoint(0x84, true, true),
                endpoint(0x05, true, false),
                endpoint(0x86, true, true),
                endpoint(0x07, false, false),
            ],
        },
        UsbInterface {
            number: 3,
            endpoints: vec![endpoint(0x01, true, false), endpoint(0x82, true, true)],
        },
    ];
    assert_eq!(
        select_endpoints(&interfaces).unwrap(),
        UsbEndpoints { output_endpoint: 0x05, input_endpoint: 0x86, interface_number: 2 }
    );
}

#[test]
fn usb_device_without_bulk_pair_is_refused() {
    let interfaces = vec![
        UsbInterface { number: 0, endpoints: vec![endpoint(0x81, true, true)] },
        UsbInterface { number: 1, endpoints: Vec::new() },
    ];
    match select_endpoints(&interfaces) {
        Err(DriverError::NotFound(message)) => {
            assert_eq!(message, "No suitable USB endpoints found for device")
        }
        _ => panic!("a device without endpoints was accepted"),
    }
    assert!(select_endpoints(&Vec::new()).is_err());
}

#[test]
fn interface_types() {
    assert_eq!(get_interface_type("IP_192.168.1.5"), "Network");
    assert_eq!(get_interface_type("WSD-1234"), "Network");
    assert_eq!(get_interface_type("10.0.0.1:9100"), "Network");
    assert_eq!(get_interface_type("USB001"), "USB");
    assert_eq!(get_interface_type("LPT1"), "Parallel");
    assert_eq!(get_interface_type("COM3"), "Serial");
    assert_eq!(get_interface_type("FILE:"), "Network");
    assert_eq!(get_interface_type("LPT1:"), "Network");
    assert_eq!(get_interface_type("nul"), "Other");
    assert_eq!(get_interface_type(""), "Other");
    assert_eq!(get_interface_type("usb001"), "Other");
}

#[test]
fn printer_status_words() {
    let words = ["Other", "Unknown", "Idle", "Printing", "Warmup", "Stopped", "Offline", "Unknown"];
    for (status, word) in words.iter().enumerate() {
        assert_eq!(status_word(status as u32), *word);
    }
    assert_eq!(status_word(4_000_000_000), "Unknown");
}

#[test]
fn shell_printers_become_printer_info() {
    let info = printer_info_from(PowerShellPrinter {
        name: "POS-80".to_string(),
        port_name: "USB001".to_string(),
        printer_status: 3,
        interface_type: None,
    });
    assert_eq!(info.name, "POS-80");
    assert_eq!(info.interface_type, "USB");
    assert_eq!(info.identifier, "USB001");
    assert_eq!(info.status, "Printing");
    let info = printer_info_from(PowerShellPrinter {
        name: "Kitchen".to_string(),
        port_name: "COM1".to_string(),
        printer_status: 2,
        interface_type: Some("Bluetooth".to_string()),
    });
    assert_eq!(info.interface_type, "Bluetooth");
    assert_eq!(info.status, "Idle");
}

#[test]
fn spooled_printers_and_paths() {
    let printer = system_printer("POS-58");
    assert_eq!(printer.name, "POS-58");
    assert!(!printer.is_default);
    assert!(printer.location.is_none());
    assert_eq!(windows_printer_path("POS-80"), "\\\\.\\POS-80");
    assert_eq!(windows_printer_path("\\\\server\\POS"), "\\\\server\\POS");
    assert_eq!(windows_printer_path(""), "\\\\.\\");
}

#[test]
fn spooler_states() {
    let words = [
        (0x0000_0000, "Idle"),
        (0x0000_0001, "Paused"),
        (0x0000_0002, "Error"),
        (0x0000_0004, "Pending Deletion"),
        (0x0000_0008, "Paper Jam"),
        (0x0000_0010, "Paper Out"),
        (0x0000_0020, "Manual Feed"),
        (0x0000_0040, "Paper Problem"),
        (0x0000_0080, "Offline"),
        (0x0000_0100, "IO Active"),
        (0x0000_0200, "Printing"),
        (0x0000_0400, "Printing"),
        (0x0000_0800, "Output Bin Full"),
        (0x0000_1000, "Not Available"),
        (0x0000_2000, "Waiting"),
        (0x0000_4000, "Processing"),
        (0x0000_8000, "Initializing"),
        (0x0001_0000, "Warming Up"),
        (0x0002_0000, "Toner Low"),
        (0x0004_0000, "No Toner"),
        (0x0008_0000, "Page Punt"),
        (0x0010_0000, "User Intervention"),
        (0x0020_0000, "Out of Memory"),
        (0x0040_0000, "Offline"),
        (0x0080_0000, "Server Unknown"),
        (0x0100_0000, "Unknown"),
        (0x0000_0003, "Unknown"),
        (0xFFFF_FFFF, "Unknown"),
    ];
    for (status, word) in words {
        assert_eq!(spooler_status_word(status), word);
    }
}
