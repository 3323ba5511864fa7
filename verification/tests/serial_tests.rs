use kinect::serial::decode_serial;
use kinect::session::K4ADevice;

#[test]
fn decode_serial_reads_up_to_nul() {
    let raw: Vec<u8> = b"000123491212\0junk".to_vec();
    let serial = decode_serial(&raw);
    assert_eq!(serial.as_deref(), Some("000123491212"));
}

#[test]
fn decode_serial_without_nul_takes_everything() {
    let raw: Vec<u8> = b"AB12".to_vec();
    assert_eq!(decode_serial(&raw).as_deref(), Some("AB12"));
}

#[test]
fn decode_serial_empty_buffer() {
    let raw: Vec<u8> = Vec::new();
    assert_eq!(decode_serial(&raw).as_deref(), Some(""));
}

#[test]
fn decode_serial_rejects_non_ascii() {
    let raw: Vec<u8> = vec![0x30, 0xC3, 0x28, 0x00];
    assert_eq!(decode_serial(&raw), None);
}

#[test]
fn get_serial_number() {
    println!("Starting get_serial_number test");
    let mut k4a = K4ADevice::try_open(0, 1, Some(7)).expect("ERROR: Couldn't open Kinect device.");
    let raw: Vec<u8> = b"000123491212\0".to_vec();
    assert_ne!(k4a.get_serial_number(&raw), "ERROR UNWRAPPING SERIAL NUMBER");
    assert!(k4a.get_serial_number(&raw).is_ascii());
    println!("Finished get serial number.");
}

#[test]
fn serial_is_cached_write_once() {
    let mut dev = K4ADevice::try_open(0, 1, Some(7)).expect("open event was a success");
    assert!(!dev.serial_cached());
    let first = dev.get_serial_number(&b"4242\0".to_vec());
    assert!(dev.serial_cached());
    // A later call returns the cached serial without consulting its buffer.
    let second = dev.get_serial_number(&b"9999\0".to_vec());
    assert_eq!(first, "4242");
    assert_eq!(second, "4242");
}

#[test]
fn serial_decode_failure_degrades_to_sentinel() {
    let mut dev = K4ADevice::try_open(0, 1, Some(7)).expect("open event was a success");
    let raw: Vec<u8> = vec![0xFF, 0xFE, 0x00];
    let serial = dev.get_serial_number(&raw);
    assert_eq!(serial, "ERROR UNWRAPPING SERIAL NUMBER");
    // The sentinel is cached like any resolved serial.
    assert!(dev.serial_cached());
    assert_eq!(dev.get_serial_number(&b"4242\0".to_vec()), "ERROR UNWRAPPING SERIAL NUMBER");
}
