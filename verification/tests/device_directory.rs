use scandoc::device::enumerate;
use scandoc::device::field_from_raw;
use scandoc::device::status_is_good;
use scandoc::device::Device;
use scandoc::device::RawDescriptor;
use scandoc::error::ScanError;
use scandoc::error::STATUS_GOOD;

fn descriptor(name: &str, vendor: &str, model: &str, type_: &str) -> RawDescriptor {
    RawDescriptor {
        name: Some(name.as_bytes().to_vec()),
        vendor: Some(vendor.as_bytes().to_vec()),
        model: Some(model.as_bytes().to_vec()),
        type_: Some(type_.as_bytes().to_vec()),
    }
}

#[test]
fn zero_devices_is_success() {
    let r = enumerate(STATUS_GOOD, Vec::new());
    assert_eq!(r, Ok(Vec::new()));
}

#[test]
fn terminator_alone_is_success_with_no_devices() {
    let r = enumerate(STATUS_GOOD, vec![None]);
    assert_eq!(r, Ok(Vec::new()));
}

#[test]
fn one_device_before_terminator() {
    let entries = vec![Some(descriptor("net:0", "Acme", "ScanJet", "flatbed")), None];
    let devices = enumerate(STATUS_GOOD, entries).unwrap();
    assert_eq!(devices.len(), 1);
    assert_eq!(devices[0].name, b"net:0".to_vec());
    assert_eq!(devices[0].vendor, b"Acme".to_vec());
    assert_eq!(devices[0].model, b"ScanJet".to_vec());
    assert_eq!(devices[0].type_, b"flatbed".to_vec());
}

#[test]
fn count_stops_at_first_terminator() {
    let entries = vec![
        Some(descriptor("a", "v1", "m1", "t1")),
        Some(descriptor("b", "v2", "m2", "t2")),
        None,
        Some(descriptor("past-the-end", "v3", "m3", "t3")),
    ];
    let devices = enumerate(STATUS_GOOD, entries).unwrap();
    assert_eq!(devices.len(), 2);
    assert_eq!(devices[0].name, b"a".to_vec());
    assert_eq!(devices[1].name, b"b".to_vec());
}

#[test]
fn order_and_duplicates_are_kept() {
    let entries = vec![
        Some(descriptor("same", "v", "m", "t")),
        Some(descriptor("same", "v", "m", "t")),
        None,
    ];
    let devices = enumerate(STATUS_GOOD, entries).unwrap();
    assert_eq!(devices.len(), 2);
    assert_eq!(devices[0], devices[1]);
}

#[test]
fn null_fields_become_empty_strings() {
    let raw = RawDescriptor { name: None, vendor: None, model: None, type_: None };
    let devices = enumerate(STATUS_GOOD, vec![Some(raw), None]).unwrap();
    let expected = Device {
        name: Vec::new(),
        vendor: Vec::new(),
        model: Vec::new(),
        type_: Vec::new(),
    };
    assert_eq!(devices, vec![expected]);
}

#[test]
fn mixed_null_and_present_fields() {
    let raw = RawDescriptor {
        name: Some(b"usb:1".to_vec()),
        vendor: None,
        model: Some(b"X100".to_vec()),
        type_: None,
    };
    let devices = enumerate(STATUS_GOOD, vec![Some(raw), None]).unwrap();
    assert_eq!(devices[0].name, b"usb:1".to_vec());
    assert_eq!(devices[0].vendor, Vec::<u8>::new());
    assert_eq!(devices[0].model, b"X100".to_vec());
    assert_eq!(devices[0].type_, Vec::<u8>::new());
}

#[test]
fn non_success_status_carries_its_code() {
    let entries = vec![Some(descriptor("a", "v", "m", "t")), None];
    let r = enumerate(9, entries);
    assert_eq!(r, Err(ScanError::NativeStatus { code: 9 }));
}

#[test]
fn field_from_raw_copies_bytes() {
    assert_eq!(field_from_raw(Some(b"hello".to_vec())), b"hello".to_vec());
    assert_eq!(field_from_raw(None), Vec::<u8>::new());
}

#[test]
fn status_is_good_only_on_the_success_code() {
    assert!(status_is_good(STATUS_GOOD));
    assert!(!status_is_good(1));
    assert!(!status_is_good(11));
}
