use disk_health::codes::{BusKind, DeviceKind, HealthState};
use disk_health::descriptor::{
    interpret_adapter, interpret_device, interpret_device_id, interpret_element_status,
    DecodeError, ADAPTER_DESCRIPTOR_HEADER_LEN, DEVICE_DESCRIPTOR_HEADER_LEN,
    DEVICE_ID_DESCRIPTOR_HEADER_LEN, ELEMENT_STATUS_DESCRIPTOR_HEADER_LEN,
};
use disk_health::text::extract_string;

fn put_u32_le(buf: &mut [u8], off: usize, x: u32) {
    buf[off] = (x & 0xFF) as u8;
    buf[off + 1] = ((x >> 8) & 0xFF) as u8;
    buf[off + 2] = ((x >> 16) & 0xFF) as u8;
    buf[off + 3] = ((x >> 24) & 0xFF) as u8;
}

fn put_u16_le(buf: &mut [u8], off: usize, x: u16) {
    buf[off] = (x & 0xFF) as u8;
    buf[off + 1] = ((x >> 8) & 0xFF) as u8;
}

/// A device-descriptor buffer with the given codes and string offsets,
/// padded to `total` bytes.
fn device_buffer(
    total: usize,
    device_type: u8,
    bus_type: u32,
    removable: u8,
    queueing: u8,
    vendor_off: u32,
    product_off: u32,
    revision_off: u32,
    serial_off: u32,
) -> Vec<u8> {
    let mut buf = vec![0u8; total];
    buf[8] = device_type;
    buf[10] = removable;
    buf[11] = queueing;
    put_u32_le(&mut buf, 12, vendor_off);
    put_u32_le(&mut buf, 16, product_off);
    put_u32_le(&mut buf, 20, revision_off);
    put_u32_le(&mut buf, 24, serial_off);
    put_u32_le(&mut buf, 28, bus_type);
    buf
}

#[test]
fn extract_string_offset_far_beyond_end() {
    let buf = [1u8, 2, 3];
    assert_eq!(extract_string(&buf, 1_000_000), "");
}

#[test]
fn extract_string_offset_at_end() {
    let buf = [65u8, 66, 67];
    assert_eq!(extract_string(&buf, buf.len()), "");
}

#[test]
fn extract_string_empty_buffer() {
    let buf: [u8; 0] = [];
    assert_eq!(extract_string(&buf, 0), "");
}

#[test]
fn extract_string_without_terminator_runs_to_end() {
    let buf = *b"ABCDEF";
    assert_eq!(extract_string(&buf, 2), "CDEF");
}

#[test]
fn extract_string_stops_at_zero_byte() {
    let buf = *b"XX\0YY";
    assert_eq!(extract_string(&buf, 0), "XX");
}

#[test]
fn extract_string_trims_whitespace() {
    let buf = *b"  padded value \0rest";
    assert_eq!(extract_string(&buf, 0), "padded value");
}

#[test]
fn extract_string_replaces_invalid_utf8() {
    let buf = [0xFFu8, 0xFE, 0x41];
    let s = extract_string(&buf, 0);
    assert_eq!(s, "\u{FFFD}\u{FFFD}A");
}

#[test]
fn device_truncated_buffers_rejected() {
    for len in 0..DEVICE_DESCRIPTOR_HEADER_LEN {
        let buf = vec![0u8; len];
        assert_eq!(interpret_device(&buf), Err(DecodeError::Truncated));
    }
}

#[test]
fn adapter_truncated_buffers_rejected() {
    for len in 0..ADAPTER_DESCRIPTOR_HEADER_LEN {
        let buf = vec![0u8; len];
        assert_eq!(interpret_adapter(&buf), Err(DecodeError::Truncated));
    }
}

#[test]
fn device_id_truncated_buffers_rejected() {
    for len in 0..DEVICE_ID_DESCRIPTOR_HEADER_LEN {
        let buf = vec![0u8; len];
        assert_eq!(interpret_device_id(&buf), Err(DecodeError::Truncated));
    }
}

#[test]
fn element_status_truncated_buffers_rejected() {
    for len in 0..ELEMENT_STATUS_DESCRIPTOR_HEADER_LEN {
        let buf = vec![0u8; len];
        assert_eq!(interpret_element_status(&buf), Err(DecodeError::Truncated));
    }
}

#[test]
fn bus_type_codes_decode_to_named_buses() {
    let codes: [(u32, BusKind); 4] = [
        (17, BusKind::Nvme),
        (11, BusKind::Sata),
        (7, BusKind::Usb),
        (1, BusKind::Scsi),
    ];
    for (code, expected) in codes {
        let buf = device_buffer(DEVICE_DESCRIPTOR_HEADER_LEN, 0, code, 0, 0, 0, 0, 0, 0);
        let report = interpret_device(&buf).unwrap();
        assert_eq!(report.bus, expected);
    }
}

#[test]
fn unmatched_bus_code_is_kept_verbatim() {
    for code in [0u32, 2, 12, 16, 18, 255, 0xDEAD_BEEF] {
        let buf = device_buffer(DEVICE_DESCRIPTOR_HEADER_LEN, 0, code, 0, 0, 0, 0, 0, 0);
        let report = interpret_device(&buf).unwrap();
        assert_eq!(report.bus, BusKind::Unknown(code));
    }
}

#[test]
fn device_type_codes_decode() {
    let codes: [(u8, DeviceKind); 4] = [
        (0, DeviceKind::DirectAccess),
        (1, DeviceKind::SequentialAccess),
        (5, DeviceKind::CdRom),
        (42, DeviceKind::Unknown(42)),
    ];
    for (code, expected) in codes {
        let buf = device_buffer(DEVICE_DESCRIPTOR_HEADER_LEN, code, 17, 0, 0, 0, 0, 0, 0);
        let report = interpret_device(&buf).unwrap();
        assert_eq!(report.kind, expected);
    }
}

#[test]
fn health_codes_decode() {
    let codes: [(u8, HealthState); 4] = [
        (0, HealthState::Healthy),
        (1, HealthState::Warning),
        (2, HealthState::Critical),
        (9, HealthState::Unknown(9)),
    ];
    for (code, expected) in codes {
        let mut buf = vec![0u8; ELEMENT_STATUS_DESCRIPTOR_HEADER_LEN];
        buf[13] = code;
        let report = interpret_element_status(&buf).unwrap();
        assert_eq!(report.health, expected);
    }
}

#[test]
fn zero_vendor_offset_yields_no_vendor_field() {
    let buf = device_buffer(64, 0, 17, 0, 0, 0, 0, 0, 0);
    let report = interpret_device(&buf).unwrap();
    assert_eq!(report.vendor, None);
}

#[test]
fn out_of_range_vendor_offset_yields_no_vendor_field() {
    let total: usize = 64;
    let buf = device_buffer(total, 0, 17, 0, 0, total as u32, 0, 0, 0);
    let report = interpret_device(&buf).unwrap();
    assert_eq!(report.vendor, None);
    let buf = device_buffer(total, 0, 17, 0, 0, 10_000, 0, 0, 0);
    let report = interpret_device(&buf).unwrap();
    assert_eq!(report.vendor, None);
}

#[test]
fn vendor_field_terminates_at_zero_byte() {
    let mut buf = device_buffer(64, 0, 17, 0, 0, 40, 0, 0, 0);
    buf[40..53].copy_from_slice(b"Samsung\0extra");
    let report = interpret_device(&buf).unwrap();
    assert_eq!(report.vendor.as_deref(), Some("Samsung"));
}

#[test]
fn full_device_descriptor_decodes() {
    let mut buf = device_buffer(80, 0, 17, 1, 1, 40, 48, 56, 64);
    buf[40..47].copy_from_slice(b"ACME \0x");
    buf[48..54].copy_from_slice(b"Disk1\0");
    buf[56..60].copy_from_slice(b"1.0\0");
    buf[64..70].copy_from_slice(b" SN9 \0");
    let report = interpret_device(&buf).unwrap();
    assert_eq!(report.kind, DeviceKind::DirectAccess);
    assert_eq!(report.bus, BusKind::Nvme);
    assert!(report.removable);
    assert!(report.command_queueing);
    assert_eq!(report.vendor.as_deref(), Some("ACME"));
    assert_eq!(report.product.as_deref(), Some("Disk1"));
    assert_eq!(report.revision.as_deref(), Some("1.0"));
    assert_eq!(report.serial.as_deref(), Some("SN9"));
}

#[test]
fn adapter_descriptor_decodes_verbatim() {
    let mut buf = vec![0u8; ADAPTER_DESCRIPTOR_HEADER_LEN];
    put_u32_le(&mut buf, 0, 1);
    put_u32_le(&mut buf, 4, 32);
    put_u32_le(&mut buf, 8, 0x0002_0000);
    put_u32_le(&mut buf, 12, 33);
    put_u32_le(&mut buf, 16, 0x0000_0FFF);
    buf[21] = 1;
    buf[22] = 1;
    buf[23] = 0;
    buf[24] = 17;
    put_u16_le(&mut buf, 26, 2);
    put_u16_le(&mut buf, 28, 1);
    buf[30] = 1;
    buf[31] = 0;
    let report = interpret_adapter(&buf).unwrap();
    assert_eq!(report.version, 1);
    assert_eq!(report.descriptor_size, 32);
    assert_eq!(report.maximum_transfer_length, 0x0002_0000);
    assert_eq!(report.maximum_physical_pages, 33);
    assert_eq!(report.alignment_mask, 0x0000_0FFF);
    assert!(report.adapter_scans_down);
    assert!(report.command_queueing);
    assert!(!report.accelerated_transfer);
    assert_eq!(report.bus_type, 17);
    assert_eq!(report.bus_major_version, 2);
    assert_eq!(report.bus_minor_version, 1);
    assert_eq!(report.srb_type, 1);
    assert_eq!(report.address_type, 0);
}

#[test]
fn device_id_count_decodes() {
    let mut buf = vec![0u8; DEVICE_ID_DESCRIPTOR_HEADER_LEN + 20];
    put_u32_le(&mut buf, 8, 5);
    let report = interpret_device_id(&buf).unwrap();
    assert_eq!(report.number_of_identifiers, 5);
}

#[test]
fn element_status_decodes() {
    let mut buf = vec![0u8; ELEMENT_STATUS_DESCRIPTOR_HEADER_LEN];
    put_u32_le(&mut buf, 0, 16);
    put_u32_le(&mut buf, 4, 16);
    put_u32_le(&mut buf, 8, 7);
    buf[13] = 2;
    let report = interpret_element_status(&buf).unwrap();
    assert_eq!(report.version, 16);
    assert_eq!(report.size, 16);
    assert_eq!(report.element_identifier, 7);
    assert_eq!(report.health, HealthState::Critical);
}
