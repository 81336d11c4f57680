//! Interpreters for the four descriptor kinds.
//!
//! Each interpreter overlays a raw response buffer onto the fixed
//! header layout of its property kind: it first checks that the buffer
//! covers the whole fixed header, then reads every field at its fixed
//! byte offset.  A buffer too short for the header is rejected as
//! truncated before any field is read; embedded string offsets are
//! dereferenced only when they point strictly inside the buffer.

use vstd::prelude::*;

use crate::codes::{
    decode_bus_kind,
    decode_device_kind,
    decode_health_state,
    bus_kind_of,
    device_kind_of,
    health_state_of,
    BusKind,
    DeviceKind,
    HealthState,
};
use crate::fields::{le16, le32, read_u16_le, read_u32_le, read_u8};
use crate::text::{extract_string, extracted_text};

verus! {

/// Bytes of the fixed device-descriptor header: version and size
/// fields, type and flag bytes, four string offsets, bus type and the
/// raw-properties length, each at its fixed offset.
pub const DEVICE_DESCRIPTOR_HEADER_LEN: usize = 36;

/// Bytes of the fixed adapter-descriptor header, trailing padding
/// byte included.
pub const ADAPTER_DESCRIPTOR_HEADER_LEN: usize = 32;

/// Bytes of the fixed device-identifier-descriptor header: version,
/// size and the identifier count.
pub const DEVICE_ID_DESCRIPTOR_HEADER_LEN: usize = 12;

/// Bytes of the fixed element-status-descriptor header: version, size,
/// element identifier, element type and health bytes, and two reserved
/// bytes.
pub const ELEMENT_STATUS_DESCRIPTOR_HEADER_LEN: usize = 16;

/// Failure of a descriptor interpreter.
#[derive(Clone, Copy, PartialEq, Eq, Structural, Debug)]
pub enum DecodeError {
    /// The response is shorter than the fixed header of its kind.
    Truncated,
}

/// Decoded device descriptor: the fixed header fields and the four
/// optional text fields its embedded offsets point at.
#[derive(Clone, PartialEq, Eq, Debug)]
pub struct DeviceReport {
    pub kind: DeviceKind,
    pub bus: BusKind,
    pub removable: bool,
    pub command_queueing: bool,
    pub vendor: Option<String>,
    pub product: Option<String>,
    pub revision: Option<String>,
    pub serial: Option<String>,
}

/// Decoded adapter descriptor: fixed-offset scalars only, reported
/// verbatim.
#[derive(Clone, Copy, PartialEq, Eq, Structural, Debug)]
pub struct AdapterReport {
    pub version: u32,
    pub descriptor_size: u32,
    pub maximum_transfer_length: u32,
    pub maximum_physical_pages: u32,
    pub alignment_mask: u32,
    pub adapter_scans_down: bool,
    pub command_queueing: bool,
    pub accelerated_transfer: bool,
    pub bus_type: u8,
    pub bus_major_version: u16,
    pub bus_minor_version: u16,
    pub srb_type: u8,
    pub address_type: u8,
}

/// Decoded device-identifier descriptor: the identifier count alone;
/// the identifier list itself is left unparsed.
#[derive(Clone, Copy, PartialEq, Eq, Structural, Debug)]
pub struct DeviceIdReport {
    pub number_of_identifiers: u32,
}

/// Decoded physical-element-status descriptor.
#[derive(Clone, Copy, PartialEq, Eq, Structural, Debug)]
pub struct ElementStatusReport {
    pub version: u32,
    pub size: u32,
    pub element_identifier: u32,
    pub health: HealthState,
}

/// An optional text field is present exactly when its offset points
/// strictly inside the buffer, and then holds the extracted text; an
/// offset of zero or one at or past the end means the field is absent.
pub open spec fn string_field_ok(b: Seq<u8>, off: nat, field: Option<String>) -> bool {
    if 0 < off < b.len() {
        field matches Some(s) && s@ == extracted_text(b, off as int)
    } else {
        field is None
    }
}

/// Every field of `r` is the one the device-descriptor layout gives
/// for the buffer `b`.
pub open spec fn device_report_ok(b: Seq<u8>, r: DeviceReport) -> bool {
    &&& r.kind == device_kind_of(b[8])
    &&& r.bus == bus_kind_of(le32(b, 28) as u32)
    &&& r.removable == (b[10] != 0)
    &&& r.command_queueing == (b[11] != 0)
    &&& string_field_ok(b, le32(b, 12), r.vendor)
    &&& string_field_ok(b, le32(b, 16), r.product)
    &&& string_field_ok(b, le32(b, 20), r.revision)
    &&& string_field_ok(b, le32(b, 24), r.serial)
}

/// Every field of `r` is the one the adapter-descriptor layout gives
/// for the buffer `b`.
pub open spec fn adapter_report_ok(b: Seq<u8>, r: AdapterReport) -> bool {
    &&& r.version == le32(b, 0)
    &&& r.descriptor_size == le32(b, 4)
    &&& r.maximum_transfer_length == le32(b, 8)
    &&& r.maximum_physical_pages == le32(b, 12)
    &&& r.alignment_mask == le32(b, 16)
    &&& r.adapter_scans_down == (b[21] != 0)
    &&& r.command_queueing == (b[22] != 0)
    &&& r.accelerated_transfer == (b[23] != 0)
    &&& r.bus_type == b[24]
    &&& r.bus_major_version == le16(b, 26)
    &&& r.bus_minor_version == le16(b, 28)
    &&& r.srb_type == b[30]
    &&& r.address_type == b[31]
}

/// Every field of `r` is the one the device-identifier-descriptor
/// layout gives for the buffer `b`.
pub open spec fn device_id_report_ok(b: Seq<u8>, r: DeviceIdReport) -> bool {
    r.number_of_identifiers == le32(b, 8)
}

/// Every field of `r` is the one the element-status-descriptor layout
/// gives for the buffer `b`.
pub open spec fn element_status_report_ok(b: Seq<u8>, r: ElementStatusReport) -> bool {
    &&& r.version == le32(b, 0)
    &&& r.size == le32(b, 4)
    &&& r.element_identifier == le32(b, 8)
    &&& r.health == health_state_of(b[13])
}

/// The optional text field designated by the untrusted offset `off`:
/// extracted only when `off` points strictly inside the buffer,
/// absent otherwise.
fn string_field(b: &[u8], off: u32) -> (r: Option<String>)
    ensures
        string_field_ok(b@, off as nat, r),
{
    if off > 0 && (off as usize) < b.len() {
        Some(extract_string(b, off as usize))
    } else {
        None
    }
}

/// Interprets a device-descriptor response.  Succeeds exactly when the
/// buffer covers the fixed header, and then reports every header field
/// and every range-checked string field of the buffer.
pub fn interpret_device(raw: &[u8]) -> (r: Result<DeviceReport, DecodeError>)
    ensures
        raw@.len() >= DEVICE_DESCRIPTOR_HEADER_LEN ==> (r matches Ok(rep)
            && device_report_ok(raw@, rep)),
        raw@.len() < DEVICE_DESCRIPTOR_HEADER_LEN ==> r == Err::<
            DeviceReport,
            DecodeError,
        >(DecodeError::Truncated),
{
    if raw.len() < DEVICE_DESCRIPTOR_HEADER_LEN {
        return Err(DecodeError::Truncated);
    }
    let kind = decode_device_kind(read_u8(raw, 8));
    let removable = read_u8(raw, 10) != 0;
    let command_queueing = read_u8(raw, 11) != 0;
    let bus = decode_bus_kind(read_u32_le(raw, 28));
    let vendor = string_field(raw, read_u32_le(raw, 12));
    let product = string_field(raw, read_u32_le(raw, 16));
    let revision = string_field(raw, read_u32_le(raw, 20));
    let serial = string_field(raw, read_u32_le(raw, 24));
    Ok(DeviceReport { kind, bus, removable, command_queueing, vendor, product, revision, serial })
}

/// Interprets an adapter-descriptor response.  Succeeds exactly when
/// the buffer covers the fixed header, and then reports every scalar
/// of the header verbatim.
pub fn interpret_adapter(raw: &[u8]) -> (r: Result<AdapterReport, DecodeError>)
    ensures
        raw@.len() >= ADAPTER_DESCRIPTOR_HEADER_LEN ==> (r matches Ok(rep)
            && adapter_report_ok(raw@, rep)),
        raw@.len() < ADAPTER_DESCRIPTOR_HEADER_LEN ==> r == Err::<
            AdapterReport,
            DecodeError,
        >(DecodeError::Truncated),
{
    if raw.len() < ADAPTER_DESCRIPTOR_HEADER_LEN {
        return Err(DecodeError::Truncated);
    }
    Ok(
        AdapterReport {
            version: read_u32_le(raw, 0),
            descriptor_size: read_u32_le(raw, 4),
            maximum_transfer_length: read_u32_le(raw, 8),
            maximum_physical_pages: read_u32_le(raw, 12),
            alignment_mask: read_u32_le(raw, 16),
            adapter_scans_down: read_u8(raw, 21) != 0,
            command_queueing: read_u8(raw, 22) != 0,
            accelerated_transfer: read_u8(raw, 23) != 0,
            bus_type: read_u8(raw, 24),
            bus_major_version: read_u16_le(raw, 26),
            bus_minor_version: read_u16_le(raw, 28),
            srb_type: read_u8(raw, 30),
            address_type: read_u8(raw, 31),
        },
    )
}

/// Interprets a device-identifier-descriptor response.  Succeeds
/// exactly when the buffer covers the fixed header, and then reports
/// the identifier count.
pub fn interpret_device_id(raw: &[u8]) -> (r: Result<DeviceIdReport, DecodeError>)
    ensures
        raw@.len() >= DEVICE_ID_DESCRIPTOR_HEADER_LEN ==> (r matches Ok(rep)
            && device_id_report_ok(raw@, rep)),
        raw@.len() < DEVICE_ID_DESCRIPTOR_HEADER_LEN ==> r == Err::<
            DeviceIdReport,
            DecodeError,
        >(DecodeError::Truncated),
{
    if raw.len() < DEVICE_ID_DESCRIPTOR_HEADER_LEN {
        return Err(DecodeError::Truncated);
    }
    Ok(DeviceIdReport { number_of_identifiers: read_u32_le(raw, 8) })
}

/// Interprets a physical-element-status response.  Succeeds exactly
/// when the buffer covers the fixed header, and then reports the
/// header scalars and the decoded health state.
pub fn interpret_element_status(raw: &[u8]) -> (r: Result<ElementStatusReport, DecodeError>)
    ensures
        raw@.len() >= ELEMENT_STATUS_DESCRIPTOR_HEADER_LEN ==> (r matches Ok(rep)
            && element_status_report_ok(raw@, rep)),
        raw@.len() < ELEMENT_STATUS_DESCRIPTOR_HEADER_LEN ==> r == Err::<
            ElementStatusReport,
            DecodeError,
        >(DecodeError::Truncated),
{
    if raw.len() < ELEMENT_STATUS_DESCRIPTOR_HEADER_LEN {
        return Err(DecodeError::Truncated);
    }
    Ok(
        ElementStatusReport {
            version: read_u32_le(raw, 0),
            size: read_u32_le(raw, 4),
            element_identifier: read_u32_le(raw, 8),
            health: decode_health_state(read_u8(raw, 13)),
        },
    )
}

/// Law: a string offset of zero, and one at or past the end of the
/// buffer, both yield an absent field rather than an error.
pub proof fn lemma_out_of_range_offset_absent(b: Seq<u8>, off: nat, field: Option<String>)
    requires
        string_field_ok(b, off, field),
        off == 0 || off >= b.len(),
    ensures
        field is None,
{
}

} // verus!
