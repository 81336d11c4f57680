//! Outbound request records and the response prefix.
//!
//! The generic property query names one of the enumerated property
//! kinds and asks for a standard query; its encoding is the fixed
//! record the driver expects.  The physical-element-status query goes
//! through a distinct operation code with its own fixed request
//! record.  A response arrives in an oversized scratch buffer of which
//! only the driver-reported prefix is meaningful.

use vstd::prelude::*;

use crate::fields::{le32, push_u32_le};

verus! {

/// Bytes of the encoded generic property query: property kind, query
/// type, one additional-parameters byte and three bytes of padding.
pub const PROPERTY_QUERY_LEN: usize = 12;

/// Bytes of the encoded physical-element-status request.
pub const STATUS_REQUEST_LEN: usize = 16;

/// Numeric code of the standard query type.
pub const STANDARD_QUERY_CODE: u32 = 0;

/// Largest response a query accepts: the size of the scratch buffer
/// handed to the driver.  A longer driver response is truncated to
/// this size.
pub const MAX_RESPONSE_LEN: usize = 4096;

/// The property kinds a health report queries, in their fixed order.
#[derive(Clone, Copy, PartialEq, Eq, Structural, Debug)]
pub enum PropertyKind {
    DeviceProperty,
    AdapterProperty,
    DeviceIdProperty,
    PhysicalElementStatus,
}

/// Whether `kind` is served by the generic property-query operation;
/// the physical-element status goes through its own operation code
/// and request record instead.
pub open spec fn is_generic_property(kind: PropertyKind) -> bool {
    !(kind is PhysicalElementStatus)
}

/// The numeric property code of a generic property kind.
pub open spec fn property_code_of(kind: PropertyKind) -> u32
    recommends
        is_generic_property(kind),
{
    match kind {
        PropertyKind::DeviceProperty => 0,
        PropertyKind::AdapterProperty => 1,
        PropertyKind::DeviceIdProperty => 2,
        PropertyKind::PhysicalElementStatus => arbitrary(),
    }
}

/// The numeric property code sent for `kind`.
pub fn property_code(kind: PropertyKind) -> (r: u32)
    requires
        is_generic_property(kind),
    ensures
        r == property_code_of(kind),
{
    if kind == PropertyKind::DeviceProperty {
        0
    } else if kind == PropertyKind::AdapterProperty {
        1
    } else {
        2
    }
}

/// Outbound physical-element-status request record.
#[derive(Clone, Copy, PartialEq, Eq, Structural, Debug)]
pub struct ElementStatusRequest {
    pub version: u32,
    pub size: u32,
    pub starting_element: u32,
    pub filter: u8,
    pub report_type: u8,
}

/// Encodes the generic property query for `kind`: the property code
/// and the standard query type, each four little-endian bytes, then
/// the zero additional-parameters byte and zero padding.
pub fn encode_property_query(kind: PropertyKind) -> (r: Vec<u8>)
    requires
        is_generic_property(kind),
    ensures
        r@.len() == PROPERTY_QUERY_LEN,
        le32(r@, 0) == property_code_of(kind),
        le32(r@, 4) == STANDARD_QUERY_CODE,
        le32(r@, 8) == 0,
{
    let mut out: Vec<u8> = Vec::new();
    push_u32_le(&mut out, property_code(kind));
    push_u32_le(&mut out, STANDARD_QUERY_CODE);
    push_u32_le(&mut out, 0);
    out
}

/// Builds the physical-element-status request: version and size both
/// the record's own encoded size, reporting from the first element,
/// all elements, physical element status.
pub fn build_status_request() -> (r: ElementStatusRequest)
    ensures
        r.version == STATUS_REQUEST_LEN,
        r.size == STATUS_REQUEST_LEN,
        r.starting_element == 0,
        r.filter == 0,
        r.report_type == 0,
{
    ElementStatusRequest {
        version: STATUS_REQUEST_LEN as u32,
        size: STATUS_REQUEST_LEN as u32,
        starting_element: 0,
        filter: 0,
        report_type: 0,
    }
}

/// Encodes a physical-element-status request: three little-endian
/// scalars, the filter and report-type bytes, and two zero reserved
/// bytes.
pub fn encode_status_request(req: &ElementStatusRequest) -> (r: Vec<u8>)
    ensures
        r@.len() == STATUS_REQUEST_LEN,
        le32(r@, 0) == req.version,
        le32(r@, 4) == req.size,
        le32(r@, 8) == req.starting_element,
        r@[12] == req.filter,
        r@[13] == req.report_type,
        r@[14] == 0,
        r@[15] == 0,
{
    let mut out: Vec<u8> = Vec::new();
    push_u32_le(&mut out, req.version);
    push_u32_le(&mut out, req.size);
    push_u32_le(&mut out, req.starting_element);
    out.push(req.filter);
    out.push(req.report_type);
    out.push(0);
    out.push(0);
    out
}

/// The prefix of the scratch buffer that the driver reported as
/// written.  Bytes past `bytes_returned` are never exposed; a report
/// of more bytes than the buffer holds is clamped to the buffer.
pub fn response_prefix(buffer: &[u8], bytes_returned: usize) -> (r: Vec<u8>)
    ensures
        r@ == buffer@.subrange(
            0,
            if bytes_returned <= buffer@.len() {
                bytes_returned as int
            } else {
                buffer@.len() as int
            },
        ),
{
    let len = buffer.len();
    let n = if bytes_returned < len {
        bytes_returned
    } else {
        len
    };
    let mut out: Vec<u8> = Vec::new();
    let mut i: usize = 0;
    while i < n
        invariant
            i <= n <= len,
            len == buffer@.len(),
            out@ == buffer@.subrange(0, i as int),
        decreases n - i,
    {
        out.push(buffer[i]);
        proof {
            assert(out@ =~= buffer@.subrange(0, i + 1));
        }
        i = i + 1;
    }
    out
}

} // verus!
