//! Closed enumerations for the numeric codes of the wire format.
//!
//! Device type, bus type and health state arrive as raw numeric codes.
//! Each decodes into a closed enumeration whose fallback variant keeps
//! the exact unmatched value, so no code is ever rejected or lost.

use vstd::prelude::*;

verus! {

/// Kind of storage device, from the device-type code.
#[derive(Clone, Copy, PartialEq, Eq, Structural, Debug)]
pub enum DeviceKind {
    DirectAccess,
    SequentialAccess,
    CdRom,
    Unknown(u8),
}

/// Bus the device is attached through, from the bus-type code.
#[derive(Clone, Copy, PartialEq, Eq, Structural, Debug)]
pub enum BusKind {
    Nvme,
    Sata,
    Usb,
    Scsi,
    Unknown(u32),
}

/// Health state of a physical element, from the health code.
#[derive(Clone, Copy, PartialEq, Eq, Structural, Debug)]
pub enum HealthState {
    Healthy,
    Warning,
    Critical,
    Unknown(u8),
}

/// The device kind a device-type code decodes to.
pub open spec fn device_kind_of(code: u8) -> DeviceKind {
    if code == 0 {
        DeviceKind::DirectAccess
    } else if code == 1 {
        DeviceKind::SequentialAccess
    } else if code == 5 {
        DeviceKind::CdRom
    } else {
        DeviceKind::Unknown(code)
    }
}

/// The device-type code a device kind stands for.
pub open spec fn device_code_of(kind: DeviceKind) -> u8 {
    match kind {
        DeviceKind::DirectAccess => 0,
        DeviceKind::SequentialAccess => 1,
        DeviceKind::CdRom => 5,
        DeviceKind::Unknown(code) => code,
    }
}

/// The bus kind a bus-type code decodes to.
pub open spec fn bus_kind_of(code: u32) -> BusKind {
    if code == 17 {
        BusKind::Nvme
    } else if code == 11 {
        BusKind::Sata
    } else if code == 7 {
        BusKind::Usb
    } else if code == 1 {
        BusKind::Scsi
    } else {
        BusKind::Unknown(code)
    }
}

/// The bus-type code a bus kind stands for.
pub open spec fn bus_code_of(kind: BusKind) -> u32 {
    match kind {
        BusKind::Nvme => 17,
        BusKind::Sata => 11,
        BusKind::Usb => 7,
        BusKind::Scsi => 1,
        BusKind::Unknown(code) => code,
    }
}

/// The health state a health code decodes to.
pub open spec fn health_state_of(code: u8) -> HealthState {
    if code == 0 {
        HealthState::Healthy
    } else if code == 1 {
        HealthState::Warning
    } else if code == 2 {
        HealthState::Critical
    } else {
        HealthState::Unknown(code)
    }
}

/// The health code a health state stands for.
pub open spec fn health_code_of(state: HealthState) -> u8 {
    match state {
        HealthState::Healthy => 0,
        HealthState::Warning => 1,
        HealthState::Critical => 2,
        HealthState::Unknown(code) => code,
    }
}

/// Decodes a device-type code.
pub fn decode_device_kind(code: u8) -> (r: DeviceKind)
    ensures
        r == device_kind_of(code),
        device_code_of(r) == code,
{
    if code == 0 {
        DeviceKind::DirectAccess
    } else if code == 1 {
        DeviceKind::SequentialAccess
    } else if code == 5 {
        DeviceKind::CdRom
    } else {
        DeviceKind::Unknown(code)
    }
}

/// Decodes a bus-type code against the closed set of named buses.
pub fn decode_bus_kind(code: u32) -> (r: BusKind)
    ensures
        r == bus_kind_of(code),
        bus_code_of(r) == code,
{
    if code == 17 {
        BusKind::Nvme
    } else if code == 11 {
        BusKind::Sata
    } else if code == 7 {
        BusKind::Usb
    } else if code == 1 {
        BusKind::Scsi
    } else {
        BusKind::Unknown(code)
    }
}

/// Decodes a physical-element health code.
pub fn decode_health_state(code: u8) -> (r: HealthState)
    ensures
        r == health_state_of(code),
        health_code_of(r) == code,
{
    if code == 0 {
        HealthState::Healthy
    } else if code == 1 {
        HealthState::Warning
    } else if code == 2 {
        HealthState::Critical
    } else {
        HealthState::Unknown(code)
    }
}

/// Law: decoding a device-type code loses nothing; the code is always
/// recoverable from the decoded kind.
pub proof fn lemma_device_code_round_trip(code: u8)
    ensures
        device_code_of(device_kind_of(code)) == code,
{
}

/// Law: decoding a bus-type code loses nothing; named buses decode
/// from exactly their codes, and every other code is kept verbatim in
/// the fallback variant.
pub proof fn lemma_bus_code_round_trip(code: u32)
    ensures
        bus_code_of(bus_kind_of(code)) == code,
        bus_kind_of(code) == BusKind::Nvme <==> code == 17,
        bus_kind_of(code) == BusKind::Sata <==> code == 11,
        bus_kind_of(code) == BusKind::Usb <==> code == 7,
        bus_kind_of(code) == BusKind::Scsi <==> code == 1,
{
}

/// Law: decoding a health code loses nothing; the three named states
/// decode from exactly their codes, and every other code is kept
/// verbatim in the fallback variant.
pub proof fn lemma_health_code_round_trip(code: u8)
    ensures
        health_code_of(health_state_of(code)) == code,
        health_state_of(code) == HealthState::Healthy <==> code == 0,
        health_state_of(code) == HealthState::Warning <==> code == 1,
        health_state_of(code) == HealthState::Critical <==> code == 2,
{
}

} // verus!
