use disk_health::descriptor::{
    ADAPTER_DESCRIPTOR_HEADER_LEN, DEVICE_DESCRIPTOR_HEADER_LEN, DEVICE_ID_DESCRIPTOR_HEADER_LEN,
};
use disk_health::orchestrate::{DriveAction, HandleError, Orchestrator, Phase, ReportSection};
use disk_health::request::PropertyKind;

fn plain_device_response() -> Vec<u8> {
    let mut buf = vec![0u8; DEVICE_DESCRIPTOR_HEADER_LEN];
    // bus-type field
    buf[28] = 17;
    buf
}

fn plain_adapter_response() -> Vec<u8> {
    vec![0u8; ADAPTER_DESCRIPTOR_HEADER_LEN]
}

fn plain_device_id_response() -> Vec<u8> {
    let mut buf = vec![0u8; DEVICE_ID_DESCRIPTOR_HEADER_LEN];
    buf[8] = 2;
    buf
}

#[test]
fn partial_support_run_succeeds_with_advisory_notice() {
    // The device answers the three property queries but rejects the
    // physical-element-status query.
    let mut run = Orchestrator::new();
    run.on_open_outcome(true);
    run.on_device_outcome(Some(plain_device_response()));
    run.on_adapter_outcome(Some(plain_adapter_response()));
    run.on_device_id_outcome(Some(plain_device_id_response()));
    run.on_element_status_outcome(None);
    run.on_closed();
    let report = run.into_result().expect("partial support is not fatal");
    assert_eq!(report.sections.len(), 4);
    assert!(matches!(report.sections[0], ReportSection::Device(_)));
    assert!(matches!(report.sections[1], ReportSection::Adapter(_)));
    assert!(matches!(report.sections[2], ReportSection::DeviceId(_)));
    assert_eq!(
        report.sections[3],
        ReportSection::Unsupported(PropertyKind::PhysicalElementStatus)
    );
}

#[test]
fn failed_open_is_fatal_and_reports_nothing() {
    let mut run = Orchestrator::new();
    run.on_open_outcome(false);
    assert_eq!(run.phase, Phase::Aborted);
    assert_eq!(run.next_action(), DriveAction::Finish);
    assert!(run.sections.is_empty());
    assert_eq!(run.into_result(), Err(HandleError::OpenFailed));
}

#[test]
fn actions_follow_the_fixed_query_order() {
    let mut run = Orchestrator::new();
    assert_eq!(run.next_action(), DriveAction::OpenDevice);
    run.on_open_outcome(true);
    assert_eq!(run.next_action(), DriveAction::RunDeviceQuery);
    run.on_device_outcome(None);
    assert_eq!(run.next_action(), DriveAction::RunAdapterQuery);
    run.on_adapter_outcome(None);
    assert_eq!(run.next_action(), DriveAction::RunDeviceIdQuery);
    run.on_device_id_outcome(None);
    assert_eq!(run.next_action(), DriveAction::RunElementStatusQuery);
    run.on_element_status_outcome(None);
    assert_eq!(run.next_action(), DriveAction::CloseDevice);
    run.on_closed();
    assert_eq!(run.next_action(), DriveAction::Finish);
}

#[test]
fn every_query_unsupported_still_completes() {
    let mut run = Orchestrator::new();
    run.on_open_outcome(true);
    run.on_device_outcome(None);
    run.on_adapter_outcome(None);
    run.on_device_id_outcome(None);
    run.on_element_status_outcome(None);
    run.on_closed();
    let report = run.into_result().expect("unsupported queries are not fatal");
    assert_eq!(
        report.sections,
        vec![
            ReportSection::Unsupported(PropertyKind::DeviceProperty),
            ReportSection::Unsupported(PropertyKind::AdapterProperty),
            ReportSection::Unsupported(PropertyKind::DeviceIdProperty),
            ReportSection::Unsupported(PropertyKind::PhysicalElementStatus),
        ]
    );
}

#[test]
fn truncated_response_is_treated_as_unsupported() {
    let mut run = Orchestrator::new();
    run.on_open_outcome(true);
    run.on_device_outcome(Some(vec![0u8; DEVICE_DESCRIPTOR_HEADER_LEN - 1]));
    run.on_adapter_outcome(Some(plain_adapter_response()));
    run.on_device_id_outcome(Some(plain_device_id_response()));
    run.on_element_status_outcome(None);
    run.on_closed();
    let report = run.into_result().unwrap();
    assert_eq!(
        report.sections[0],
        ReportSection::Unsupported(PropertyKind::DeviceProperty)
    );
    assert!(matches!(report.sections[1], ReportSection::Adapter(_)));
}

#[test]
fn decoded_sections_carry_the_response_fields() {
    let mut run = Orchestrator::new();
    run.on_open_outcome(true);
    run.on_device_outcome(Some(plain_device_response()));
    run.on_adapter_outcome(Some(plain_adapter_response()));
    run.on_device_id_outcome(Some(plain_device_id_response()));
    run.on_element_status_outcome(None);
    run.on_closed();
    let report = run.into_result().unwrap();
    match &report.sections[0] {
        ReportSection::Device(rep) => {
            assert_eq!(rep.bus, disk_health::codes::BusKind::Nvme);
            assert_eq!(rep.vendor, None);
        }
        other => panic!("expected a device section, got {:?}", other),
    }
    match &report.sections[2] {
        ReportSection::DeviceId(rep) => assert_eq!(rep.number_of_identifiers, 2),
        other => panic!("expected a device-id section, got {:?}", other),
    }
}
