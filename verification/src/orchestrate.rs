//! The health-check pipeline as an explicit state machine.
//!
//! A run opens the device, queries the four property kinds in a fixed
//! order, closes the handle and finishes.  The machine here makes the
//! decisions; the caller performs the device work each step asks for
//! and hands the outcome back.  A failed query is downgraded to an
//! advisory "unsupported" section and the run continues; only a failed
//! open is fatal, and it aborts the run before any query.

use vstd::prelude::*;

use crate::descriptor::{
    interpret_adapter,
    interpret_device,
    interpret_device_id,
    interpret_element_status,
    adapter_report_ok,
    device_id_report_ok,
    device_report_ok,
    element_status_report_ok,
    AdapterReport,
    DeviceIdReport,
    DeviceReport,
    ElementStatusReport,
    ADAPTER_DESCRIPTOR_HEADER_LEN,
    DEVICE_DESCRIPTOR_HEADER_LEN,
    DEVICE_ID_DESCRIPTOR_HEADER_LEN,
    ELEMENT_STATUS_DESCRIPTOR_HEADER_LEN,
};
use crate::request::PropertyKind;

verus! {

/// Where a run stands.
#[derive(Clone, Copy, PartialEq, Eq, Structural, Debug)]
pub enum Phase {
    Opening,
    QueryingDevice,
    QueryingAdapter,
    QueryingDeviceId,
    QueryingElementStatus,
    Closing,
    Complete,
    Aborted,
}

/// The device work the caller is asked to perform next.
#[derive(Clone, Copy, PartialEq, Eq, Structural, Debug)]
pub enum DriveAction {
    OpenDevice,
    RunDeviceQuery,
    RunAdapterQuery,
    RunDeviceIdQuery,
    RunElementStatusQuery,
    CloseDevice,
    Finish,
}

/// One section of the aggregate report: a decoded descriptor, or the
/// advisory notice that the property is unsupported on this device.
#[derive(Clone, PartialEq, Eq, Debug)]
pub enum ReportSection {
    Device(DeviceReport),
    Adapter(AdapterReport),
    DeviceId(DeviceIdReport),
    ElementStatus(ElementStatusReport),
    Unsupported(PropertyKind),
}

/// Fatal failure of a run: the device handle could not be opened.
#[derive(Clone, Copy, PartialEq, Eq, Structural, Debug)]
pub enum HandleError {
    OpenFailed,
}

/// The aggregate report of a completed run, one section per property
/// kind queried, in query order.
#[derive(Clone, PartialEq, Eq, Debug)]
pub struct HealthReport {
    pub sections: Vec<ReportSection>,
}

/// The action a run asks for in each phase.
pub open spec fn action_of(phase: Phase) -> DriveAction {
    match phase {
        Phase::Opening => DriveAction::OpenDevice,
        Phase::QueryingDevice => DriveAction::RunDeviceQuery,
        Phase::QueryingAdapter => DriveAction::RunAdapterQuery,
        Phase::QueryingDeviceId => DriveAction::RunDeviceIdQuery,
        Phase::QueryingElementStatus => DriveAction::RunElementStatusQuery,
        Phase::Closing => DriveAction::CloseDevice,
        Phase::Complete => DriveAction::Finish,
        Phase::Aborted => DriveAction::Finish,
    }
}

/// The section a query step records for its outcome: the advisory
/// notice when the query failed or its response does not cover the
/// fixed header, the decoded descriptor otherwise.
pub open spec fn device_section_ok(response: Option<Vec<u8>>, s: ReportSection) -> bool {
    match response {
        Option::None => s == ReportSection::Unsupported(PropertyKind::DeviceProperty),
        Option::Some(raw) => if raw@.len() < DEVICE_DESCRIPTOR_HEADER_LEN {
            s == ReportSection::Unsupported(PropertyKind::DeviceProperty)
        } else {
            s matches ReportSection::Device(rep) && device_report_ok(raw@, rep)
        },
    }
}

/// As `device_section_ok`, for the adapter query.
pub open spec fn adapter_section_ok(response: Option<Vec<u8>>, s: ReportSection) -> bool {
    match response {
        Option::None => s == ReportSection::Unsupported(PropertyKind::AdapterProperty),
        Option::Some(raw) => if raw@.len() < ADAPTER_DESCRIPTOR_HEADER_LEN {
            s == ReportSection::Unsupported(PropertyKind::AdapterProperty)
        } else {
            s matches ReportSection::Adapter(rep) && adapter_report_ok(raw@, rep)
        },
    }
}

/// As `device_section_ok`, for the device-identifier query.
pub open spec fn device_id_section_ok(response: Option<Vec<u8>>, s: ReportSection) -> bool {
    match response {
        Option::None => s == ReportSection::Unsupported(PropertyKind::DeviceIdProperty),
        Option::Some(raw) => if raw@.len() < DEVICE_ID_DESCRIPTOR_HEADER_LEN {
            s == ReportSection::Unsupported(PropertyKind::DeviceIdProperty)
        } else {
            s matches ReportSection::DeviceId(rep) && device_id_report_ok(raw@, rep)
        },
    }
}

/// As `device_section_ok`, for the physical-element-status query.
pub open spec fn element_section_ok(response: Option<Vec<u8>>, s: ReportSection) -> bool {
    match response {
        Option::None => s == ReportSection::Unsupported(PropertyKind::PhysicalElementStatus),
        Option::Some(raw) => if raw@.len() < ELEMENT_STATUS_DESCRIPTOR_HEADER_LEN {
            s == ReportSection::Unsupported(PropertyKind::PhysicalElementStatus)
        } else {
            s matches ReportSection::ElementStatus(rep) && element_status_report_ok(raw@, rep)
        },
    }
}

/// Driver of one health-check run.  The caller reads `next_action`,
/// performs the device work, and reports the outcome through the
/// matching `on_...` method; the machine decides how the run goes on.
pub struct Orchestrator {
    pub phase: Phase,
    pub sections: Vec<ReportSection>,
}

impl Orchestrator {
    /// Each phase owns a fixed number of recorded sections: none
    /// before the first query resolves, one more after each, all four
    /// from the close on, and none on an aborted run.
    pub open spec fn wf(self) -> bool {
        match self.phase {
            Phase::Opening => self.sections@.len() == 0,
            Phase::QueryingDevice => self.sections@.len() == 0,
            Phase::QueryingAdapter => self.sections@.len() == 1,
            Phase::QueryingDeviceId => self.sections@.len() == 2,
            Phase::QueryingElementStatus => self.sections@.len() == 3,
            Phase::Closing => self.sections@.len() == 4,
            Phase::Complete => self.sections@.len() == 4,
            Phase::Aborted => self.sections@.len() == 0,
        }
    }

    /// A fresh run, about to open the device.
    pub fn new() -> (r: Self)
        ensures
            r.phase == Phase::Opening,
            r.sections@.len() == 0,
            r.wf(),
    {
        Orchestrator { phase: Phase::Opening, sections: Vec::new() }
    }

    /// The device work the run asks for next.
    pub fn next_action(&self) -> (r: DriveAction)
        ensures
            r == action_of(self.phase),
    {
        match self.phase {
            Phase::Opening => DriveAction::OpenDevice,
            Phase::QueryingDevice => DriveAction::RunDeviceQuery,
            Phase::QueryingAdapter => DriveAction::RunAdapterQuery,
            Phase::QueryingDeviceId => DriveAction::RunDeviceIdQuery,
            Phase::QueryingElementStatus => DriveAction::RunElementStatusQuery,
            Phase::Closing => DriveAction::CloseDevice,
            Phase::Complete => DriveAction::Finish,
            Phase::Aborted => DriveAction::Finish,
        }
    }

    /// Records whether the device handle was opened.  A failure aborts
    /// the run before any query; nothing is recorded either way.
    pub fn on_open_outcome(&mut self, opened: bool)
        requires
            old(self).wf(),
            old(self).phase == Phase::Opening,
        ensures
            final(self).wf(),
            final(self).sections@ == old(self).sections@,
            opened ==> final(self).phase == Phase::QueryingDevice,
            !opened ==> final(self).phase == Phase::Aborted,
    {
        if opened {
            self.phase = Phase::QueryingDevice;
        } else {
            self.phase = Phase::Aborted;
        }
    }

    /// Records the outcome of the device-descriptor query, `None` when
    /// the driver rejected it, and goes on to the adapter query either
    /// way.
    pub fn on_device_outcome(&mut self, response: Option<Vec<u8>>)
        requires
            old(self).wf(),
            old(self).phase == Phase::QueryingDevice,
        ensures
            final(self).wf(),
            final(self).phase == Phase::QueryingAdapter,
            final(self).sections@.len() == old(self).sections@.len() + 1,
            final(self).sections@ == old(self).sections@.push(final(self).sections@.last()),
            device_section_ok(response, final(self).sections@.last()),
    {
        let section = match &response {
            Option::None => ReportSection::Unsupported(PropertyKind::DeviceProperty),
            Option::Some(raw) => match interpret_device(raw.as_slice()) {
                Result::Ok(rep) => ReportSection::Device(rep),
                Result::Err(_) => ReportSection::Unsupported(PropertyKind::DeviceProperty),
            },
        };
        self.sections.push(section);
        self.phase = Phase::QueryingAdapter;
    }

    /// Records the outcome of the adapter-descriptor query and goes on
    /// to the device-identifier query either way.
    pub fn on_adapter_outcome(&mut self, response: Option<Vec<u8>>)
        requires
            old(self).wf(),
            old(self).phase == Phase::QueryingAdapter,
        ensures
            final(self).wf(),
            final(self).phase == Phase::QueryingDeviceId,
            final(self).sections@.len() == old(self).sections@.len() + 1,
            final(self).sections@ == old(self).sections@.push(final(self).sections@.last()),
            adapter_section_ok(response, final(self).sections@.last()),
    {
        let section = match &response {
            Option::None => ReportSection::Unsupported(PropertyKind::AdapterProperty),
            Option::Some(raw) => match interpret_adapter(raw.as_slice()) {
                Result::Ok(rep) => ReportSection::Adapter(rep),
                Result::Err(_) => ReportSection::Unsupported(PropertyKind::AdapterProperty),
            },
        };
        self.sections.push(section);
        self.phase = Phase::QueryingDeviceId;
    }

    /// Records the outcome of the device-identifier query and goes on
    /// to the physical-element-status query either way.
    pub fn on_device_id_outcome(&mut self, response: Option<Vec<u8>>)
        requires
            old(self).wf(),
            old(self).phase == Phase::QueryingDeviceId,
        ensures
            final(self).wf(),
            final(self).phase == Phase::QueryingElementStatus,
            final(self).sections@.len() == old(self).sections@.len() + 1,
            final(self).sections@ == old(self).sections@.push(final(self).sections@.last()),
            device_id_section_ok(response, final(self).sections@.last()),
    {
        let section = match &response {
            Option::None => ReportSection::Unsupported(PropertyKind::DeviceIdProperty),
            Option::Some(raw) => match interpret_device_id(raw.as_slice()) {
                Result::Ok(rep) => ReportSection::DeviceId(rep),
                Result::Err(_) => ReportSection::Unsupported(PropertyKind::DeviceIdProperty),
            },
        };
        self.sections.push(section);
        self.phase = Phase::QueryingElementStatus;
    }

    /// Records the outcome of the physical-element-status query, the
    /// one expected to be unsupported on many devices, and moves on to
    /// closing the handle either way.
    pub fn on_element_status_outcome(&mut self, response: Option<Vec<u8>>)
        requires
            old(self).wf(),
            old(self).phase == Phase::QueryingElementStatus,
        ensures
            final(self).wf(),
            final(self).phase == Phase::Closing,
            final(self).sections@.len() == old(self).sections@.len() + 1,
            final(self).sections@ == old(self).sections@.push(final(self).sections@.last()),
            element_section_ok(response, final(self).sections@.last()),
    {
        let section = match &response {
            Option::None => ReportSection::Unsupported(PropertyKind::PhysicalElementStatus),
            Option::Some(raw) => match interpret_element_status(raw.as_slice()) {
                Result::Ok(rep) => ReportSection::ElementStatus(rep),
                Result::Err(_) => ReportSection::Unsupported(PropertyKind::PhysicalElementStatus),
            },
        };
        self.sections.push(section);
        self.phase = Phase::Closing;
    }

    /// Records that the handle was released.  The close is best-effort:
    /// there is no failure to report, and the run completes
    /// unconditionally.
    pub fn on_closed(&mut self)
        requires
            old(self).wf(),
            old(self).phase == Phase::Closing,
        ensures
            final(self).wf(),
            final(self).phase == Phase::Complete,
            final(self).sections@ == old(self).sections@,
    {
        self.phase = Phase::Complete;
    }

    /// The outcome of the run: the aggregate report of a completed
    /// run, or the fatal error of one aborted at open time.
    pub fn into_result(self) -> (r: Result<HealthReport, HandleError>)
        requires
            self.wf(),
            self.phase == Phase::Complete || self.phase == Phase::Aborted,
        ensures
            self.phase == Phase::Complete ==> (r matches Ok(rep) && rep.sections@
                == self.sections@),
            self.phase == Phase::Aborted ==> r == Err::<
                HealthReport,
                HandleError,
            >(HandleError::OpenFailed),
    {
        match self.phase {
            Phase::Complete => Ok(HealthReport { sections: self.sections }),
            _ => Err(HandleError::OpenFailed),
        }
    }
}

/// Law: a run that failed to open the device aborts with no sections
/// recorded; no query ran and nothing is reported.
pub proof fn lemma_aborted_run_has_no_sections(o: Orchestrator)
    requires
        o.wf(),
        o.phase == Phase::Aborted,
    ensures
        o.sections@.len() == 0,
{
}

/// Law: a run that reached completion recorded exactly one section
/// per property kind queried, whatever each query's outcome.
pub proof fn lemma_complete_run_has_all_sections(o: Orchestrator)
    requires
        o.wf(),
        o.phase == Phase::Complete,
    ensures
        o.sections@.len() == 4,
{
}

} // verus!
