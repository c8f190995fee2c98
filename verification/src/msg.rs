//! Messages in and requests out.
//!
//! The core consumes one `Event` at a time: a key, a timer tick, or the
//! completion of a background request. It answers with `DispatchRequest`
//! values, each naming the operation to run and carrying the dispatch
//! ordinal its completion must echo. A completion whose ordinal is older
//! than its slot's current ordinal is stale and is dropped.

use vstd::prelude::*;
use crate::datto::{
    ActivityLogsResponse, Alert, CreateVariableRequest, ComponentsResponse, DevicesResponse,
    JobStdOutput, JobResult, QuickJobRequest, QuickJobResponse, Site, SiteVariable, SitesResponse,
    Udf, UpdateSiteRequest, UpdateVariableRequest,
};
use crate::datto_av::{AgentDetail, Alert as AvAlert};
use crate::rocket_cyber::Incident;
use crate::sophos::{Case, Endpoint};

verus! {

/// A key press, already decoded by the input driver.
#[derive(Debug, Clone, Copy, PartialEq, Eq, Structural)]
pub enum Key {
    Char(char),
    Up,
    Down,
    Enter,
    Esc,
    Tab,
    BackTab,
    Backspace,
    Other,
}

/// Where a requested endpoint scan stands.
#[derive(Debug, Clone, Copy, PartialEq, Eq, Structural)]
pub enum ScanStatus {
    Starting,
    Started,
}

/// The current dispatch ordinal of each singleton slot. Keyed families
/// (per-site variables, per-host security data) track theirs in keyed
/// stores instead.
#[derive(Debug, Clone, Copy, PartialEq, Eq, Structural)]
pub struct Ordinals {
    pub sites: u64,
    pub devices: u64,
    pub search: u64,
    pub incidents: u64,
    pub activity_logs: u64,
    pub open_alerts: u64,
    pub job_result: u64,
    pub popup: u64,
    pub components: u64,
    pub quick_job: u64,
    pub site_update: u64,
    pub var_write: u64,
    pub udf_write: u64,
}

impl Ordinals {
    /// All slots start before their first dispatch.
    pub fn new() -> (r: Self)
        ensures
            r == Self::spec_new(),
    {
        Ordinals {
            sites: 0,
            devices: 0,
            search: 0,
            incidents: 0,
            activity_logs: 0,
            open_alerts: 0,
            job_result: 0,
            popup: 0,
            components: 0,
            quick_job: 0,
            site_update: 0,
            var_write: 0,
            udf_write: 0,
        }
    }

    /// The ordinals before any dispatch.
    pub open spec fn spec_new() -> Ordinals {
        Ordinals {
            sites: 0,
            devices: 0,
            search: 0,
            incidents: 0,
            activity_logs: 0,
            open_alerts: 0,
            job_result: 0,
            popup: 0,
            components: 0,
            quick_job: 0,
            site_update: 0,
            var_write: 0,
            udf_write: 0,
        }
    }
}

/// One message from the event channel.
#[derive(Debug)]
pub enum Event {
    /// The periodic timer, carrying the time in milliseconds.
    Tick { now_ms: u64 },
    /// A key press, carrying the time in milliseconds.
    Key { key: Key, now_ms: u64 },
    /// A terminal resize; the core ignores it.
    Resize { width: u16, height: u16 },
    SitesFetched { ordinal: u64, result: Result<SitesResponse, String> },
    DevicesFetched { ordinal: u64, result: Result<DevicesResponse, String> },
    DeviceSearchResultsFetched { ordinal: u64, result: Result<DevicesResponse, String> },
    IncidentsFetched { ordinal: u64, result: Result<Vec<Incident>, String> },
    SiteVariablesFetched { site_uid: String, ordinal: u64, result: Result<Vec<SiteVariable>, String> },
    VariableCreated { site_uid: String, ordinal: u64, result: Result<SiteVariable, String> },
    VariableUpdated { site_uid: String, ordinal: u64, result: Result<SiteVariable, String> },
    SiteUpdated { ordinal: u64, result: Result<Site, String> },
    SophosCasesFetched { tenant_id: String, ordinal: u64, result: Result<Vec<Case>, String> },
    SophosEndpointsFetched { hostname: String, ordinal: u64, result: Result<Vec<Endpoint>, String> },
    SophosScanStarted { hostname: String, result: Result<(), String> },
    DattoAvAgentFetched { hostname: String, ordinal: u64, result: Result<AgentDetail, String> },
    DattoAvScanStarted { hostname: String, result: Result<(), String> },
    ScanStatusChanged { hostname: String, status: ScanStatus },
    DattoAvAlertsFetched { hostname: String, ordinal: u64, result: Result<Vec<AvAlert>, String> },
    DattoAvPoliciesFetched { hostname: String, ordinal: u64, result: Result<String, String> },
    ActivityLogsFetched { ordinal: u64, result: Result<ActivityLogsResponse, String> },
    OpenAlertsFetched { device_uid: String, ordinal: u64, result: Result<Vec<Alert>, String> },
    JobResultFetched { ordinal: u64, result: Result<JobResult, String> },
    JobStdOutFetched { ordinal: u64, result: Result<Vec<JobStdOutput>, String> },
    JobStdErrFetched { ordinal: u64, result: Result<Vec<JobStdOutput>, String> },
    UdfUpdated { device_uid: String, ordinal: u64, result: Result<(), String> },
    QuickJobExecuted { ordinal: u64, result: Result<QuickJobResponse, String> },
    ComponentsFetched { ordinal: u64, result: Result<ComponentsResponse, String> },
}

/// One background operation the dispatcher must run. Each completes with
/// exactly one completion message echoing the ordinal carried here.
#[derive(Debug)]
pub enum DispatchRequest {
    FetchSites { page: i32, ordinal: u64 },
    FetchDevices { site_uid: String, ordinal: u64 },
    SearchDevices { query: String, ordinal: u64 },
    FetchIncidents { ordinal: u64 },
    FetchSiteVariables { site_uid: String, ordinal: u64 },
    CreateSiteVariable { site_uid: String, request: CreateVariableRequest, ordinal: u64 },
    UpdateSiteVariable { site_uid: String, variable_id: i32, request: UpdateVariableRequest, ordinal: u64 },
    UpdateSite { site_uid: String, request: UpdateSiteRequest, ordinal: u64 },
    FetchActivityLogs { device_id: i32, site_id: i32, ordinal: u64 },
    FetchOpenAlerts { device_uid: String, ordinal: u64 },
    FetchJobResult { job_uid: String, device_uid: String, ordinal: u64 },
    FetchJobStdOut { job_uid: String, device_uid: String, ordinal: u64 },
    FetchJobStdErr { job_uid: String, device_uid: String, ordinal: u64 },
    FetchComponents { ordinal: u64 },
    RunQuickJob { device_uid: String, request: QuickJobRequest, ordinal: u64 },
    UpdateDeviceUdf { device_uid: String, udf: Udf, ordinal: u64 },
    FetchSophosCases { tenant_id: String, data_region: Option<String>, ordinal: u64 },
    FetchSophosEndpoint { tenant_id: String, data_region: Option<String>, hostname: String, ordinal: u64 },
    StartSophosScan { tenant_id: String, data_region: Option<String>, endpoint_id: String, hostname: String },
    FetchDattoAvAgent { hostname: String, agent_id: Option<String>, ordinal: u64 },
    FetchDattoAvAlerts { agent_id: String, hostname: String, ordinal: u64 },
    FetchDattoAvPolicies { agent_id: String, hostname: String, ordinal: u64 },
    StartDattoAvScan { agent_id: String, hostname: String },
    /// Wait briefly, then post a `ScanStatusChanged` for this host.
    ScheduleScanStatus { hostname: String },
}

} // verus!
