//! Data model for the RMM backend: sites, devices, activity logs, alerts,
//! components and jobs.
//!
//! These are plain values: the adapter layer decodes wire responses into
//! them and hands them to the core through completion messages. Timestamps
//! arrive already formatted as display strings.

use vstd::prelude::*;

verus! {

#[derive(Debug, Clone, Copy, PartialEq, Eq, Structural)]
pub struct PageDetails {
    pub count: i32,
    pub total_count: Option<i32>,
}

#[derive(Debug, Clone, Copy, PartialEq, Eq, Structural)]
pub struct DevicesStatus {
    pub number_of_devices: i32,
    pub number_of_online_devices: i32,
    pub number_of_offline_devices: i32,
}

#[derive(Debug)]
pub struct ProxySettings {
    pub host: Option<String>,
    pub port: Option<i32>,
    pub type_field: Option<String>,
    pub username: Option<String>,
    pub password: Option<String>,
}

impl Clone for ProxySettings {
    fn clone(&self) -> (r: Self)
        ensures
            r == *self,
    {
        ProxySettings {
            host: self.host.clone(),
            port: self.port,
            type_field: self.type_field.clone(),
            username: self.username.clone(),
            password: self.password.clone(),
        }
    }
}

#[derive(Debug)]
pub struct SiteVariable {
    pub id: i32,
    pub name: String,
    pub value: String,
    pub masked: bool,
}

impl Clone for SiteVariable {
    fn clone(&self) -> (r: Self)
        ensures
            r == *self,
    {
        SiteVariable {
            id: self.id,
            name: self.name.clone(),
            value: self.value.clone(),
            masked: self.masked,
        }
    }
}

#[derive(Debug)]
pub struct Site {
    pub id: i32,
    pub uid: String,
    pub account_uid: Option<String>,
    pub name: String,
    pub description: Option<String>,
    pub notes: Option<String>,
    pub on_demand: Option<bool>,
    pub splashtop_auto_install: Option<bool>,
    pub devices_status: Option<DevicesStatus>,
    pub portal_url: Option<String>,
    pub proxy_settings: Option<ProxySettings>,
    /// Per-site variables, attached after a separate fetch.
    pub variables: Option<Vec<SiteVariable>>,
}

/// Model equality for sites: all scalar fields equal, and the attached
/// variable lists hold the same entries. (Two distinct `Vec` values with
/// equal contents are equal in the model.)
pub open spec fn site_eq(a: Site, b: Site) -> bool {
    &&& b == Site { variables: b.variables, proxy_settings: b.proxy_settings, ..a }
    &&& match (a.variables, b.variables) {
        (Some(va), Some(vb)) => va@ == vb@,
        (None, None) => true,
        _ => false,
    }
    &&& match (a.proxy_settings, b.proxy_settings) {
        (Some(pa), Some(pb)) => pa == pb,
        (None, None) => true,
        _ => false,
    }
}

/// `b` is `a` with its variable list replaced by `vs` and every other
/// field kept.
pub open spec fn site_with_vars(a: Site, vs: Seq<SiteVariable>, b: Site) -> bool {
    &&& b == Site { variables: b.variables, ..a }
    &&& match b.variables {
        Some(v) => v@ == vs,
        None => false,
    }
}

impl Clone for Site {
    fn clone(&self) -> (r: Self)
        ensures
            site_eq(*self, r),
    {
        let r = Site {
            id: self.id,
            uid: self.uid.clone(),
            account_uid: self.account_uid.clone(),
            name: self.name.clone(),
            description: self.description.clone(),
            notes: self.notes.clone(),
            on_demand: self.on_demand,
            splashtop_auto_install: self.splashtop_auto_install,
            devices_status: self.devices_status,
            portal_url: self.portal_url.clone(),
            proxy_settings: self.proxy_settings.clone(),
            variables: self.variables.clone(),
        };
        proof {
            if self.variables is Some {
                let va = self.variables->0@;
                let vb = r.variables->0@;
                assert(va =~= vb);
            }
        }
        r
    }
}

#[derive(Debug)]
pub struct SitesResponse {
    pub page_details: PageDetails,
    pub sites: Vec<Site>,
}

#[derive(Debug)]
pub struct Antivirus {
    pub antivirus_product: Option<String>,
    pub antivirus_status: Option<String>,
}

impl Clone for Antivirus {
    fn clone(&self) -> (r: Self)
        ensures
            r == *self,
    {
        Antivirus {
            antivirus_product: self.antivirus_product.clone(),
            antivirus_status: self.antivirus_status.clone(),
        }
    }
}

#[derive(Debug)]
pub struct DeviceType {
    pub category: Option<String>,
    pub type_field: Option<String>,
}

impl Clone for DeviceType {
    fn clone(&self) -> (r: Self)
        ensures
            r == *self,
    {
        DeviceType { category: self.category.clone(), type_field: self.type_field.clone() }
    }
}

#[derive(Debug)]
pub struct PatchManagement {
    pub patch_status: Option<String>,
    pub patches_approved_pending: Option<i32>,
    pub patches_not_approved: Option<i32>,
    pub patches_installed: Option<i32>,
}

impl Clone for PatchManagement {
    fn clone(&self) -> (r: Self)
        ensures
            r == *self,
    {
        PatchManagement {
            patch_status: self.patch_status.clone(),
            patches_approved_pending: self.patches_approved_pending,
            patches_not_approved: self.patches_not_approved,
            patches_installed: self.patches_installed,
        }
    }
}

/// Number of user-defined fields a device carries.
pub const UDF_COUNT: usize = 30;

/// The user-defined fields of a device, indexed 0 to 29.
#[derive(Debug)]
pub struct Udf {
    pub values: Vec<Option<String>>,
}

impl Udf {
    /// A well-formed value holds one slot per user-defined field.
    pub open spec fn wf(self) -> bool {
        self.values@.len() == UDF_COUNT
    }

    /// An empty set of user-defined fields.
    pub fn empty() -> (r: Self)
        ensures
            r.wf(),
            forall|i: int| 0 <= i < UDF_COUNT ==> r.values@[i] is None,
    {
        let mut values: Vec<Option<String>> = Vec::new();
        let mut i: usize = 0;
        while i < UDF_COUNT
            invariant
                i <= UDF_COUNT,
                values@.len() == i,
                forall|j: int| 0 <= j < i ==> values@[j] is None,
            decreases UDF_COUNT - i,
        {
            values.push(None);
            i = i + 1;
        }
        Udf { values }
    }

    /// The value of the field at `idx`, or `None` past the end.
    pub open spec fn spec_value_at(self, idx: int) -> Option<String> {
        if 0 <= idx < self.values@.len() {
            self.values@[idx]
        } else {
            None
        }
    }

    /// Reads one user-defined field.
    pub fn value_at(&self, idx: usize) -> (r: Option<&String>)
        ensures
            match r {
                Some(v) => self.spec_value_at(idx as int) == Some(*v),
                None => self.spec_value_at(idx as int) is None,
            },
    {
        if idx < self.values.len() {
            self.values[idx].as_ref()
        } else {
            None
        }
    }

    /// Overwrites one user-defined field; out-of-range indexes are ignored.
    pub fn set_value_at(&mut self, idx: usize, value: String)
        ensures
            idx < old(self).values@.len() ==> final(self).values@ == old(self).values@.update(
                idx as int,
                Some(value),
            ),
            idx >= old(self).values@.len() ==> final(self).values@ == old(self).values@,
    {
        if idx < self.values.len() {
            self.values.set(idx, Some(value));
        }
    }
}

/// Model equality for user-defined field sets.
pub open spec fn udf_eq(a: Udf, b: Udf) -> bool {
    a.values@ == b.values@
}

impl Clone for Udf {
    fn clone(&self) -> (r: Self)
        ensures
            udf_eq(*self, r),
    {
        let r = Udf { values: self.values.clone() };
        proof {
            assert(self.values@ =~= r.values@);
        }
        r
    }
}

#[derive(Debug)]
pub struct Device {
    pub id: i32,
    pub uid: String,
    pub site_id: i32,
    pub site_uid: String,
    pub site_name: Option<String>,
    pub hostname: String,
    pub description: Option<String>,
    pub online: bool,
    pub operating_system: Option<String>,
    pub int_ip_address: Option<String>,
    pub ext_ip_address: Option<String>,
    pub last_logged_in_user: Option<String>,
    pub domain: Option<String>,
    pub last_seen: Option<String>,
    pub last_reboot: Option<String>,
    pub warranty_date: Option<String>,
    pub reboot_required: Option<bool>,
    pub device_type: Option<DeviceType>,
    pub patch_management: Option<PatchManagement>,
    pub udf: Option<Udf>,
    pub antivirus: Option<Antivirus>,
}

/// The index of the user-defined field that caches a security agent's
/// identifier.
pub const AGENT_ID_UDF_SLOT: usize = 29;

/// What a device currently caches as its security agent identifier: the
/// last user-defined field, empty when unset.
pub open spec fn spec_cached_agent_id(d: Device) -> Seq<char> {
    match d.udf {
        Some(u) => match u.spec_value_at(AGENT_ID_UDF_SLOT as int) {
            Some(s) => s@,
            None => Seq::empty(),
        },
        None => Seq::empty(),
    }
}

/// The user-defined fields after caching an agent identifier: the last
/// slot is overwritten in place; a device without any gets a fresh set
/// with only that slot filled.
pub open spec fn spec_udf_values_with_agent_id(a: Option<Udf>, id: String) -> Seq<Option<String>> {
    match a {
        Some(u) => if (AGENT_ID_UDF_SLOT as int) < u.values@.len() {
            u.values@.update(AGENT_ID_UDF_SLOT as int, Some(id))
        } else {
            u.values@
        },
        None => Seq::new(UDF_COUNT as nat, |i: int| if i == AGENT_ID_UDF_SLOT as int {
            Some(id)
        } else {
            None
        }),
    }
}

/// The user-defined fields after caching an agent identifier, compared by
/// contents: the cache slot holds the identifier, the others are kept (a
/// short set is kept whole; a missing set becomes a fresh one).
pub open spec fn udf_values_cache_id(a: Option<Udf>, id: Seq<char>, vals: Seq<Option<String>>) -> bool {
    match a {
        Some(u) => if (AGENT_ID_UDF_SLOT as int) < u.values@.len() {
            &&& vals.len() == u.values@.len()
            &&& (vals[AGENT_ID_UDF_SLOT as int] matches Some(s) && s@ == id)
            &&& forall|j: int|
                0 <= j < vals.len() && j != AGENT_ID_UDF_SLOT as int ==> vals[j] == u.values@[j]
        } else {
            vals == u.values@
        },
        None => {
            &&& vals.len() == UDF_COUNT
            &&& (vals[AGENT_ID_UDF_SLOT as int] matches Some(s) && s@ == id)
            &&& forall|j: int|
                0 <= j < vals.len() && j != AGENT_ID_UDF_SLOT as int ==> vals[j] is None
        },
    }
}

/// `b` is `a` with the agent identifier cached in its user-defined
/// fields and every other field kept.
pub open spec fn device_cached_id(a: Device, id: Seq<char>, b: Device) -> bool {
    &&& b == Device { udf: b.udf, ..a }
    &&& match b.udf {
        Some(u) => udf_values_cache_id(a.udf, id, u.values@),
        None => false,
    }
}

/// Model equality for devices: all fields equal, with the user-defined
/// fields compared by contents.
pub open spec fn device_eq(a: Device, b: Device) -> bool {
    &&& b == Device { udf: b.udf, ..a }
    &&& match (a.udf, b.udf) {
        (Some(ua), Some(ub)) => udf_eq(ua, ub),
        (None, None) => true,
        _ => false,
    }
}

impl Clone for Device {
    fn clone(&self) -> (r: Self)
        ensures
            device_eq(*self, r),
    {
        Device {
            id: self.id,
            uid: self.uid.clone(),
            site_id: self.site_id,
            site_uid: self.site_uid.clone(),
            site_name: self.site_name.clone(),
            hostname: self.hostname.clone(),
            description: self.description.clone(),
            online: self.online,
            operating_system: self.operating_system.clone(),
            int_ip_address: self.int_ip_address.clone(),
            ext_ip_address: self.ext_ip_address.clone(),
            last_logged_in_user: self.last_logged_in_user.clone(),
            domain: self.domain.clone(),
            last_seen: self.last_seen.clone(),
            last_reboot: self.last_reboot.clone(),
            warranty_date: self.warranty_date.clone(),
            reboot_required: self.reboot_required,
            device_type: self.device_type.clone(),
            patch_management: self.patch_management.clone(),
            udf: match &self.udf {
                Some(u) => Some(u.clone()),
                None => None,
            },
            antivirus: self.antivirus.clone(),
        }
    }
}

#[derive(Debug)]
pub struct DevicesResponse {
    pub page_details: PageDetails,
    pub devices: Vec<Device>,
}

#[derive(Debug)]
pub struct ActivitySite {
    pub id: i32,
    pub name: Option<String>,
}

impl Clone for ActivitySite {
    fn clone(&self) -> (r: Self)
        ensures
            r == *self,
    {
        ActivitySite { id: self.id, name: self.name.clone() }
    }
}

#[derive(Debug)]
pub struct ActivityUser {
    pub id: i32,
    pub user_name: Option<String>,
    pub first_name: Option<String>,
    pub last_name: Option<String>,
}

impl Clone for ActivityUser {
    fn clone(&self) -> (r: Self)
        ensures
            r == *self,
    {
        ActivityUser {
            id: self.id,
            user_name: self.user_name.clone(),
            first_name: self.first_name.clone(),
            last_name: self.last_name.clone(),
        }
    }
}

#[derive(Debug)]
pub struct ActivityLog {
    pub id: Option<String>,
    pub entity: Option<String>,
    pub category: Option<String>,
    pub action: Option<String>,
    /// Timestamp in milliseconds since the epoch.
    pub date: Option<i64>,
    pub site: Option<ActivitySite>,
    pub device_id: Option<i32>,
    pub hostname: Option<String>,
    pub user: Option<ActivityUser>,
    /// Raw detail payload; the job identifier, if any, is extracted from it.
    pub details: Option<String>,
    pub has_std_out: Option<bool>,
    pub has_std_err: Option<bool>,
}

impl Clone for ActivityLog {
    fn clone(&self) -> (r: Self)
        ensures
            r == *self,
    {
        ActivityLog {
            id: self.id.clone(),
            entity: self.entity.clone(),
            category: self.category.clone(),
            action: self.action.clone(),
            date: self.date,
            site: self.site.clone(),
            device_id: self.device_id,
            hostname: self.hostname.clone(),
            user: self.user.clone(),
            details: self.details.clone(),
            has_std_out: self.has_std_out,
            has_std_err: self.has_std_err,
        }
    }
}

#[derive(Debug)]
pub struct ActivityLogsResponse {
    pub page_details: Option<PageDetails>,
    pub activities: Vec<ActivityLog>,
    pub error: Option<String>,
}

#[derive(Debug)]
pub struct ComponentResult {
    pub component_uid: Option<String>,
    pub component_name: Option<String>,
    pub component_status: Option<String>,
    pub number_of_warnings: Option<i32>,
    pub has_std_out: Option<bool>,
    pub has_std_err: Option<bool>,
}

impl Clone for ComponentResult {
    fn clone(&self) -> (r: Self)
        ensures
            r == *self,
    {
        ComponentResult {
            component_uid: self.component_uid.clone(),
            component_name: self.component_name.clone(),
            component_status: self.component_status.clone(),
            number_of_warnings: self.number_of_warnings,
            has_std_out: self.has_std_out,
            has_std_err: self.has_std_err,
        }
    }
}

#[derive(Debug)]
pub struct JobResult {
    pub job_uid: Option<String>,
    pub device_uid: Option<String>,
    pub ran_on: Option<String>,
    pub job_deployment_status: Option<String>,
    pub component_results: Option<Vec<ComponentResult>>,
}

#[derive(Debug)]
pub struct JobStdOutput {
    pub component_uid: Option<String>,
    pub component_name: Option<String>,
    pub std_data: Option<String>,
}

impl Clone for JobStdOutput {
    fn clone(&self) -> (r: Self)
        ensures
            r == *self,
    {
        JobStdOutput {
            component_uid: self.component_uid.clone(),
            component_name: self.component_name.clone(),
            std_data: self.std_data.clone(),
        }
    }
}

#[derive(Debug)]
pub struct AlertMonitorInfo {
    pub sends_emails: Option<bool>,
    pub creates_ticket: Option<bool>,
}

#[derive(Debug)]
pub struct AlertContext {
    pub class: Option<String>,
    pub package_name: Option<String>,
    pub action_type: Option<String>,
    pub prev_version: Option<String>,
    pub version: Option<String>,
}

#[derive(Debug)]
pub struct AlertSourceInfo {
    pub device_uid: Option<String>,
    pub device_name: Option<String>,
    pub site_uid: Option<String>,
    pub site_name: Option<String>,
}

#[derive(Debug)]
pub struct AlertResponseAction {
    pub action_time: Option<String>,
    pub action_type: Option<String>,
    pub description: Option<String>,
    pub action_reference: Option<String>,
}

#[derive(Debug)]
pub struct Alert {
    pub alert_uid: Option<String>,
    pub priority: Option<String>,
    pub diagnostics: Option<String>,
    pub resolved: Option<bool>,
    pub resolved_by: Option<String>,
    pub resolved_on: Option<String>,
    pub muted: Option<bool>,
    pub ticket_number: Option<String>,
    pub timestamp: Option<String>,
    pub alert_monitor_info: Option<AlertMonitorInfo>,
    pub alert_context: Option<AlertContext>,
    pub alert_source_info: Option<AlertSourceInfo>,
    pub response_actions: Option<Vec<AlertResponseAction>>,
    pub autoresolve_mins: Option<i32>,
}

#[derive(Debug)]
pub struct ComponentVariable {
    pub name: String,
    pub default_val: Option<String>,
    pub variable_type: Option<String>,
    pub description: Option<String>,
    pub variables_idx: Option<i32>,
}

impl Clone for ComponentVariable {
    fn clone(&self) -> (r: Self)
        ensures
            r == *self,
    {
        ComponentVariable {
            name: self.name.clone(),
            default_val: self.default_val.clone(),
            variable_type: self.variable_type.clone(),
            description: self.description.clone(),
            variables_idx: self.variables_idx,
        }
    }
}

#[derive(Debug)]
pub struct Component {
    pub id: i32,
    pub uid: String,
    pub name: String,
    pub description: Option<String>,
    pub category_code: Option<String>,
    pub credentials_required: Option<bool>,
    pub variables: Option<Vec<ComponentVariable>>,
}

/// Model equality for components: all scalar fields equal, and the
/// variable lists hold the same entries.
pub open spec fn component_eq(a: Component, b: Component) -> bool {
    &&& b == Component { variables: b.variables, ..a }
    &&& match (a.variables, b.variables) {
        (Some(va), Some(vb)) => va@ == vb@,
        (None, None) => true,
        _ => false,
    }
}

impl Clone for Component {
    fn clone(&self) -> (r: Self)
        ensures
            component_eq(*self, r),
    {
        let r = Component {
            id: self.id,
            uid: self.uid.clone(),
            name: self.name.clone(),
            description: self.description.clone(),
            category_code: self.category_code.clone(),
            credentials_required: self.credentials_required,
            variables: self.variables.clone(),
        };
        proof {
            if self.variables is Some {
                assert(self.variables->0@ =~= r.variables->0@);
            }
        }
        r
    }
}

#[derive(Debug)]
pub struct ComponentsResponse {
    pub page_details: PageDetails,
    pub components: Vec<Component>,
}

#[derive(Debug)]
pub struct QuickJobVariable {
    pub name: String,
    pub value: String,
}

impl Clone for QuickJobVariable {
    fn clone(&self) -> (r: Self)
        ensures
            r == *self,
    {
        QuickJobVariable { name: self.name.clone(), value: self.value.clone() }
    }
}

#[derive(Debug)]
pub struct QuickJobComponent {
    pub component_uid: String,
    pub variables: Vec<QuickJobVariable>,
}

#[derive(Debug)]
pub struct QuickJobRequest {
    pub job_name: String,
    pub job_component: QuickJobComponent,
}

#[derive(Debug)]
pub struct QuickJobResponse {
    pub job_uid: Option<String>,
    pub job_name: Option<String>,
    pub job_status: Option<String>,
}

impl Clone for QuickJobResponse {
    fn clone(&self) -> (r: Self)
        ensures
            r == *self,
    {
        QuickJobResponse {
            job_uid: self.job_uid.clone(),
            job_name: self.job_name.clone(),
            job_status: self.job_status.clone(),
        }
    }
}

#[derive(Debug)]
pub struct CreateVariableRequest {
    pub name: String,
    pub value: String,
    pub masked: bool,
}

#[derive(Debug)]
pub struct UpdateVariableRequest {
    pub name: String,
    pub value: String,
}

#[derive(Debug)]
pub struct UpdateSiteRequest {
    pub name: String,
    pub description: Option<String>,
    pub notes: Option<String>,
    pub on_demand: Option<bool>,
    pub splashtop_auto_install: Option<bool>,
}

impl Clone for UpdateSiteRequest {
    fn clone(&self) -> (r: Self)
        ensures
            r == *self,
    {
        UpdateSiteRequest {
            name: self.name.clone(),
            description: self.description.clone(),
            notes: self.notes.clone(),
            on_demand: self.on_demand,
            splashtop_auto_install: self.splashtop_auto_install,
        }
    }
}

} // verus!
