//! Completion handling: how each "operation completed" message changes
//! the state.
//!
//! Completions are applied regardless of the active screen, so background
//! refreshes never wait for the user; the one gate is the dispatch
//! ordinal, which drops results a newer dispatch for the same slot has
//! superseded.

use vstd::prelude::*;
use vstd::string::StringExecFns;
use crate::app::App;
use crate::datto::{
    site_with_vars, ActivityLogsResponse, Alert, Device, DevicesResponse, JobResult, Site,
    SiteVariable, SitesResponse,
};
use crate::datto_av::Alert as AvAlert;
use crate::list::PaginatedList;
use crate::modal::{Modal, SiteEditField, SiteEditState};
use crate::msg::{DispatchRequest, Ordinals, ScanStatus};
use crate::rocket_cyber::Incident;
use crate::sophos::Case;
use crate::stats::{
    aggregate_incidents, count_cases, spec_aggregate, spec_count_cases, spec_find_var,
    find_variable,
};
use crate::store::spec_bump;

verus! {

/// The ordinal a keyed slot map carries, zero where none is.
pub open spec fn ord_at(m: Map<Seq<char>, u64>, k: Seq<char>) -> u64 {
    if m.contains_key(k) {
        m[k]
    } else {
        0
    }
}

/// The keyed ordinals and requests left behind by issuing one
/// variable-fetch per site, in order.
pub open spec fn spec_issue_var_fetches(m: Map<Seq<char>, u64>, sites: Seq<Site>) -> (
    Map<Seq<char>, u64>,
    Seq<DispatchRequest>,
)
    decreases sites.len(),
{
    if sites.len() == 0 {
        (m, Seq::empty())
    } else {
        let r = spec_issue_var_fetches(m, sites.drop_last());
        let o = spec_bump(ord_at(r.0, sites.last().uid@));
        (
            r.0.insert(sites.last().uid@, o),
            r.1.push(DispatchRequest::FetchSiteVariables { site_uid: sites.last().uid, ordinal: o }),
        )
    }
}

/// The total count a list response reports, zero where it reports none.
pub open spec fn spec_total_count(tc: Option<i32>) -> i32 {
    match tc {
        Some(c) => c,
        None => 0,
    }
}

/// How many pages a total count spans, at least one.
pub open spec fn spec_total_pages(c: i32) -> int {
    if c > 0 {
        (c as int) / (crate::app::PAGE_SIZE as int) + (if (c as int) % (crate::app::PAGE_SIZE as int)
            != 0 {
            1int
        } else {
            0int
        })
    } else {
        1int
    }
}

/// The index of the first site carrying a uid.
pub open spec fn spec_first_site_index(sites: Seq<Site>, uid: Seq<char>) -> Option<int>
    decreases sites.len(),
{
    if sites.len() == 0 {
        None
    } else if sites[0].uid@ == uid {
        Some(0int)
    } else {
        match spec_first_site_index(sites.drop_first(), uid) {
            Some(i) => Some(i + 1),
            None => None,
        }
    }
}

/// The index of the first variable carrying an identifier.
pub open spec fn spec_first_var_index(vars: Seq<SiteVariable>, id: i32) -> Option<int>
    decreases vars.len(),
{
    if vars.len() == 0 {
        None
    } else if vars[0].id == id {
        Some(0int)
    } else {
        match spec_first_var_index(vars.drop_first(), id) {
            Some(i) => Some(i + 1),
            None => None,
        }
    }
}

/// The secondary-source fetch a fresh variable list calls for: when the
/// provider variable reads "Sophos" and a tenant identifier is attached,
/// the tenant's identifier variable and the optional region variable.
pub open spec fn spec_mdr_target(vars: Seq<SiteVariable>) -> Option<
    (SiteVariable, Option<SiteVariable>),
> {
    match spec_find_var(vars, "tuiMdrProvider"@) {
        Some(p) => if p.value@ == "Sophos"@ {
            match spec_find_var(vars, "tuiMdrId"@) {
                Some(idv) => Some((idv, spec_find_var(vars, "tuiMdrRegion"@))),
                None => None,
            }
        } else {
            None
        },
        None => None,
    }
}

/// The editable settings copy a site populates: its texts (missing ones
/// empty), its toggles (missing ones off), the name field active.
pub open spec fn edit_state_matches(s: Site, e: SiteEditState) -> bool {
    &&& e.name@ == s.name@
    &&& e.description@ == (match s.description {
        Some(d) => d@,
        None => Seq::<char>::empty(),
    })
    &&& e.notes@ == (match s.notes {
        Some(n) => n@,
        None => Seq::<char>::empty(),
    })
    &&& e.on_demand == (s.on_demand == Some(true))
    &&& e.splashtop_auto_install == (s.splashtop_auto_install == Some(true))
    &&& e.active_field == SiteEditField::Name
    &&& e.is_editing
}

/// Finds the first site carrying a uid.
pub fn find_site_index(sites: &Vec<Site>, uid: &str) -> (r: Option<usize>)
    ensures
        match r {
            Some(i) => i < sites@.len() && sites@[i as int].uid@ == uid@
                && spec_first_site_index(sites@, uid@) == Some(i as int),
            None => spec_first_site_index(sites@, uid@) is None,
        },
{
    let n = sites.len();
    let mut i: usize = 0;
    proof {
        assert(sites@.skip(0) =~= sites@);
    }
    while i < n
        invariant
            n == sites@.len(),
            i <= n,
            spec_first_site_index(sites@, uid@) == (match spec_first_site_index(
                sites@.skip(i as int),
                uid@,
            ) {
                Some(k) => Some(k + i),
                None => None::<int>,
            }),
        decreases n - i,
    {
        if crate::strings::str_eq_str(sites[i].uid.as_str(), uid) {
            proof {
                assert(sites@.skip(i as int)[0] == sites@[i as int]);
            }
            return Some(i);
        }
        proof {
            assert(sites@.skip(i as int)[0] == sites@[i as int]);
            assert(sites@.skip(i as int).drop_first() =~= sites@.skip(i + 1));
        }
        i = i + 1;
    }
    proof {
        assert(sites@.skip(n as int).len() == 0);
    }
    None
}

/// Finds the first variable carrying an identifier.
pub fn find_var_index(vars: &Vec<SiteVariable>, id: i32) -> (r: Option<usize>)
    ensures
        match r {
            Some(i) => i < vars@.len() && vars@[i as int].id == id && spec_first_var_index(
                vars@,
                id,
            ) == Some(i as int),
            None => spec_first_var_index(vars@, id) is None,
        },
{
    let n = vars.len();
    let mut i: usize = 0;
    proof {
        assert(vars@.skip(0) =~= vars@);
    }
    while i < n
        invariant
            n == vars@.len(),
            i <= n,
            spec_first_var_index(vars@, id) == (match spec_first_var_index(
                vars@.skip(i as int),
                id,
            ) {
                Some(k) => Some(k + i),
                None => None::<int>,
            }),
        decreases n - i,
    {
        if vars[i].id == id {
            proof {
                assert(vars@.skip(i as int)[0] == vars@[i as int]);
            }
            return Some(i);
        }
        proof {
            assert(vars@.skip(i as int)[0] == vars@[i as int]);
            assert(vars@.skip(i as int).drop_first() =~= vars@.skip(i + 1));
        }
        i = i + 1;
    }
    proof {
        assert(vars@.skip(n as int).len() == 0);
    }
    None
}

/// Copies a site's attached variable list.
pub fn clone_site_vars(v: &Option<Vec<SiteVariable>>) -> (r: Option<Vec<SiteVariable>>)
    ensures
        match *v {
            Some(a) => r matches Some(b) && a@ == b@,
            None => r is None,
        },
{
    match v {
        Some(a) => {
            let b = a.clone();
            proof {
                assert(a@ =~= b@);
            }
            Some(b)
        },
        None => None,
    }
}

impl App {
    /// A device-list completion: applied only when current; the device
    /// list is replaced wholesale and its cursor reset.
    pub fn on_devices_fetched(&mut self, ordinal: u64, result: Result<DevicesResponse, String>) -> (reqs: Vec<DispatchRequest>)
        requires
            old(self).wf(),
        ensures
            final(self).wf(),
            on_devices_fetched_post(*old(self), ordinal, result, *final(self), reqs@),
    {
        if ordinal == self.ords.devices {
            match result {
                Ok(resp) => self.devices.replace(resp.devices),
                Err(e) => self.devices.fail(e),
            }
        }
        Vec::new()
    }

    /// An activity-log completion, gated by its ordinal.
    pub fn on_activity_logs_fetched(
        &mut self,
        ordinal: u64,
        result: Result<ActivityLogsResponse, String>,
    ) -> (reqs: Vec<DispatchRequest>)
        requires
            old(self).wf(),
        ensures
            final(self).wf(),
            on_activity_logs_fetched_post(*old(self), ordinal, result, *final(self), reqs@),
    {
        if ordinal == self.ords.activity_logs {
            match result {
                Ok(resp) => self.activity_logs.replace(resp.activities),
                Err(e) => self.activity_logs.fail(e),
            }
        }
        Vec::new()
    }

    /// An open-alerts completion: applied only when current and only when
    /// the selected device is still the one it answers.
    pub fn on_open_alerts_fetched(
        &mut self,
        device_uid: String,
        ordinal: u64,
        result: Result<Vec<Alert>, String>,
    ) -> (reqs: Vec<DispatchRequest>)
        requires
            old(self).wf(),
        ensures
            final(self).wf(),
            on_open_alerts_fetched_post(*old(self), device_uid, ordinal, result, *final(self), reqs@),
    {
        let for_selected = match &self.selected_device {
            Some(d) => crate::strings::str_eq_str(d.uid.as_str(), device_uid.as_str()),
            None => false,
        };
        if ordinal == self.ords.open_alerts && for_selected {
            match result {
                Ok(alerts) => self.open_alerts.replace(alerts),
                Err(e) => self.open_alerts.fail(e),
            }
        }
        Vec::new()
    }

    /// A job-result completion, gated by its ordinal.
    pub fn on_job_result_fetched(&mut self, ordinal: u64, result: Result<JobResult, String>) -> (reqs: Vec<DispatchRequest>)
        requires
            old(self).wf(),
        ensures
            final(self).wf(),
            on_job_result_fetched_post(*old(self), ordinal, result, *final(self), reqs@),
    {
        if ordinal == self.ords.job_result {
            self.job_result_loading = false;
            match result {
                Ok(jr) => self.selected_job_result = Some(jr),
                Err(e) => self.job_result_error = Some(e),
            }
        }
        Vec::new()
    }

    /// A scan-status change for one host.
    pub fn on_scan_status_changed(&mut self, hostname: String, status: ScanStatus) -> (reqs: Vec<DispatchRequest>)
        requires
            old(self).wf(),
        ensures
            final(self).wf(),
            on_scan_status_changed_post(*old(self), hostname, status, *final(self), reqs@),
    {
        self.scan_status.insert(hostname, status);
        Vec::new()
    }

    /// A per-host alert-list completion from the second security backend,
    /// gated by that host's ordinal; a failure is ignored.
    pub fn on_datto_av_alerts_fetched(
        &mut self,
        hostname: String,
        ordinal: u64,
        result: Result<Vec<AvAlert>, String>,
    ) -> (reqs: Vec<DispatchRequest>)
        requires
            old(self).wf(),
        ensures
            final(self).wf(),
            on_datto_av_alerts_fetched_post(*old(self), hostname, ordinal, result, *final(self), reqs@),
    {
        if ordinal == self.datto_av_alert_ordinals.ordinal(&hostname) {
            match result {
                Ok(alerts) => self.datto_av_alerts.insert(hostname, alerts),
                Err(_) => (),
            }
        }
        Vec::new()
    }

    /// A per-host policy payload from the second security backend, gated
    /// by that host's ordinal; a failure is ignored.
    pub fn on_datto_av_policies_fetched(
        &mut self,
        hostname: String,
        ordinal: u64,
        result: Result<String, String>,
    ) -> (reqs: Vec<DispatchRequest>)
        requires
            old(self).wf(),
        ensures
            final(self).wf(),
            on_datto_av_policies_fetched_post(*old(self), hostname, ordinal, result, *final(self), reqs@),
    {
        if ordinal == self.datto_av_policy_ordinals.ordinal(&hostname) {
            match result {
                Ok(policies) => self.datto_av_policies.insert(hostname, policies),
                Err(_) => (),
            }
        }
        Vec::new()
    }

    /// An incident-feed completion: the feed is replaced wholesale and the
    /// aggregate counts rebuilt from it.
    pub fn on_incidents_fetched(&mut self, ordinal: u64, result: Result<Vec<Incident>, String>) -> (reqs: Vec<DispatchRequest>)
        requires
            old(self).wf(),
        ensures
            final(self).wf(),
            on_incidents_fetched_post(*old(self), ordinal, result, *final(self), reqs@),
    {
        if ordinal == self.ords.incidents {
            match result {
                Ok(list) => {
                    self.incident_stats = aggregate_incidents(&list);
                    self.incidents = list;
                },
                Err(e) => {
                    self.error = Some(
                        crate::app::make_string("failed to fetch incidents: ").concat(e.as_str()),
                    );
                },
            }
        }
        Vec::new()
    }

    /// A per-tenant case-list completion: the tenant's counts are reset to
    /// the counts over the fetched cases.
    pub fn on_sophos_cases_fetched(
        &mut self,
        tenant_id: String,
        ordinal: u64,
        result: Result<Vec<Case>, String>,
    ) -> (reqs: Vec<DispatchRequest>)
        requires
            old(self).wf(),
        ensures
            final(self).wf(),
            on_sophos_cases_fetched_post(*old(self), tenant_id, ordinal, result, *final(self), reqs@),
    {
        if ordinal == self.sophos_case_ordinals.ordinal(&tenant_id) {
            match result {
                Ok(cases) => {
                    let counts = count_cases(&cases);
                    self.incident_stats.insert(tenant_id, counts);
                },
                Err(e) => {
                    self.error = Some(
                        crate::app::make_string("failed to fetch cases for ").concat(
                            tenant_id.as_str(),
                        ).concat(": ").concat(e.as_str()),
                    );
                },
            }
        }
        Vec::new()
    }

    /// A scan-start acknowledgement from the first security backend: on
    /// success a status update is scheduled; on failure the host's scan
    /// marker is dropped and the error surfaced.
    pub fn on_sophos_scan_started(&mut self, hostname: String, result: Result<(), String>) -> (reqs: Vec<DispatchRequest>)
        requires
            old(self).wf(),
        ensures
            final(self).wf(),
            on_sophos_scan_started_post(*old(self), hostname, result, *final(self), reqs@),
    {
        let mut reqs: Vec<DispatchRequest> = Vec::new();
        match result {
            Ok(_) => {
                reqs.push(DispatchRequest::ScheduleScanStatus { hostname });
                proof {
                    assert(reqs@ =~= seq![
                        DispatchRequest::ScheduleScanStatus { hostname: hostname },
                    ]);
                }
            },
            Err(e) => {
                self.scan_status.remove(&hostname);
                self.error = Some(
                    crate::app::make_string("failed to start scan for ").concat(
                        hostname.as_str(),
                    ).concat(": ").concat(e.as_str()),
                );
            },
        }
        reqs
    }

    /// A scan-start acknowledgement from the second security backend,
    /// handled like the first's.
    pub fn on_datto_av_scan_started(&mut self, hostname: String, result: Result<(), String>) -> (reqs: Vec<DispatchRequest>)
        requires
            old(self).wf(),
        ensures
            final(self).wf(),
            on_datto_av_scan_started_post(*old(self), hostname, result, *final(self), reqs@),
    {
        let mut reqs: Vec<DispatchRequest> = Vec::new();
        match result {
            Ok(_) => {
                reqs.push(DispatchRequest::ScheduleScanStatus { hostname });
                proof {
                    assert(reqs@ =~= seq![
                        DispatchRequest::ScheduleScanStatus { hostname: hostname },
                    ]);
                }
            },
            Err(e) => {
                self.scan_status.remove(&hostname);
                self.error = Some(
                    crate::app::make_string("failed to start scan for ").concat(
                        hostname.as_str(),
                    ).concat(": ").concat(e.as_str()),
                );
            },
        }
        reqs
    }

    /// A device write completion for a user-defined field: success keeps
    /// the already-applied value and discards the rollback snapshot; a
    /// failure restores the snapshot on the still-selected device and
    /// surfaces the error.
    pub fn on_udf_updated(
        &mut self,
        device_uid: String,
        ordinal: u64,
        result: Result<(), String>,
    ) -> (reqs: Vec<DispatchRequest>)
        requires
            old(self).wf(),
        ensures
            final(self).wf(),
            on_udf_updated_post(*old(self), device_uid, ordinal, result, *final(self), reqs@),
    {
        if ordinal != self.ords.udf_write {
            return Vec::new();
        }
        match result {
            Ok(_) => {
                let clear = match &self.pending_udf_edit {
                    Some(p) => p.ordinal == ordinal,
                    None => false,
                };
                if clear {
                    self.pending_udf_edit = None;
                }
            },
            Err(e) => {
                let mut pending: Option<crate::modal::PendingUdfEdit> = None;
                core::mem::swap(&mut pending, &mut self.pending_udf_edit);
                match pending {
                    Some(p) => {
                        if p.ordinal == ordinal {
                            let matches_selected = match &self.selected_device {
                                Some(d) => crate::strings::str_eq_str(
                                    d.uid.as_str(),
                                    p.device_uid.as_str(),
                                ),
                                None => false,
                            };
                            if matches_selected {
                                let mut sd: Option<Device> = None;
                                core::mem::swap(&mut sd, &mut self.selected_device);
                                match sd {
                                    Some(d) => {
                                        self.selected_device = Some(
                                            Device { udf: p.snapshot, ..d },
                                        );
                                    },
                                    None => (),
                                }
                            }
                        } else {
                            self.pending_udf_edit = Some(p);
                        }
                    },
                    None => (),
                }
                self.error = Some(e);
            },
        }
        Vec::new()
    }

    /// A site-list completion: the list is replaced wholesale (the fetch
    /// layer hands it sorted), the page totals recomputed, and one
    /// variable fetch issued per site on the page.
    pub fn on_sites_fetched(&mut self, ordinal: u64, result: Result<SitesResponse, String>) -> (reqs: Vec<DispatchRequest>)
        requires
            old(self).wf(),
        ensures
            final(self).wf(),
            on_sites_fetched_post(*old(self), ordinal, result, *final(self), reqs@),
    {
        let mut reqs: Vec<DispatchRequest> = Vec::new();
        if ordinal != self.ords.sites {
            return reqs;
        }
        match result {
            Ok(resp) => {
                let ghost m0 = self.var_ordinals@;
                self.sites.replace(resp.sites);
                self.total_count = match resp.page_details.total_count {
                    Some(c) => c,
                    None => 0,
                };
                self.total_pages = if self.total_count > 0 {
                    self.total_count / crate::app::PAGE_SIZE + (
                    if self.total_count % crate::app::PAGE_SIZE != 0 {
                        1
                    } else {
                        0
                    })
                } else {
                    1
                };
                let ghost mid = *self;
                let n = self.sites.items.len();
                let mut i: usize = 0;
                proof {
                    assert(mid.sites.items@.take(0) =~= Seq::<Site>::empty());
                }
                while i < n
                    invariant
                        *self == (App { var_ordinals: self.var_ordinals, ..mid }),
                        self.var_ordinals.wf(),
                        n == mid.sites.items@.len(),
                        i <= n,
                        self.var_ordinals@ == spec_issue_var_fetches(
                            m0,
                            mid.sites.items@.take(i as int),
                        ).0,
                        reqs@ == spec_issue_var_fetches(m0, mid.sites.items@.take(i as int)).1,
                    decreases n - i,
                {
                    let uid = self.sites.items[i].uid.clone();
                    let o = self.var_ordinals.bump(&uid);
                    reqs.push(DispatchRequest::FetchSiteVariables { site_uid: uid, ordinal: o });
                    proof {
                        let t = mid.sites.items@.take(i + 1);
                        assert(t.drop_last() =~= mid.sites.items@.take(i as int));
                        assert(t.last() == mid.sites.items@[i as int]);
                        assert(reqs@ =~= spec_issue_var_fetches(m0, t).1);
                    }
                    i = i + 1;
                }
                proof {
                    assert(mid.sites.items@.take(n as int) =~= mid.sites.items@);
                }
            },
            Err(e) => {
                self.sites.fail(e);
            },
        }
        reqs
    }

    /// A per-site variable-list completion, gated by that site's ordinal:
    /// the list is attached to its site, and when it names a managed
    /// detection provider, the tenant's case fetch is issued.
    #[verifier::rlimit(60)]
    pub fn on_site_variables_fetched(
        &mut self,
        site_uid: String,
        ordinal: u64,
        result: Result<Vec<SiteVariable>, String>,
    ) -> (reqs: Vec<DispatchRequest>)
        requires
            old(self).wf(),
        ensures
            final(self).wf(),
            on_site_variables_fetched_post(*old(self), site_uid, ordinal, result, *final(self), reqs@),
    {
        let mut reqs: Vec<DispatchRequest> = Vec::new();
        if ordinal != self.var_ordinals.ordinal(&site_uid) {
            return reqs;
        }
        match result {
            Ok(vars) => {
                let provider_is_sophos = match find_variable(&vars, "tuiMdrProvider") {
                    Some(p) => crate::strings::string_is(&p.value, "Sophos"),
                    None => false,
                };
                if provider_is_sophos {
                    if let Some(idv) = find_variable(&vars, "tuiMdrId") {
                        let region: Option<String> = match find_variable(&vars, "tuiMdrRegion") {
                            Some(rv) => Some(rv.value.clone()),
                            None => None,
                        };
                        let tenant = idv.value.clone();
                        let mut more = self.fetch_sophos_cases(tenant, region);
                        reqs.append(&mut more);
                    }
                }
                if let Some(idx) = find_site_index(&self.sites.items, site_uid.as_str()) {
                    let old_site = self.sites.items[idx].clone();
                    let replacement = Site { variables: Some(vars), ..old_site };
                    self.sites.items.set(idx, replacement);
                }
            },
            Err(_) => (),
        }
        reqs
    }

    /// A variable-creation completion: success refreshes the site's
    /// variable list; failure surfaces the error.
    pub fn on_variable_created(
        &mut self,
        site_uid: String,
        ordinal: u64,
        result: Result<SiteVariable, String>,
    ) -> (reqs: Vec<DispatchRequest>)
        requires
            old(self).wf(),
        ensures
            final(self).wf(),
            on_variable_created_post(*old(self), site_uid, ordinal, result, *final(self), reqs@),
    {
        let mut reqs: Vec<DispatchRequest> = Vec::new();
        if ordinal != self.ords.var_write {
            return reqs;
        }
        self.sites.loading = false;
        match result {
            Ok(_) => {
                let mut more = self.fetch_site_variables(site_uid);
                reqs.append(&mut more);
            },
            Err(e) => {
                self.error = Some(e);
            },
        }
        reqs
    }

    /// A variable-update completion: success rewrites the one variable in
    /// place, giving immediate feedback without a refresh; failure
    /// surfaces the error.
    pub fn on_variable_updated(
        &mut self,
        site_uid: String,
        ordinal: u64,
        result: Result<SiteVariable, String>,
    ) -> (reqs: Vec<DispatchRequest>)
        requires
            old(self).wf(),
        ensures
            final(self).wf(),
            on_variable_updated_post(*old(self), site_uid, ordinal, result, *final(self), reqs@),
    {
        if ordinal != self.ords.var_write {
            return Vec::new();
        }
        self.sites.loading = false;
        match result {
            Ok(updated) => {
                if let Some(idx) = find_site_index(&self.sites.items, site_uid.as_str()) {
                    let old_site = self.sites.items[idx].clone();
                    match old_site.variables {
                        Some(mut vs) => {
                            if let Some(vi) = find_var_index(&vs, updated.id) {
                                vs.set(vi, updated);
                                let replacement = Site {
                                    variables: Some(vs),
                                    ..self.sites.items[idx].clone()
                                };
                                self.sites.items.set(idx, replacement);
                            }
                        },
                        None => (),
                    }
                }
            },
            Err(e) => {
                self.error = Some(e);
            },
        }
        Vec::new()
    }

    /// Rebuilds the editable settings copy from the selected site.
    pub fn populate_site_edit_state(&mut self)
        requires
            old(self).wf(),
        ensures
            final(self).wf(),
            match old(self).sites.cursor {
                Some(i) => *final(self) == (App {
                    site_edit_state: final(self).site_edit_state,
                    ..*old(self)
                }) && edit_state_matches(
                    old(self).sites.items@[i as int],
                    final(self).site_edit_state,
                ),
                None => *final(self) == *old(self),
            },
    {
        if let Some(i) = self.sites.selected() {
            let site = &self.sites.items[i];
            self.site_edit_state = SiteEditState {
                name: site.name.clone(),
                description: match &site.description {
                    Some(d) => d.clone(),
                    None => String::new(),
                },
                notes: match &site.notes {
                    Some(n) => n.clone(),
                    None => String::new(),
                },
                on_demand: match site.on_demand {
                    Some(b) => b,
                    None => false,
                },
                splashtop_auto_install: match site.splashtop_auto_install {
                    Some(b) => b,
                    None => false,
                },
                active_field: SiteEditField::Name,
                is_editing: true,
            };
        }
    }

    /// A site-update completion. Success replaces the site in the list,
    /// keeping its separately fetched variables, refreshes the settings
    /// copy when that site is selected, and discards the rollback
    /// snapshot: the optimistically applied value stands. Failure
    /// restores the snapshot and surfaces the error.
    #[verifier::rlimit(100)]
    pub fn on_site_updated(&mut self, ordinal: u64, result: Result<Site, String>) -> (reqs: Vec<DispatchRequest>)
        requires
            old(self).wf(),
        ensures
            final(self).wf(),
            on_site_updated_post(*old(self), ordinal, result, *final(self), reqs@),
    {
        if ordinal != self.ords.site_update {
            return Vec::new();
        }
        self.sites.loading = false;
        match result {
            Ok(updated) => {
                self.pending_site_edit = None;
                if let Some(idx) = find_site_index(&self.sites.items, updated.uid.as_str()) {
                    let vars = clone_site_vars(&self.sites.items[idx].variables);
                    let replacement = Site { variables: vars, ..updated };
                    self.sites.items.set(idx, replacement);
                    let selected_here = match self.sites.selected() {
                        Some(c) => c == idx,
                        None => false,
                    };
                    if selected_here {
                        self.populate_site_edit_state();
                    }
                }
            },
            Err(e) => {
                let mut pending: Option<crate::modal::OptimisticEdit> = None;
                core::mem::swap(&mut pending, &mut self.pending_site_edit);
                match pending {
                    Some(p) => {
                        if p.ordinal == ordinal {
                            self.site_edit_state = p.snapshot;
                        } else {
                            self.pending_site_edit = Some(p);
                        }
                    },
                    None => (),
                }
                self.error = Some(e);
            },
        }
        Vec::new()
    }

    /// A search-result completion: applied only while the list picker is
    /// open and only when current; the result list replaces the picker's
    /// rows even if the buffer has changed since.
    pub fn on_device_search_results_fetched(
        &mut self,
        ordinal: u64,
        result: Result<DevicesResponse, String>,
    ) -> (reqs: Vec<DispatchRequest>)
        requires
            old(self).wf(),
        ensures
            final(self).wf(),
            on_device_search_results_fetched_post(*old(self), ordinal, result, *final(self), reqs@),
    {
        let mut modal = Modal::Idle;
        core::mem::swap(&mut modal, &mut self.modal);
        match modal {
            Modal::ListPicker(mut ds) => {
                if ordinal == self.ords.search {
                    match result {
                        Ok(resp) => ds.results.replace(resp.devices),
                        Err(e) => ds.results.fail(e),
                    }
                }
                self.modal = Modal::ListPicker(ds);
            },
            other => {
                self.modal = other;
            },
        }
        Vec::new()
    }
}

/// The index of the first device carrying a hostname.
pub open spec fn spec_first_device_index(devs: Seq<Device>, hostname: Seq<char>) -> Option<int>
    decreases devs.len(),
{
    if devs.len() == 0 {
        None
    } else if devs[0].hostname@ == hostname {
        Some(0int)
    } else {
        match spec_first_device_index(devs.drop_first(), hostname) {
            Some(i) => Some(i + 1),
            None => None,
        }
    }
}

/// Finds the first device carrying a hostname.
pub fn find_device_index(devices: &Vec<Device>, hostname: &str) -> (r: Option<usize>)
    ensures
        match r {
            Some(i) => i < devices@.len() && devices@[i as int].hostname@ == hostname@
                && spec_first_device_index(devices@, hostname@) == Some(i as int),
            None => spec_first_device_index(devices@, hostname@) is None,
        },
{
    let n = devices.len();
    let mut i: usize = 0;
    proof {
        assert(devices@.skip(0) =~= devices@);
    }
    while i < n
        invariant
            n == devices@.len(),
            i <= n,
            spec_first_device_index(devices@, hostname@) == (match spec_first_device_index(
                devices@.skip(i as int),
                hostname@,
            ) {
                Some(k) => Some(k + i),
                None => None::<int>,
            }),
        decreases n - i,
    {
        if crate::strings::str_eq_str(devices[i].hostname.as_str(), hostname) {
            proof {
                assert(devices@.skip(i as int)[0] == devices@[i as int]);
            }
            return Some(i);
        }
        proof {
            assert(devices@.skip(i as int)[0] == devices@[i as int]);
            assert(devices@.skip(i as int).drop_first() =~= devices@.skip(i + 1));
        }
        i = i + 1;
    }
    proof {
        assert(devices@.skip(n as int).len() == 0);
    }
    None
}

/// Whether a device already caches this agent identifier.
pub fn agent_id_cached(d: &Device, id: &String) -> (r: bool)
    ensures
        r == (crate::datto::spec_cached_agent_id(*d) == id@),
{
    match &d.udf {
        Some(u) => match u.value_at(crate::datto::AGENT_ID_UDF_SLOT) {
            Some(s) => crate::strings::str_eq_str(s.as_str(), id.as_str()),
            None => {
                let empty = id.as_str().is_empty();
                proof {
                    if id@.len() == 0 {
                        assert(Seq::<char>::empty() =~= id@);
                    }
                }
                empty
            },
        },
        None => {
            let empty = id.as_str().is_empty();
            proof {
                if id@.len() == 0 {
                    assert(Seq::<char>::empty() =~= id@);
                }
            }
            empty
        },
    }
}

/// Caches an agent identifier on a device's user-defined fields.
pub fn cache_id_on_device(d: Device, id: String) -> (r: Device)
    ensures
        crate::datto::device_cached_id(d, id@, r),
{
    let ghost id0 = id@;
    let mut d = d;
    let mut udf0: Option<crate::datto::Udf> = None;
    core::mem::swap(&mut udf0, &mut d.udf);
    let new_udf = match udf0 {
        Some(mut u) => {
            u.set_value_at(crate::datto::AGENT_ID_UDF_SLOT, id);
            u
        },
        None => crate::fetch::agent_id_udf(id),
    };
    d.udf = Some(new_udf);
    d
}

/// The component index a job row points at.
pub open spec fn spec_row_component(row: crate::jobs::JobViewRow) -> int {
    match row {
        crate::jobs::JobViewRow::ComponentHeader(i) => i as int,
        crate::jobs::JobViewRow::StdOutLink(i) => i as int,
        crate::jobs::JobViewRow::StdErrLink(i) => i as int,
    }
}

/// The first output entry for a component, if any.
pub open spec fn spec_first_output(outputs: Seq<crate::datto::JobStdOutput>, uid: Seq<char>) -> Option<crate::datto::JobStdOutput>
    decreases outputs.len(),
{
    if outputs.len() == 0 {
        None
    } else if outputs[0].component_uid matches Some(u) && u@ == uid {
        Some(outputs[0])
    } else {
        spec_first_output(outputs.drop_first(), uid)
    }
}

/// The text the output popup shows for a fetched output list: the data of
/// the selected component's output entry, or a fixed notice when the entry
/// carries no data, when no entry matches, or when the component has no
/// identifier. Nothing, when no component is selected: the popup keeps its
/// text.
pub open spec fn spec_popup_text(
    jr_opt: Option<JobResult>,
    row: int,
    outputs: Seq<crate::datto::JobStdOutput>,
    nodata: Seq<char>,
    notfound: Seq<char>,
    nouid: Seq<char>,
) -> Option<Seq<char>> {
    match jr_opt {
        None => None,
        Some(jr) => {
            let rows = crate::jobs::spec_rows_of(jr);
            if 0 <= row < rows.len() {
                let ci = spec_row_component(rows[row]);
                match jr.component_results {
                    None => None,
                    Some(cs) => if 0 <= ci < cs.len() {
                        match cs[ci].component_uid {
                            None => Some(nouid),
                            Some(u) => match spec_first_output(outputs, u@) {
                                None => Some(notfound),
                                Some(o) => Some(
                                    match o.std_data {
                                        Some(d) => d@,
                                        None => nodata,
                                    },
                                ),
                            },
                        }
                    } else {
                        None
                    },
                }
            } else {
                None
            }
        },
    }
}

/// Finds the first output entry for a component.
pub fn find_first_output<'a>(outputs: &'a Vec<crate::datto::JobStdOutput>, uid: &str) -> (r:
    Option<&'a crate::datto::JobStdOutput>)
    ensures
        match r {
            Some(o) => spec_first_output(outputs@, uid@) == Some(*o),
            None => spec_first_output(outputs@, uid@) is None,
        },
{
    let n = outputs.len();
    let mut i: usize = 0;
    proof {
        assert(outputs@.skip(0) =~= outputs@);
    }
    while i < n
        invariant
            n == outputs@.len(),
            i <= n,
            spec_first_output(outputs@, uid@) == spec_first_output(outputs@.skip(i as int), uid@),
        decreases n - i,
    {
        let hit = match &outputs[i].component_uid {
            Some(u) => crate::strings::str_eq_str(u.as_str(), uid),
            None => false,
        };
        if hit {
            proof {
                assert(outputs@.skip(i as int)[0] == outputs@[i as int]);
            }
            return Some(&outputs[i]);
        }
        proof {
            assert(outputs@.skip(i as int)[0] == outputs@[i as int]);
            assert(outputs@.skip(i as int).drop_first() =~= outputs@.skip(i + 1));
        }
        i = i + 1;
    }
    proof {
        assert(outputs@.skip(n as int).len() == 0);
    }
    None
}

/// Resolves the popup text for a fetched output list; nothing when no
/// component is selected.
pub fn resolve_output_content(
    jr_opt: &Option<JobResult>,
    row_idx: usize,
    outputs: &Vec<crate::datto::JobStdOutput>,
    nodata: &str,
    notfound: &str,
    nouid: &str,
) -> (r: Option<String>)
    ensures
        match r {
            Some(s) => spec_popup_text(
                *jr_opt,
                row_idx as int,
                outputs@,
                nodata@,
                notfound@,
                nouid@,
            ) == Some(s@),
            None => spec_popup_text(
                *jr_opt,
                row_idx as int,
                outputs@,
                nodata@,
                notfound@,
                nouid@,
            ) is None,
        },
{
    match jr_opt {
        None => None,
        Some(jr) => {
            let rows = crate::jobs::generate_job_rows(jr);
            if row_idx < rows.len() {
                let ci = match rows[row_idx] {
                    crate::jobs::JobViewRow::ComponentHeader(i) => i,
                    crate::jobs::JobViewRow::StdOutLink(i) => i,
                    crate::jobs::JobViewRow::StdErrLink(i) => i,
                };
                match &jr.component_results {
                    None => None,
                    Some(cs) => if ci < cs.len() {
                        match &cs[ci].component_uid {
                            None => Some(crate::app::make_string(nouid)),
                            Some(u) => match find_first_output(outputs, u.as_str()) {
                                None => Some(crate::app::make_string(notfound)),
                                Some(o) => match &o.std_data {
                                    Some(d) => Some(d.clone()),
                                    None => Some(crate::app::make_string(nodata)),
                                },
                            },
                        }
                    } else {
                        None
                    },
                }
            } else {
                None
            }
        },
    }
}

impl App {
    /// An endpoint-lookup completion from the first security backend,
    /// gated by the host's ordinal: the first endpoint returned is stored
    /// under the hostname, and when the device does not yet cache that
    /// endpoint's identifier, a background write caching it is issued.
    #[verifier::rlimit(100)]
    pub fn on_sophos_endpoints_fetched(
        &mut self,
        hostname: String,
        ordinal: u64,
        result: Result<Vec<crate::sophos::Endpoint>, String>,
    ) -> (reqs: Vec<DispatchRequest>)
        requires
            old(self).wf(),
        ensures
            final(self).wf(),
            on_sophos_endpoints_fetched_post(*old(self), hostname, ordinal, result, *final(self), reqs@),
    {
        let mut reqs: Vec<DispatchRequest> = Vec::new();
        if ordinal != self.sophos_endpoint_ordinals.ordinal(&hostname) {
            return reqs;
        }
        self.sophos_loading.insert(hostname.clone(), false);
        match result {
            Ok(endpoints) => {
                if endpoints.len() > 0 {
                    let ep = endpoints[0].clone();
                    self.sophos_endpoints.insert(hostname.clone(), ep);
                    if let Some(di) = find_device_index(&self.devices.items, hostname.as_str()) {
                        if !agent_id_cached(&self.devices.items[di], &endpoints[0].id) {
                            let device_uid = self.devices.items[di].uid.clone();
                            let o = crate::app::bump(&mut self.ords.udf_write);
                            reqs.push(
                                DispatchRequest::UpdateDeviceUdf {
                                    device_uid,
                                    udf: crate::fetch::agent_id_udf(endpoints[0].id.clone()),
                                    ordinal: o,
                                },
                            );
                            proof {
                                assert(reqs@ =~= seq![reqs@[0]]);
                            }
                        }
                    }
                }
            },
            Err(e) => {
                self.error = Some(
                    crate::app::make_string("failed to fetch endpoint for ").concat(
                        hostname.as_str(),
                    ).concat(": ").concat(e.as_str()),
                );
            },
        }
        reqs
    }

    /// An agent-lookup completion from the second security backend, gated
    /// by the host's ordinal. The agent is stored under its hostname; a
    /// device not yet caching the agent's identifier is updated locally at
    /// once and a background write caching it is issued; and the agent's
    /// alerts and policies are fetched next.
    #[verifier::rlimit(100)]
    pub fn on_datto_av_agent_fetched(
        &mut self,
        hostname: String,
        ordinal: u64,
        result: Result<crate::datto_av::AgentDetail, String>,
    ) -> (reqs: Vec<DispatchRequest>)
        requires
            old(self).wf(),
        ensures
            final(self).wf(),
            on_datto_av_agent_fetched_post(*old(self), hostname, ordinal, result, *final(self), reqs@),
    {
        let mut reqs: Vec<DispatchRequest> = Vec::new();
        if ordinal != self.datto_av_agent_ordinals.ordinal(&hostname) {
            return reqs;
        }
        self.datto_av_loading.insert(hostname.clone(), false);
        match result {
            Ok(agent) => {
                self.datto_av_agents.insert(hostname.clone(), agent.clone());
                if let Some(di) = find_device_index(&self.devices.items, hostname.as_str()) {
                    if !agent_id_cached(&self.devices.items[di], &agent.id) {
                        let dev_old = self.devices.items[di].clone();
                        let device_uid = dev_old.uid.clone();
                        let updated = cache_id_on_device(dev_old, agent.id.clone());
                        proof {
                            assert(crate::datto::device_cached_id(
                                old(self).devices.items@[di as int],
                                agent.id@,
                                updated,
                            ));
                        }
                        self.devices.items.set(di, updated);
                        let sel_matches = match &self.selected_device {
                            Some(sd) => crate::strings::str_eq_str(
                                sd.uid.as_str(),
                                device_uid.as_str(),
                            ),
                            None => false,
                        };
                        if sel_matches {
                            let mut sd0: Option<Device> = None;
                            core::mem::swap(&mut sd0, &mut self.selected_device);
                            match sd0 {
                                Some(sd) => {
                                    self.selected_device = Some(
                                        cache_id_on_device(sd, agent.id.clone()),
                                    );
                                },
                                None => (),
                            }
                        }
                        let o = crate::app::bump(&mut self.ords.udf_write);
                        reqs.push(
                            DispatchRequest::UpdateDeviceUdf {
                                device_uid,
                                udf: crate::fetch::agent_id_udf(agent.id.clone()),
                                ordinal: o,
                            },
                        );
                    }
                }
                let mut more = self.fetch_datto_av_alerts(agent.id.clone(), hostname.clone());
                reqs.append(&mut more);
                let mut more2 = self.fetch_datto_av_policies(agent.id.clone(), hostname);
                reqs.append(&mut more2);
            },
            Err(e) => {
                self.error = Some(
                    crate::app::make_string("failed to fetch agent for ").concat(
                        hostname.as_str(),
                    ).concat(": ").concat(e.as_str()),
                );
            },
        }
        reqs
    }

    /// A component-list completion for the wizard, gated by its ordinal
    /// and applied only while the wizard is open: the catalogue is
    /// replaced (the fetch layer hands it sorted), the filter reset to
    /// show everything, and the selection cleared.
    #[verifier::rlimit(100)]
    pub fn on_components_fetched(
        &mut self,
        ordinal: u64,
        result: Result<crate::datto::ComponentsResponse, String>,
    ) -> (reqs: Vec<DispatchRequest>)
        requires
            old(self).wf(),
        ensures
            final(self).wf(),
            on_components_fetched_post(*old(self), ordinal, result, *final(self), reqs@),
    {
        let mut modal = Modal::Idle;
        core::mem::swap(&mut modal, &mut self.modal);
        match modal {
            Modal::Wizard(mut w) => {
                if ordinal == self.ords.components {
                    match result {
                        Ok(resp) => {
                            let sorted = crate::keys::sort_components(resp.components);
                            let n = sorted.len();
                            let mut idxs: Vec<usize> = Vec::new();
                            let mut j: usize = 0;
                            while j < n
                                invariant
                                    j <= n,
                                    idxs@ =~= Seq::new(j as nat, |k: int| k as usize),
                                decreases n - j,
                            {
                                idxs.push(j);
                                proof {
                                    assert(idxs@ =~= Seq::new((j + 1) as nat, |k: int| k as usize));
                                }
                                j = j + 1;
                            }
                            w.components = sorted;
                            w.filtered.replace(idxs);
                            w.selected = None;
                            w.loading = false;
                        },
                        Err(e) => {
                            w.error = Some(e);
                            w.loading = false;
                        },
                    }
                }
                self.modal = Modal::Wizard(w);
            },
            other => {
                self.modal = other;
            },
        }
        Vec::new()
    }

    /// A quick-job completion for the wizard, gated by its ordinal and
    /// applied only while the wizard is open: either way the wizard moves
    /// to its terminal step, showing the response or the error.
    pub fn on_quick_job_executed(
        &mut self,
        ordinal: u64,
        result: Result<crate::datto::QuickJobResponse, String>,
    ) -> (reqs: Vec<DispatchRequest>)
        requires
            old(self).wf(),
        ensures
            final(self).wf(),
            on_quick_job_executed_post(*old(self), ordinal, result, *final(self), reqs@),
    {
        let mut modal = Modal::Idle;
        core::mem::swap(&mut modal, &mut self.modal);
        match modal {
            Modal::Wizard(mut w) => {
                if ordinal == self.ords.quick_job {
                    match result {
                        Ok(resp) => {
                            w.last_job_response = Some(resp);
                            w.step = crate::modal::RunComponentStep::Result;
                            w.loading = false;
                        },
                        Err(e) => {
                            w.error = Some(e);
                            w.step = crate::modal::RunComponentStep::Result;
                            w.loading = false;
                        },
                    }
                }
                self.modal = Modal::Wizard(w);
            },
            other => {
                self.modal = other;
            },
        }
        Vec::new()
    }

    /// A standard-output completion for the popup, gated by its ordinal
    /// and applied only while the popup is open: the popup shows the
    /// selected component's output.
    pub fn on_job_stdout_fetched(
        &mut self,
        ordinal: u64,
        result: Result<Vec<crate::datto::JobStdOutput>, String>,
    ) -> (reqs: Vec<DispatchRequest>)
        requires
            old(self).wf(),
        ensures
            final(self).wf(),
            on_job_stdout_fetched_post(*old(self), ordinal, result, *final(self), reqs@),
    {
        let mut modal = Modal::Idle;
        core::mem::swap(&mut modal, &mut self.modal);
        match modal {
            Modal::Output(mut p) => {
                if ordinal == self.ords.popup {
                    p.loading = false;
                    match result {
                        Ok(outputs) => {
                            match resolve_output_content(
                                &self.selected_job_result,
                                self.selected_job_row_index,
                                &outputs,
                                "No StdOut data",
                                "No StdOut found for this component",
                                "Component UID missing",
                            ) {
                                Some(c) => {
                                    p.content = c;
                                },
                                None => (),
                            }
                        },
                        Err(e) => {
                            p.content = crate::app::make_string("error: ").concat(e.as_str());
                        },
                    }
                }
                self.modal = Modal::Output(p);
            },
            other => {
                self.modal = other;
            },
        }
        Vec::new()
    }

    /// A standard-error completion for the popup, handled like standard
    /// output with its own notices.
    pub fn on_job_stderr_fetched(
        &mut self,
        ordinal: u64,
        result: Result<Vec<crate::datto::JobStdOutput>, String>,
    ) -> (reqs: Vec<DispatchRequest>)
        requires
            old(self).wf(),
        ensures
            final(self).wf(),
            on_job_stderr_fetched_post(*old(self), ordinal, result, *final(self), reqs@),
    {
        let mut modal = Modal::Idle;
        core::mem::swap(&mut modal, &mut self.modal);
        match modal {
            Modal::Output(mut p) => {
                if ordinal == self.ords.popup {
                    p.loading = false;
                    match result {
                        Ok(outputs) => {
                            match resolve_output_content(
                                &self.selected_job_result,
                                self.selected_job_row_index,
                                &outputs,
                                "No StdErr data",
                                "No StdErr found for this component",
                                "Component UID missing",
                            ) {
                                Some(c) => {
                                    p.content = c;
                                },
                                None => (),
                            }
                        },
                        Err(e) => {
                            p.content = crate::app::make_string("error: ").concat(e.as_str());
                        },
                    }
                }
                self.modal = Modal::Output(p);
            },
            other => {
                self.modal = other;
            },
        }
        Vec::new()
    }
}


/// What `on_devices_fetched` does, as a relation between the states before
/// and after and the issued requests.
pub open spec fn on_devices_fetched_post(
    pre: App,
    ordinal: u64, result: Result<DevicesResponse, String>,
    post: App,
    reqs: Seq<DispatchRequest>,
) -> bool {
    &&& (
            reqs == Seq::<DispatchRequest>::empty()
    )
    &&& (
            ordinal != pre.ords.devices ==> post == pre
    )
    &&& (
            ordinal == pre.ords.devices ==> match result {
                Ok(resp) => post == (App {
                    devices: (PaginatedList {
                        items: resp.devices,
                        cursor: PaginatedList::<Device>::spec_reset_cursor(resp.devices@.len()),
                        loading: false,
                        last_error: pre.devices.last_error,
                    }),
                    ..pre
                }),
                Err(e) => post == (App {
                    devices: (PaginatedList {
                        loading: false,
                        last_error: Some(e),
                        ..pre.devices
                    }),
                    ..pre
                }),
            }
    )
}

/// What `on_activity_logs_fetched` does, as a relation between the states before
/// and after and the issued requests.
pub open spec fn on_activity_logs_fetched_post(
    pre: App,
    ordinal: u64, result: Result<ActivityLogsResponse, String>,
    post: App,
    reqs: Seq<DispatchRequest>,
) -> bool {
    &&& (
            reqs == Seq::<DispatchRequest>::empty()
    )
    &&& (
            ordinal != pre.ords.activity_logs ==> post == pre
    )
    &&& (
            ordinal == pre.ords.activity_logs ==> match result {
                Ok(resp) => post == (App {
                    activity_logs: (PaginatedList {
                        items: resp.activities,
                        cursor: PaginatedList::<crate::datto::ActivityLog>::spec_reset_cursor(
                            resp.activities@.len(),
                        ),
                        loading: false,
                        last_error: pre.activity_logs.last_error,
                    }),
                    ..pre
                }),
                Err(e) => post == (App {
                    activity_logs: (PaginatedList {
                        loading: false,
                        last_error: Some(e),
                        ..pre.activity_logs
                    }),
                    ..pre
                }),
            }
    )
}

/// What `on_open_alerts_fetched` does, as a relation between the states before
/// and after and the issued requests.
pub open spec fn on_open_alerts_fetched_post(
    pre: App,
    device_uid: String, ordinal: u64, result: Result<Vec<Alert>, String>,
    post: App,
    reqs: Seq<DispatchRequest>,
) -> bool {
    &&& (
            reqs == Seq::<DispatchRequest>::empty()
    )
    &&& (
            !(ordinal == pre.ords.open_alerts && (match pre.selected_device {
                Some(d) => d.uid@ == device_uid@,
                None => false,
            })) ==> post == pre
    )
    &&& (
            (ordinal == pre.ords.open_alerts && (match pre.selected_device {
                Some(d) => d.uid@ == device_uid@,
                None => false,
            })) ==> match result {
                Ok(alerts) => post == (App {
                    open_alerts: (PaginatedList {
                        items: alerts,
                        cursor: PaginatedList::<Alert>::spec_reset_cursor(alerts@.len()),
                        loading: false,
                        last_error: pre.open_alerts.last_error,
                    }),
                    ..pre
                }),
                Err(e) => post == (App {
                    open_alerts: (PaginatedList {
                        loading: false,
                        last_error: Some(e),
                        ..pre.open_alerts
                    }),
                    ..pre
                }),
            }
    )
}

/// What `on_job_result_fetched` does, as a relation between the states before
/// and after and the issued requests.
pub open spec fn on_job_result_fetched_post(
    pre: App,
    ordinal: u64, result: Result<JobResult, String>,
    post: App,
    reqs: Seq<DispatchRequest>,
) -> bool {
    &&& (
            reqs == Seq::<DispatchRequest>::empty()
    )
    &&& (
            ordinal != pre.ords.job_result ==> post == pre
    )
    &&& (
            ordinal == pre.ords.job_result ==> match result {
                Ok(jr) => post == (App {
                    selected_job_result: Some(jr),
                    job_result_loading: false,
                    ..pre
                }),
                Err(e) => post == (App {
                    job_result_loading: false,
                    job_result_error: Some(e),
                    ..pre
                }),
            }
    )
}

/// What `on_scan_status_changed` does, as a relation between the states before
/// and after and the issued requests.
pub open spec fn on_scan_status_changed_post(
    pre: App,
    hostname: String, status: ScanStatus,
    post: App,
    reqs: Seq<DispatchRequest>,
) -> bool {
    &&& (
            reqs == Seq::<DispatchRequest>::empty()
    )
    &&& (
            post == (App { scan_status: post.scan_status, ..pre })
    )
    &&& (
            post.scan_status@ == pre.scan_status@.insert(hostname@, status)
    )
}

/// What `on_datto_av_alerts_fetched` does, as a relation between the states before
/// and after and the issued requests.
pub open spec fn on_datto_av_alerts_fetched_post(
    pre: App,
    hostname: String, ordinal: u64, result: Result<Vec<AvAlert>, String>,
    post: App,
    reqs: Seq<DispatchRequest>,
) -> bool {
    &&& (
            reqs == Seq::<DispatchRequest>::empty()
    )
    &&& (
            ordinal != pre.datto_av_alert_ordinals.spec_ordinal(hostname@) ==> post
                == pre
    )
    &&& (
            ordinal == pre.datto_av_alert_ordinals.spec_ordinal(hostname@) ==> match result {
                Ok(alerts) => post == (App {
                    datto_av_alerts: post.datto_av_alerts,
                    ..pre
                }) && post.datto_av_alerts@ == pre.datto_av_alerts@.insert(
                    hostname@,
                    alerts,
                ),
                Err(_) => post == pre,
            }
    )
}

/// What `on_datto_av_policies_fetched` does, as a relation between the states before
/// and after and the issued requests.
pub open spec fn on_datto_av_policies_fetched_post(
    pre: App,
    hostname: String, ordinal: u64, result: Result<String, String>,
    post: App,
    reqs: Seq<DispatchRequest>,
) -> bool {
    &&& (
            reqs == Seq::<DispatchRequest>::empty()
    )
    &&& (
            ordinal != pre.datto_av_policy_ordinals.spec_ordinal(hostname@) ==> post
                == pre
    )
    &&& (
            ordinal == pre.datto_av_policy_ordinals.spec_ordinal(hostname@) ==> match result {
                Ok(policies) => post == (App {
                    datto_av_policies: post.datto_av_policies,
                    ..pre
                }) && post.datto_av_policies@ == pre.datto_av_policies@.insert(
                    hostname@,
                    policies,
                ),
                Err(_) => post == pre,
            }
    )
}

/// What `on_incidents_fetched` does, as a relation between the states before
/// and after and the issued requests.
pub open spec fn on_incidents_fetched_post(
    pre: App,
    ordinal: u64, result: Result<Vec<Incident>, String>,
    post: App,
    reqs: Seq<DispatchRequest>,
) -> bool {
    &&& (
            reqs == Seq::<DispatchRequest>::empty()
    )
    &&& (
            ordinal != pre.ords.incidents ==> post == pre
    )
    &&& (
            ordinal == pre.ords.incidents ==> match result {
                Ok(list) => post == (App {
                    incidents: list,
                    incident_stats: post.incident_stats,
                    ..pre
                }) && post.incident_stats@ == spec_aggregate(list@),
                Err(e) => post == (App { error: post.error, ..pre }) && (
                match post.error {
                    Some(m) => m@ == "failed to fetch incidents: "@ + e@,
                    None => false,
                }),
            }
    )
}

/// What `on_sophos_cases_fetched` does, as a relation between the states before
/// and after and the issued requests.
pub open spec fn on_sophos_cases_fetched_post(
    pre: App,
    tenant_id: String, ordinal: u64, result: Result<Vec<Case>, String>,
    post: App,
    reqs: Seq<DispatchRequest>,
) -> bool {
    &&& (
            reqs == Seq::<DispatchRequest>::empty()
    )
    &&& (
            ordinal != pre.sophos_case_ordinals.spec_ordinal(tenant_id@) ==> post
                == pre
    )
    &&& (
            ordinal == pre.sophos_case_ordinals.spec_ordinal(tenant_id@) ==> match result {
                Ok(cases) => post == (App {
                    incident_stats: post.incident_stats,
                    ..pre
                }) && post.incident_stats@ == pre.incident_stats@.insert(
                    tenant_id@,
                    spec_count_cases(cases@),
                ),
                Err(e) => post == (App { error: post.error, ..pre }) && (
                match post.error {
                    Some(m) => m@ == "failed to fetch cases for "@ + tenant_id@ + ": "@ + e@,
                    None => false,
                }),
            }
    )
}

/// What `on_sophos_scan_started` does, as a relation between the states before
/// and after and the issued requests.
pub open spec fn on_sophos_scan_started_post(
    pre: App,
    hostname: String, result: Result<(), String>,
    post: App,
    reqs: Seq<DispatchRequest>,
) -> bool {
    &&& (
            match result {
                Ok(_) => post == pre && reqs == seq![
                    DispatchRequest::ScheduleScanStatus { hostname },
                ],
                Err(e) => {
                    &&& post == (App {
                        scan_status: post.scan_status,
                        error: post.error,
                        ..pre
                    })
                    &&& post.scan_status@ == pre.scan_status@.remove(hostname@)
                    &&& match post.error {
                        Some(m) => m@ == "failed to start scan for "@ + hostname@ + ": "@ + e@,
                        None => false,
                    }
                    &&& reqs == Seq::<DispatchRequest>::empty()
                },
            }
    )
}

/// What `on_datto_av_scan_started` does, as a relation between the states before
/// and after and the issued requests.
pub open spec fn on_datto_av_scan_started_post(
    pre: App,
    hostname: String, result: Result<(), String>,
    post: App,
    reqs: Seq<DispatchRequest>,
) -> bool {
    &&& (
            match result {
                Ok(_) => post == pre && reqs == seq![
                    DispatchRequest::ScheduleScanStatus { hostname },
                ],
                Err(e) => {
                    &&& post == (App {
                        scan_status: post.scan_status,
                        error: post.error,
                        ..pre
                    })
                    &&& post.scan_status@ == pre.scan_status@.remove(hostname@)
                    &&& match post.error {
                        Some(m) => m@ == "failed to start scan for "@ + hostname@ + ": "@ + e@,
                        None => false,
                    }
                    &&& reqs == Seq::<DispatchRequest>::empty()
                },
            }
    )
}

/// What `on_udf_updated` does, as a relation between the states before
/// and after and the issued requests.
pub open spec fn on_udf_updated_post(
    pre: App,
    device_uid: String, ordinal: u64, result: Result<(), String>,
    post: App,
    reqs: Seq<DispatchRequest>,
) -> bool {
    &&& (
            reqs == Seq::<DispatchRequest>::empty()
    )
    &&& (
            ordinal != pre.ords.udf_write ==> post == pre
    )
    &&& (
            ordinal == pre.ords.udf_write ==> match result {
                Ok(_) => post == (App {
                    pending_udf_edit: (match pre.pending_udf_edit {
                        Some(p) => if p.ordinal == ordinal {
                            None
                        } else {
                            pre.pending_udf_edit
                        },
                        None => None,
                    }),
                    ..pre
                }),
                Err(e) => {
                    &&& post.error == Some(e)
                    &&& match pre.pending_udf_edit {
                        Some(p) => if p.ordinal == ordinal {
                            &&& post.pending_udf_edit is None
                            &&& match pre.selected_device {
                                Some(d) => if d.uid@ == p.device_uid@ {
                                    &&& post.selected_device matches Some(rd)
                                    &&& rd == (Device { udf: p.snapshot, ..d })
                                    &&& post == (App {
                                        selected_device: post.selected_device,
                                        pending_udf_edit: None,
                                        error: Some(e),
                                        ..pre
                                    })
                                } else {
                                    post == (App {
                                        pending_udf_edit: None,
                                        error: Some(e),
                                        ..pre
                                    })
                                },
                                None => post == (App {
                                    pending_udf_edit: None,
                                    error: Some(e),
                                    ..pre
                                }),
                            }
                        } else {
                            post == (App { error: Some(e), ..pre })
                        },
                        None => post == (App { error: Some(e), ..pre }),
                    }
                },
            }
    )
}

/// What `on_sites_fetched` does, as a relation between the states before
/// and after and the issued requests.
pub open spec fn on_sites_fetched_post(
    pre: App,
    ordinal: u64, result: Result<SitesResponse, String>,
    post: App,
    reqs: Seq<DispatchRequest>,
) -> bool {
    &&& (
            ordinal != pre.ords.sites ==> post == pre && reqs == Seq::<
                DispatchRequest,
            >::empty()
    )
    &&& (
            ordinal == pre.ords.sites ==> match result {
                Ok(resp) => {
                    &&& post == (App {
                        sites: post.sites,
                        total_count: post.total_count,
                        total_pages: post.total_pages,
                        var_ordinals: post.var_ordinals,
                        ..pre
                    })
                    &&& post.sites == (PaginatedList {
                        items: resp.sites,
                        cursor: PaginatedList::<Site>::spec_reset_cursor(resp.sites@.len()),
                        loading: false,
                        last_error: pre.sites.last_error,
                    })
                    &&& post.total_count == spec_total_count(resp.page_details.total_count)
                    &&& post.total_pages == spec_total_pages(
                        spec_total_count(resp.page_details.total_count),
                    )
                    &&& post.var_ordinals@ == spec_issue_var_fetches(
                        pre.var_ordinals@,
                        resp.sites@,
                    ).0
                    &&& reqs == spec_issue_var_fetches(pre.var_ordinals@, resp.sites@).1
                },
                Err(e) => post == (App {
                    sites: (PaginatedList {
                        loading: false,
                        last_error: Some(e),
                        ..pre.sites
                    }),
                    ..pre
                }) && reqs == Seq::<DispatchRequest>::empty(),
            }
    )
}

/// What `on_site_variables_fetched` does, as a relation between the states before
/// and after and the issued requests.
pub open spec fn on_site_variables_fetched_post(
    pre: App,
    site_uid: String, ordinal: u64, result: Result<Vec<SiteVariable>, String>,
    post: App,
    reqs: Seq<DispatchRequest>,
) -> bool {
    &&& (
            ordinal != pre.var_ordinals.spec_ordinal(site_uid@) ==> post == pre && reqs == Seq::<DispatchRequest>::empty()
    )
    &&& (
            ordinal == pre.var_ordinals.spec_ordinal(site_uid@) ==> match result {
                Ok(vars) => {
                    &&& post == (App {
                        sites: post.sites,
                        sophos_case_ordinals: post.sophos_case_ordinals,
                        ..pre
                    })
                    &&& post.sites == (PaginatedList {
                        items: post.sites.items,
                        ..pre.sites
                    })
                    &&& match spec_first_site_index(pre.sites.items@, site_uid@) {
                        Some(i) => {
                            &&& post.sites.items@.len() == pre.sites.items@.len()
                            &&& site_with_vars(
                                pre.sites.items@[i],
                                vars@,
                                post.sites.items@[i],
                            )
                            &&& forall|j: int|
                                0 <= j < pre.sites.items@.len() && j != i ==> post.sites.items@[j] == pre.sites.items@[j]
                        },
                        None => post.sites.items == pre.sites.items,
                    }
                    &&& match spec_mdr_target(vars@) {
                        Some(t) => if pre.has_sophos {
                            &&& post.sophos_case_ordinals@ == pre.sophos_case_ordinals@.insert(
                                t.0.value@,
                                spec_bump(
                                    pre.sophos_case_ordinals.spec_ordinal(t.0.value@),
                                ),
                            )
                            &&& reqs.len() == 1
                            &&& reqs[0] matches DispatchRequest::FetchSophosCases {
                                tenant_id,
                                data_region,
                                ordinal: o,
                            } && tenant_id@ == t.0.value@ && o == spec_bump(
                                pre.sophos_case_ordinals.spec_ordinal(t.0.value@),
                            ) && (match t.1 {
                                Some(rv) => data_region matches Some(dr) && dr@ == rv.value@,
                                None => data_region is None,
                            })
                        } else {
                            post.sophos_case_ordinals == pre.sophos_case_ordinals
                                && reqs == Seq::<DispatchRequest>::empty()
                        },
                        None => post.sophos_case_ordinals == pre.sophos_case_ordinals
                            && reqs == Seq::<DispatchRequest>::empty(),
                    }
                },
                Err(_) => post == pre && reqs == Seq::<DispatchRequest>::empty(),
            }
    )
}

/// What `on_variable_created` does, as a relation between the states before
/// and after and the issued requests.
pub open spec fn on_variable_created_post(
    pre: App,
    site_uid: String, ordinal: u64, result: Result<SiteVariable, String>,
    post: App,
    reqs: Seq<DispatchRequest>,
) -> bool {
    &&& (
            ordinal != pre.ords.var_write ==> post == pre && reqs == Seq::<
                DispatchRequest,
            >::empty()
    )
    &&& (
            ordinal == pre.ords.var_write ==> match result {
                Ok(_) => {
                    &&& post.sites == (PaginatedList { loading: false, ..pre.sites })
                    &&& post == (App {
                        sites: post.sites,
                        var_ordinals: post.var_ordinals,
                        ..pre
                    })
                    &&& pre.has_rmm ==> post.var_ordinals@ == pre.var_ordinals@.insert(
                        site_uid@,
                        spec_bump(pre.var_ordinals.spec_ordinal(site_uid@)),
                    ) && reqs == seq![
                        DispatchRequest::FetchSiteVariables {
                            site_uid,
                            ordinal: spec_bump(pre.var_ordinals.spec_ordinal(site_uid@)),
                        },
                    ]
                    &&& !pre.has_rmm ==> post.var_ordinals == pre.var_ordinals
                        && reqs == Seq::<DispatchRequest>::empty()
                },
                Err(e) => post == (App {
                    sites: (PaginatedList { loading: false, ..pre.sites }),
                    error: Some(e),
                    ..pre
                }) && reqs == Seq::<DispatchRequest>::empty(),
            }
    )
}

/// What `on_variable_updated` does, as a relation between the states before
/// and after and the issued requests.
pub open spec fn on_variable_updated_post(
    pre: App,
    site_uid: String, ordinal: u64, result: Result<SiteVariable, String>,
    post: App,
    reqs: Seq<DispatchRequest>,
) -> bool {
    &&& (
            reqs == Seq::<DispatchRequest>::empty()
    )
    &&& (
            ordinal != pre.ords.var_write ==> post == pre
    )
    &&& (
            ordinal == pre.ords.var_write ==> match result {
                Ok(updated) => {
                    &&& post == (App { sites: post.sites, ..pre })
                    &&& post.sites == (PaginatedList {
                        items: post.sites.items,
                        loading: false,
                        ..pre.sites
                    })
                    &&& match spec_first_site_index(pre.sites.items@, site_uid@) {
                        Some(i) => {
                            let old_site = pre.sites.items@[i];
                            match old_site.variables {
                                Some(vs) => match spec_first_var_index(vs@, updated.id) {
                                    Some(vi) => {
                                        &&& post.sites.items@.len() == pre.sites.items@.len()
                                        &&& site_with_vars(
                                            old_site,
                                            vs@.update(vi, updated),
                                            post.sites.items@[i],
                                        )
                                        &&& forall|j: int|
                                            0 <= j < pre.sites.items@.len() && j != i
                                                ==> post.sites.items@[j] == pre.sites.items@[j]
                                    },
                                    None => post.sites.items == pre.sites.items,
                                },
                                None => post.sites.items == pre.sites.items,
                            }
                        },
                        None => post.sites.items == pre.sites.items,
                    }
                },
                Err(e) => post == (App {
                    sites: (PaginatedList { loading: false, ..pre.sites }),
                    error: Some(e),
                    ..pre
                }),
            }
    )
}

/// What `on_site_updated` does, as a relation between the states before
/// and after and the issued requests.
pub open spec fn on_site_updated_post(
    pre: App,
    ordinal: u64, result: Result<Site, String>,
    post: App,
    reqs: Seq<DispatchRequest>,
) -> bool {
    &&& (
            reqs == Seq::<DispatchRequest>::empty()
    )
    &&& (
            ordinal != pre.ords.site_update ==> post == pre
    )
    &&& (
            ordinal == pre.ords.site_update ==> match result {
                Ok(updated) => {
                    &&& post == (App {
                        sites: post.sites,
                        site_edit_state: post.site_edit_state,
                        pending_site_edit: None,
                        ..pre
                    })
                    &&& post.sites == (PaginatedList {
                        items: post.sites.items,
                        loading: false,
                        ..pre.sites
                    })
                    &&& match spec_first_site_index(pre.sites.items@, updated.uid@) {
                        Some(i) => {
                            &&& post.sites.items@.len() == pre.sites.items@.len()
                            &&& post.sites.items@[i] == (Site {
                                variables: post.sites.items@[i].variables,
                                ..updated
                            })
                            &&& match pre.sites.items@[i].variables {
                                Some(va) => post.sites.items@[i].variables matches Some(vb)
                                    && va@ == vb@,
                                None => post.sites.items@[i].variables is None,
                            }
                            &&& forall|j: int|
                                0 <= j < pre.sites.items@.len() && j != i ==> post.sites.items@[j] == pre.sites.items@[j]
                            &&& if pre.sites.cursor == Some(i as usize) {
                                edit_state_matches(
                                    post.sites.items@[i],
                                    post.site_edit_state,
                                )
                            } else {
                                post.site_edit_state == pre.site_edit_state
                            }
                        },
                        None => post.sites.items == pre.sites.items && post.site_edit_state == pre.site_edit_state,
                    }
                },
                Err(e) => {
                    &&& post.error == Some(e)
                    &&& post.sites == (PaginatedList { loading: false, ..pre.sites })
                    &&& match pre.pending_site_edit {
                        Some(p) => if p.ordinal == ordinal {
                            post == (App {
                                sites: post.sites,
                                error: Some(e),
                                site_edit_state: p.snapshot,
                                pending_site_edit: None,
                                ..pre
                            })
                        } else {
                            post == (App {
                                sites: post.sites,
                                error: Some(e),
                                ..pre
                            })
                        },
                        None => post == (App {
                            sites: post.sites,
                            error: Some(e),
                            ..pre
                        }),
                    }
                },
            }
    )
}

/// What `on_device_search_results_fetched` does, as a relation between the states before
/// and after and the issued requests.
pub open spec fn on_device_search_results_fetched_post(
    pre: App,
    ordinal: u64, result: Result<DevicesResponse, String>,
    post: App,
    reqs: Seq<DispatchRequest>,
) -> bool {
    &&& (
            reqs == Seq::<DispatchRequest>::empty()
    )
    &&& (
            match pre.modal {
                Modal::ListPicker(ds) => if ordinal == pre.ords.search {
                    match result {
                        Ok(resp) => post == (App {
                            modal: Modal::ListPicker(
                                crate::modal::DeviceSearch {
                                    results: (PaginatedList {
                                        items: resp.devices,
                                        cursor: PaginatedList::<Device>::spec_reset_cursor(
                                            resp.devices@.len(),
                                        ),
                                        loading: false,
                                        last_error: ds.results.last_error,
                                    }),
                                    ..ds
                                },
                            ),
                            ..pre
                        }),
                        Err(e) => post == (App {
                            modal: Modal::ListPicker(
                                crate::modal::DeviceSearch {
                                    results: (PaginatedList {
                                        loading: false,
                                        last_error: Some(e),
                                        ..ds.results
                                    }),
                                    ..ds
                                },
                            ),
                            ..pre
                        }),
                    }
                } else {
                    post == pre
                },
                _ => post == pre,
            }
    )
}

/// What `on_sophos_endpoints_fetched` does, as a relation between the states before
/// and after and the issued requests.
pub open spec fn on_sophos_endpoints_fetched_post(
    pre: App,
    hostname: String, ordinal: u64, result: Result<Vec<crate::sophos::Endpoint>, String>,
    post: App,
    reqs: Seq<DispatchRequest>,
) -> bool {
    &&& (
            ordinal != pre.sophos_endpoint_ordinals.spec_ordinal(hostname@) ==> post
                == pre && reqs == Seq::<DispatchRequest>::empty()
    )
    &&& (
            ordinal == pre.sophos_endpoint_ordinals.spec_ordinal(hostname@) ==> {
                &&& post.sophos_loading@ == pre.sophos_loading@.insert(
                    hostname@,
                    false,
                )
                &&& match result {
                    Ok(endpoints) => {
                        &&& post == (App {
                            sophos_loading: post.sophos_loading,
                            sophos_endpoints: post.sophos_endpoints,
                            ords: post.ords,
                            ..pre
                        })
                        &&& if endpoints@.len() == 0 {
                            &&& post.sophos_endpoints == pre.sophos_endpoints
                            &&& post.ords == pre.ords
                            &&& reqs == Seq::<DispatchRequest>::empty()
                        } else {
                            &&& post.sophos_endpoints@ == pre.sophos_endpoints@.insert(
                                hostname@,
                                endpoints@[0],
                            )
                            &&& match spec_first_device_index(pre.devices.items@, hostname@) {
                                Some(di) => if crate::datto::spec_cached_agent_id(
                                    pre.devices.items@[di],
                                ) != endpoints@[0].id@ {
                                    &&& post.ords == (Ordinals {
                                        udf_write: spec_bump(pre.ords.udf_write),
                                        ..pre.ords
                                    })
                                    &&& reqs.len() == 1
                                    &&& reqs[0] matches DispatchRequest::UpdateDeviceUdf {
                                        device_uid,
                                        udf,
                                        ordinal: o,
                                    } && device_uid@ == pre.devices.items@[di].uid@ && o
                                        == spec_bump(pre.ords.udf_write)
                                        && crate::datto::udf_values_cache_id(
                                        None,
                                        endpoints@[0].id@,
                                        udf.values@,
                                    )
                                } else {
                                    post.ords == pre.ords && reqs == Seq::<
                                        DispatchRequest,
                                    >::empty()
                                },
                                None => post.ords == pre.ords && reqs == Seq::<
                                    DispatchRequest,
                                >::empty(),
                            }
                        }
                    },
                    Err(e) => {
                        &&& post == (App {
                            sophos_loading: post.sophos_loading,
                            error: post.error,
                            ..pre
                        })
                        &&& match post.error {
                            Some(m) => m@ == "failed to fetch endpoint for "@ + hostname@ + ": "@
                                + e@,
                            None => false,
                        }
                        &&& reqs == Seq::<DispatchRequest>::empty()
                    },
                }
            }
    )
}

/// What `on_datto_av_agent_fetched` does, as a relation between the states before
/// and after and the issued requests.
pub open spec fn on_datto_av_agent_fetched_post(
    pre: App,
    hostname: String, ordinal: u64, result: Result<crate::datto_av::AgentDetail, String>,
    post: App,
    reqs: Seq<DispatchRequest>,
) -> bool {
    &&& (
            ordinal != pre.datto_av_agent_ordinals.spec_ordinal(hostname@) ==> post
                == pre && reqs == Seq::<DispatchRequest>::empty()
    )
    &&& (
            ordinal == pre.datto_av_agent_ordinals.spec_ordinal(hostname@) ==> {
                &&& post.datto_av_loading@ == pre.datto_av_loading@.insert(
                    hostname@,
                    false,
                )
                &&& match result {
                    Ok(agent) => {
                        &&& post == (App {
                            datto_av_loading: post.datto_av_loading,
                            datto_av_agents: post.datto_av_agents,
                            devices: post.devices,
                            selected_device: post.selected_device,
                            ords: post.ords,
                            datto_av_alert_ordinals: post.datto_av_alert_ordinals,
                            datto_av_policy_ordinals: post.datto_av_policy_ordinals,
                            ..pre
                        })
                        &&& post.datto_av_agents@ == pre.datto_av_agents@.insert(
                            hostname@,
                            agent,
                        )
                        &&& {
                            let cache = match spec_first_device_index(
                                pre.devices.items@,
                                hostname@,
                            ) {
                                Some(di) => crate::datto::spec_cached_agent_id(
                                    pre.devices.items@[di],
                                ) != agent.id@,
                                None => false,
                            };
                            let avn: int = if pre.has_datto_av {
                                2
                            } else {
                                0
                            };
                            &&& if cache {
                                let di = spec_first_device_index(
                                    pre.devices.items@,
                                    hostname@,
                                )->0;
                                &&& post.devices == (PaginatedList {
                                    items: post.devices.items,
                                    ..pre.devices
                                })
                                &&& post.devices.items@.len() == pre.devices.items@.len()
                                &&& crate::datto::device_cached_id(
                                    pre.devices.items@[di],
                                    agent.id@,
                                    post.devices.items@[di],
                                )
                                &&& forall|j: int|
                                    0 <= j < pre.devices.items@.len() && j != di ==> post.devices.items@[j] == pre.devices.items@[j]
                                &&& match pre.selected_device {
                                    Some(sd) => if sd.uid@ == pre.devices.items@[di].uid@ {
                                        post.selected_device matches Some(sd2)
                                            && crate::datto::device_cached_id(sd, agent.id@, sd2)
                                    } else {
                                        post.selected_device == pre.selected_device
                                    },
                                    None => post.selected_device is None,
                                }
                                &&& post.ords == (Ordinals {
                                    udf_write: spec_bump(pre.ords.udf_write),
                                    ..pre.ords
                                })
                                &&& reqs.len() == 1 + avn
                                &&& reqs[0] matches DispatchRequest::UpdateDeviceUdf {
                                    device_uid,
                                    udf,
                                    ordinal: o,
                                } && device_uid@ == pre.devices.items@[di].uid@ && o
                                    == spec_bump(pre.ords.udf_write)
                                    && crate::datto::udf_values_cache_id(
                                    None,
                                    agent.id@,
                                    udf.values@,
                                )
                            } else {
                                &&& post.devices == pre.devices
                                &&& post.selected_device == pre.selected_device
                                &&& post.ords == pre.ords
                                &&& reqs.len() == avn
                            }
                            &&& if pre.has_datto_av {
                                &&& post.datto_av_alert_ordinals@ == pre.datto_av_alert_ordinals@.insert(
                                    hostname@,
                                    spec_bump(
                                        pre.datto_av_alert_ordinals.spec_ordinal(hostname@),
                                    ),
                                )
                                &&& post.datto_av_policy_ordinals@ == pre.datto_av_policy_ordinals@.insert(
                                    hostname@,
                                    spec_bump(
                                        pre.datto_av_policy_ordinals.spec_ordinal(hostname@),
                                    ),
                                )
                                &&& reqs[reqs.len() - 2] matches DispatchRequest::FetchDattoAvAlerts {
                                    agent_id,
                                    hostname: h,
                                    ordinal: o,
                                } && agent_id@ == agent.id@ && h@ == hostname@ && o == spec_bump(
                                    pre.datto_av_alert_ordinals.spec_ordinal(hostname@),
                                )
                                &&& reqs[reqs.len() - 1] matches DispatchRequest::FetchDattoAvPolicies {
                                    agent_id,
                                    hostname: h,
                                    ordinal: o,
                                } && agent_id@ == agent.id@ && h@ == hostname@ && o == spec_bump(
                                    pre.datto_av_policy_ordinals.spec_ordinal(hostname@),
                                )
                            } else {
                                &&& post.datto_av_alert_ordinals == pre.datto_av_alert_ordinals
                                &&& post.datto_av_policy_ordinals == pre.datto_av_policy_ordinals
                            }
                        }
                    },
                    Err(e) => {
                        &&& post == (App {
                            datto_av_loading: post.datto_av_loading,
                            error: post.error,
                            ..pre
                        })
                        &&& match post.error {
                            Some(m) => m@ == "failed to fetch agent for "@ + hostname@ + ": "@
                                + e@,
                            None => false,
                        }
                        &&& reqs == Seq::<DispatchRequest>::empty()
                    },
                }
            }
    )
}

/// What `on_components_fetched` does, as a relation between the states before
/// and after and the issued requests.
pub open spec fn on_components_fetched_post(
    pre: App,
    ordinal: u64, result: Result<crate::datto::ComponentsResponse, String>,
    post: App,
    reqs: Seq<DispatchRequest>,
) -> bool {
    &&& (
            reqs == Seq::<DispatchRequest>::empty()
    )
    &&& (
            match pre.modal {
                Modal::Wizard(w) => if ordinal == pre.ords.components {
                    match result {
                        Ok(resp) => {
                            &&& post == (App { modal: post.modal, ..pre })
                            &&& match post.modal {
                                Modal::Wizard(w2) => {
                                    &&& w2 == (crate::modal::RunComponentState {
                                        components: w2.components,
                                        filtered: w2.filtered,
                                        selected: None,
                                        loading: false,
                                        ..w
                                    })
                                    &&& w2.components@.to_multiset()
                                        == resp.components@.to_multiset()
                                    &&& w2.components@.len() == resp.components@.len()
                                    &&& crate::keys::sorted_by_folded_name(w2.components@)
                                    &&& w2.filtered.items@ == Seq::new(
                                        resp.components@.len(),
                                        |j: int| j as usize,
                                    )
                                    &&& w2.filtered.cursor
                                        == PaginatedList::<usize>::spec_reset_cursor(
                                        resp.components@.len(),
                                    )
                                    &&& !w2.filtered.loading
                                },
                                _ => false,
                            }
                        },
                        Err(e) => {
                            &&& post == (App { modal: post.modal, ..pre })
                            &&& match post.modal {
                                Modal::Wizard(w2) => w2 == (crate::modal::RunComponentState {
                                    error: Some(e),
                                    loading: false,
                                    ..w
                                }),
                                _ => false,
                            }
                        },
                    }
                } else {
                    post == pre
                },
                _ => post == pre,
            }
    )
}

/// What `on_quick_job_executed` does, as a relation between the states before
/// and after and the issued requests.
pub open spec fn on_quick_job_executed_post(
    pre: App,
    ordinal: u64, result: Result<crate::datto::QuickJobResponse, String>,
    post: App,
    reqs: Seq<DispatchRequest>,
) -> bool {
    &&& (
            reqs == Seq::<DispatchRequest>::empty()
    )
    &&& (
            match pre.modal {
                Modal::Wizard(w) => if ordinal == pre.ords.quick_job {
                    match result {
                        Ok(resp) => post == (App {
                            modal: Modal::Wizard(
                                crate::modal::RunComponentState {
                                    last_job_response: Some(resp),
                                    step: crate::modal::RunComponentStep::Result,
                                    loading: false,
                                    ..w
                                },
                            ),
                            ..pre
                        }),
                        Err(e) => post == (App {
                            modal: Modal::Wizard(
                                crate::modal::RunComponentState {
                                    error: Some(e),
                                    step: crate::modal::RunComponentStep::Result,
                                    loading: false,
                                    ..w
                                },
                            ),
                            ..pre
                        }),
                    }
                } else {
                    post == pre
                },
                _ => post == pre,
            }
    )
}

/// What `on_job_stdout_fetched` does, as a relation between the states before
/// and after and the issued requests.
pub open spec fn on_job_stdout_fetched_post(
    pre: App,
    ordinal: u64, result: Result<Vec<crate::datto::JobStdOutput>, String>,
    post: App,
    reqs: Seq<DispatchRequest>,
) -> bool {
    &&& (
            reqs == Seq::<DispatchRequest>::empty()
    )
    &&& (
            match pre.modal {
                Modal::Output(p) => if ordinal == pre.ords.popup {
                    &&& post == (App { modal: post.modal, ..pre })
                    &&& match post.modal {
                        Modal::Output(p2) => {
                            &&& p2.title == p.title
                            &&& !p2.loading
                            &&& match result {
                                Ok(outputs) => match spec_popup_text(
                                    pre.selected_job_result,
                                    pre.selected_job_row_index as int,
                                    outputs@,
                                    "No StdOut data"@,
                                    "No StdOut found for this component"@,
                                    "Component UID missing"@,
                                ) {
                                    Some(t) => p2.content@ == t,
                                    None => p2.content == p.content,
                                },
                                Err(e) => p2.content@ == "error: "@ + e@,
                            }
                        },
                        _ => false,
                    }
                } else {
                    post == pre
                },
                _ => post == pre,
            }
    )
}

/// What `on_job_stderr_fetched` does, as a relation between the states before
/// and after and the issued requests.
pub open spec fn on_job_stderr_fetched_post(
    pre: App,
    ordinal: u64, result: Result<Vec<crate::datto::JobStdOutput>, String>,
    post: App,
    reqs: Seq<DispatchRequest>,
) -> bool {
    &&& (
            reqs == Seq::<DispatchRequest>::empty()
    )
    &&& (
            match pre.modal {
                Modal::Output(p) => if ordinal == pre.ords.popup {
                    &&& post == (App { modal: post.modal, ..pre })
                    &&& match post.modal {
                        Modal::Output(p2) => {
                            &&& p2.title == p.title
                            &&& !p2.loading
                            &&& match result {
                                Ok(outputs) => match spec_popup_text(
                                    pre.selected_job_result,
                                    pre.selected_job_row_index as int,
                                    outputs@,
                                    "No StdErr data"@,
                                    "No StdErr found for this component"@,
                                    "Component UID missing"@,
                                ) {
                                    Some(t) => p2.content@ == t,
                                    None => p2.content == p.content,
                                },
                                Err(e) => p2.content@ == "error: "@ + e@,
                            }
                        },
                        _ => false,
                    }
                } else {
                    post == pre
                },
                _ => post == pre,
            }
    )
}

} // verus!
