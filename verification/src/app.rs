//! The application state machine: the single writer of all UI-visible
//! state.
//!
//! The state is the cross product of the active screen and the active
//! modal, plus one slot per fetched collection. Messages are applied one
//! at a time; each application returns the background requests it decided
//! to issue. Every slot carries a dispatch ordinal: a completion is
//! applied only when it echoes the slot's current ordinal, so a
//! superseded request's late result can never overwrite a newer one.

use vstd::prelude::*;
use crate::datto::{
    ActivityLog, Alert, Device, Site, SiteVariable, Udf, UDF_COUNT,
};
use crate::datto_av::{AgentDetail, Alert as AvAlert};
use crate::list::PaginatedList;
use crate::modal::{
    CurrentView, DeviceDetailTab, Modal, OptimisticEdit, PendingUdfEdit, SiteDetailTab,
    SiteEditState,
};
use crate::msg::{DispatchRequest, Ordinals, ScanStatus};
use crate::rocket_cyber::Incident;
use crate::sophos::Endpoint;
use crate::stats::IncidentStats;
use crate::store::{spec_bump, KeyedStore};
use crate::datto::JobResult;

verus! {

/// Rows fetched per page of the site list.
pub const PAGE_SIZE: i32 = 50;

/// The highest row index of the settings tab: name, description, notes,
/// and the two toggles.
pub const SETTINGS_LAST_ROW: usize = 4;

#[derive(Debug)]
pub struct App {
    /// Set by the quit input; the outer loop exits when it sees it.
    pub should_quit: bool,
    /// The top-level status message.
    pub error: Option<String>,
    pub current_view: CurrentView,
    pub modal: Modal,
    /// Which backends are configured; a request is issued only toward a
    /// configured backend.
    pub has_rmm: bool,
    pub has_rocket: bool,
    pub has_sophos: bool,
    pub has_datto_av: bool,
    /// Current dispatch ordinal of each singleton slot.
    pub ords: Ordinals,
    // The site list and its page position.
    pub sites: PaginatedList<Site>,
    pub current_page: i32,
    pub total_pages: i32,
    pub total_count: i32,
    // The incident feed and its reconciled aggregate.
    pub incidents: Vec<Incident>,
    pub incident_stats: KeyedStore<IncidentStats>,
    // The site detail screen.
    pub detail_tab: SiteDetailTab,
    pub devices: PaginatedList<Device>,
    pub variables_cursor: Option<usize>,
    pub settings_cursor: Option<usize>,
    pub site_edit_state: SiteEditState,
    pub pending_site_edit: Option<OptimisticEdit>,
    /// Dispatch ordinal of each site's variable fetch, keyed by site uid.
    pub var_ordinals: KeyedStore<u64>,
    // The device detail screen.
    pub selected_device: Option<Device>,
    pub device_detail_tab: DeviceDetailTab,
    pub activity_logs: PaginatedList<ActivityLog>,
    pub open_alerts: PaginatedList<Alert>,
    pub pending_udf_edit: Option<PendingUdfEdit>,
    // The activity detail screen.
    pub selected_activity_log: Option<ActivityLog>,
    pub selected_job_result: Option<JobResult>,
    pub job_result_loading: bool,
    pub job_result_error: Option<String>,
    pub selected_job_row_index: usize,
    // Per-host security data, keyed by hostname (cases by tenant).
    pub sophos_endpoints: KeyedStore<Endpoint>,
    pub sophos_loading: KeyedStore<bool>,
    pub sophos_endpoint_ordinals: KeyedStore<u64>,
    pub sophos_case_ordinals: KeyedStore<u64>,
    pub datto_av_agents: KeyedStore<AgentDetail>,
    pub datto_av_loading: KeyedStore<bool>,
    pub datto_av_agent_ordinals: KeyedStore<u64>,
    pub datto_av_alerts: KeyedStore<Vec<AvAlert>>,
    pub datto_av_alert_ordinals: KeyedStore<u64>,
    pub datto_av_policies: KeyedStore<String>,
    pub datto_av_policy_ordinals: KeyedStore<u64>,
    pub scan_status: KeyedStore<ScanStatus>,
}

impl App {
    /// The modal's own lists and indexes are in range.
    pub open spec fn modal_wf(self) -> bool {
        match self.modal {
            Modal::ListPicker(ds) => ds.results.cursor_ok(),
            Modal::Wizard(w) => {
                &&& w.filtered.cursor_ok()
                &&& forall|i: int|
                    0 <= i < w.filtered.items@.len() ==> w.filtered.items@[i]
                        < w.components@.len()
                &&& match w.selected {
                    Some(s) => s < w.components@.len(),
                    None => true,
                }
                &&& w.step == crate::modal::RunComponentStep::FillVariables
                    ==> w.variable_index < w.variables@.len()
            },
            Modal::UdfPicker { cursor } => cursor < UDF_COUNT,
            _ => true,
        }
    }

    /// Every cursor points into its list, and every keyed store keeps its
    /// keys unique. This holds of the initial state and after every
    /// message.
    pub open spec fn wf(self) -> bool {
        &&& self.sites.cursor_ok()
        &&& self.devices.cursor_ok()
        &&& self.activity_logs.cursor_ok()
        &&& self.open_alerts.cursor_ok()
        &&& match self.settings_cursor {
            Some(i) => i <= SETTINGS_LAST_ROW,
            None => true,
        }
        &&& self.incident_stats.wf()
        &&& self.var_ordinals.wf()
        &&& self.sophos_endpoints.wf()
        &&& self.sophos_loading.wf()
        &&& self.sophos_endpoint_ordinals.wf()
        &&& self.sophos_case_ordinals.wf()
        &&& self.datto_av_agents.wf()
        &&& self.datto_av_loading.wf()
        &&& self.datto_av_agent_ordinals.wf()
        &&& self.datto_av_alerts.wf()
        &&& self.datto_av_alert_ordinals.wf()
        &&& self.datto_av_policies.wf()
        &&& self.datto_av_policy_ordinals.wf()
        &&& self.scan_status.wf()
        &&& self.modal_wf()
    }

    /// A fresh state: the list screen, no modal, everything empty, toward
    /// the given set of configured backends.
    pub fn new(has_rmm: bool, has_rocket: bool, has_sophos: bool, has_datto_av: bool) -> (r: App)
        ensures
            r.wf(),
            !r.should_quit,
            r.error is None,
            r.current_view == CurrentView::List,
            r.modal is Idle,
            r.has_rmm == has_rmm,
            r.has_rocket == has_rocket,
            r.has_sophos == has_sophos,
            r.has_datto_av == has_datto_av,
            r.ords == Ordinals::spec_new(),
            r.sites.items@.len() == 0,
            r.sites.cursor is None,
            !r.sites.loading,
            r.sites.last_error is None,
            r.current_page == 0,
            r.total_pages == 0,
            r.total_count == 0,
            r.incidents@.len() == 0,
            r.incident_stats@ == Map::<Seq<char>, IncidentStats>::empty(),
            r.detail_tab == SiteDetailTab::Devices,
            r.devices.items@.len() == 0,
            r.devices.cursor is None,
            r.variables_cursor is None,
            r.settings_cursor is None,
            !r.site_edit_state.is_editing,
            r.pending_site_edit is None,
            r.var_ordinals@ == Map::<Seq<char>, u64>::empty(),
            r.selected_device is None,
            r.device_detail_tab == DeviceDetailTab::OpenAlerts,
            r.activity_logs.items@.len() == 0,
            r.open_alerts.items@.len() == 0,
            r.pending_udf_edit is None,
            r.selected_activity_log is None,
            r.selected_job_result is None,
            !r.job_result_loading,
            r.job_result_error is None,
            r.selected_job_row_index == 0,
            r.sophos_endpoints@ == Map::<Seq<char>, Endpoint>::empty(),
            r.scan_status@ == Map::<Seq<char>, ScanStatus>::empty(),
    {
        App {
            should_quit: false,
            error: None,
            current_view: CurrentView::List,
            modal: Modal::Idle,
            has_rmm,
            has_rocket,
            has_sophos,
            has_datto_av,
            ords: Ordinals::new(),
            sites: PaginatedList::new(),
            current_page: 0,
            total_pages: 0,
            total_count: 0,
            incidents: Vec::new(),
            incident_stats: KeyedStore::new(),
            detail_tab: SiteDetailTab::Devices,
            devices: PaginatedList::new(),
            variables_cursor: None,
            settings_cursor: None,
            site_edit_state: Default::default(),
            pending_site_edit: None,
            var_ordinals: KeyedStore::new(),
            selected_device: None,
            device_detail_tab: DeviceDetailTab::OpenAlerts,
            activity_logs: PaginatedList::new(),
            open_alerts: PaginatedList::new(),
            pending_udf_edit: None,
            selected_activity_log: None,
            selected_job_result: None,
            job_result_loading: false,
            job_result_error: None,
            selected_job_row_index: 0,
            sophos_endpoints: KeyedStore::new(),
            sophos_loading: KeyedStore::new(),
            sophos_endpoint_ordinals: KeyedStore::new(),
            sophos_case_ordinals: KeyedStore::new(),
            datto_av_agents: KeyedStore::new(),
            datto_av_loading: KeyedStore::new(),
            datto_av_agent_ordinals: KeyedStore::new(),
            datto_av_alerts: KeyedStore::new(),
            datto_av_alert_ordinals: KeyedStore::new(),
            datto_av_policies: KeyedStore::new(),
            datto_av_policy_ordinals: KeyedStore::new(),
            scan_status: KeyedStore::new(),
        }
    }

    /// Marks the site list loading and issues its fetch, toward a
    /// configured primary backend; without one, nothing happens.
    pub fn fetch_sites(&mut self) -> (reqs: Vec<DispatchRequest>)
        requires
            old(self).wf(),
        ensures
            final(self).wf(),
            old(self).has_rmm ==> {
                &&& *final(self) == (App {
                    error: None,
                    sites: (PaginatedList {
                        loading: true,
                        last_error: None,
                        ..old(self).sites
                    }),
                    ords: (Ordinals { sites: spec_bump(old(self).ords.sites), ..old(self).ords }),
                    ..*old(self)
                })
                &&& reqs@ == seq![
                    DispatchRequest::FetchSites {
                        page: old(self).current_page,
                        ordinal: spec_bump(old(self).ords.sites),
                    },
                ]
            },
            !old(self).has_rmm ==> *final(self) == *old(self) && reqs@ == Seq::<
                DispatchRequest,
            >::empty(),
    {
        let mut reqs: Vec<DispatchRequest> = Vec::new();
        if self.has_rmm {
            self.error = None;
            self.sites.begin_load();
            let o = bump(&mut self.ords.sites);
            reqs.push(DispatchRequest::FetchSites { page: self.current_page, ordinal: o });
            proof {
                assert(reqs@ =~= seq![
                    DispatchRequest::FetchSites {
                        page: old(self).current_page,
                        ordinal: spec_bump(old(self).ords.sites),
                    },
                ]);
            }
        }
        reqs
    }

    /// Issues the incident-feed fetch, toward a configured incident
    /// backend; without one, nothing happens.
    pub fn fetch_rocket_incidents(&mut self) -> (reqs: Vec<DispatchRequest>)
        requires
            old(self).wf(),
        ensures
            final(self).wf(),
            old(self).has_rocket ==> {
                &&& *final(self) == (App {
                    ords: (Ordinals {
                        incidents: spec_bump(old(self).ords.incidents),
                        ..old(self).ords
                    }),
                    ..*old(self)
                })
                &&& reqs@ == seq![
                    DispatchRequest::FetchIncidents {
                        ordinal: spec_bump(old(self).ords.incidents),
                    },
                ]
            },
            !old(self).has_rocket ==> *final(self) == *old(self) && reqs@ == Seq::<
                DispatchRequest,
            >::empty(),
    {
        let mut reqs: Vec<DispatchRequest> = Vec::new();
        if self.has_rocket {
            let o = bump(&mut self.ords.incidents);
            reqs.push(DispatchRequest::FetchIncidents { ordinal: o });
            proof {
                assert(reqs@ =~= seq![
                    DispatchRequest::FetchIncidents {
                        ordinal: spec_bump(old(self).ords.incidents),
                    },
                ]);
            }
        }
        reqs
    }

    /// The requests to issue before the first message: the site list and
    /// the incident feed, toward whichever backends are configured. With
    /// no primary backend, the status area says so instead.
    pub fn startup(&mut self) -> (reqs: Vec<DispatchRequest>)
        requires
            old(self).wf(),
        ensures
            final(self).wf(),
            *final(self) == (App {
                error: final(self).error,
                sites: final(self).sites,
                ords: (Ordinals {
                    sites: (if old(self).has_rmm {
                        spec_bump(old(self).ords.sites)
                    } else {
                        old(self).ords.sites
                    }),
                    incidents: (if old(self).has_rocket {
                        spec_bump(old(self).ords.incidents)
                    } else {
                        old(self).ords.incidents
                    }),
                    ..old(self).ords
                }),
                ..*old(self)
            }),
            reqs@.len() == (if old(self).has_rmm {
                1int
            } else {
                0int
            }) + (if old(self).has_rocket {
                1int
            } else {
                0int
            }),
            old(self).has_rmm ==> ({
                &&& final(self).sites == (PaginatedList {
                    loading: true,
                    last_error: None,
                    ..old(self).sites
                })
                &&& final(self).error is None
                &&& reqs@[0] == (DispatchRequest::FetchSites {
                    page: old(self).current_page,
                    ordinal: spec_bump(old(self).ords.sites),
                })
            }),
            !old(self).has_rmm ==> ({
                &&& final(self).sites == old(self).sites
                &&& match final(self).error {
                    Some(m) => m@ == "API client not initialized; check the configuration"@,
                    None => false,
                }
            }),
            old(self).has_rocket ==> reqs@[reqs@.len() - 1] == (DispatchRequest::FetchIncidents {
                ordinal: spec_bump(old(self).ords.incidents),
            }),
    {
        let mut reqs = self.fetch_sites();
        if !self.has_rmm {
            self.error = Some(make_string("API client not initialized; check the configuration"));
        }
        let mut more = self.fetch_rocket_incidents();
        reqs.append(&mut more);
        reqs
    }

    // Navigation over the site list.

    /// Moves the site selection one row down, wrapping at the end.
    pub fn next_row(&mut self)
        requires
            old(self).wf(),
        ensures
            final(self).wf(),
            *final(self) == (App {
                sites: (PaginatedList {
                    cursor: old(self).sites.spec_next_cursor(),
                    ..old(self).sites
                }),
                ..*old(self)
            }),
    {
        self.sites.select_next();
    }

    /// Moves the site selection one row up, wrapping at the start.
    pub fn previous_row(&mut self)
        requires
            old(self).wf(),
        ensures
            final(self).wf(),
            *final(self) == (App {
                sites: (PaginatedList {
                    cursor: old(self).sites.spec_prev_cursor(),
                    ..old(self).sites
                }),
                ..*old(self)
            }),
    {
        self.sites.select_prev();
    }

    /// Moves the device selection one row down, wrapping at the end.
    pub fn next_device(&mut self)
        requires
            old(self).wf(),
        ensures
            final(self).wf(),
            *final(self) == (App {
                devices: (PaginatedList {
                    cursor: old(self).devices.spec_next_cursor(),
                    ..old(self).devices
                }),
                ..*old(self)
            }),
    {
        self.devices.select_next();
    }

    /// Moves the device selection one row up, wrapping at the start.
    pub fn prev_device(&mut self)
        requires
            old(self).wf(),
        ensures
            final(self).wf(),
            *final(self) == (App {
                devices: (PaginatedList {
                    cursor: old(self).devices.spec_prev_cursor(),
                    ..old(self).devices
                }),
                ..*old(self)
            }),
    {
        self.devices.select_prev();
    }

    /// Moves the open-alert selection one row down, wrapping at the end.
    pub fn next_open_alert(&mut self)
        requires
            old(self).wf(),
        ensures
            final(self).wf(),
            *final(self) == (App {
                open_alerts: (PaginatedList {
                    cursor: old(self).open_alerts.spec_next_cursor(),
                    ..old(self).open_alerts
                }),
                ..*old(self)
            }),
    {
        self.open_alerts.select_next();
    }

    /// Moves the open-alert selection one row up, wrapping at the start.
    pub fn prev_open_alert(&mut self)
        requires
            old(self).wf(),
        ensures
            final(self).wf(),
            *final(self) == (App {
                open_alerts: (PaginatedList {
                    cursor: old(self).open_alerts.spec_prev_cursor(),
                    ..old(self).open_alerts
                }),
                ..*old(self)
            }),
    {
        self.open_alerts.select_prev();
    }

    /// Moves the activity-log selection one row down, wrapping at the end.
    pub fn next_activity_log(&mut self)
        requires
            old(self).wf(),
        ensures
            final(self).wf(),
            *final(self) == (App {
                activity_logs: (PaginatedList {
                    cursor: old(self).activity_logs.spec_next_cursor(),
                    ..old(self).activity_logs
                }),
                ..*old(self)
            }),
    {
        self.activity_logs.select_next();
    }

    /// Moves the activity-log selection one row up, wrapping at the start.
    pub fn prev_activity_log(&mut self)
        requires
            old(self).wf(),
        ensures
            final(self).wf(),
            *final(self) == (App {
                activity_logs: (PaginatedList {
                    cursor: old(self).activity_logs.spec_prev_cursor(),
                    ..old(self).activity_logs
                }),
                ..*old(self)
            }),
    {
        self.activity_logs.select_prev();
    }

    /// How many rows the variables tab shows for the selected site: one
    /// per variable, plus the trailing create row.
    pub open spec fn spec_variable_count(self) -> nat {
        match self.sites.cursor {
            Some(i) => if i < self.sites.items@.len() {
                match self.sites.items@[i as int].variables {
                    Some(vs) => vs@.len(),
                    None => 0,
                }
            } else {
                0
            },
            None => 0,
        }
    }

    /// The variables cursor after one step down: wraps past the create
    /// row back to the first variable.
    pub open spec fn spec_next_variable_cursor(self) -> Option<usize> {
        match self.sites.cursor {
            Some(_) => Some(
                match self.variables_cursor {
                    Some(i) => if i >= self.spec_variable_count() {
                        0usize
                    } else {
                        (i + 1) as usize
                    },
                    None => 0usize,
                },
            ),
            None => self.variables_cursor,
        }
    }

    /// The variables cursor after one step up: wraps from the first
    /// variable to the create row.
    pub open spec fn spec_prev_variable_cursor(self) -> Option<usize> {
        match self.sites.cursor {
            Some(_) => Some(
                match self.variables_cursor {
                    Some(i) => if i == 0 {
                        self.spec_variable_count() as usize
                    } else {
                        (i - 1) as usize
                    },
                    None => 0usize,
                },
            ),
            None => self.variables_cursor,
        }
    }

    /// Moves the variable selection one row down; the row one past the
    /// last variable is the create row.
    pub fn next_variable(&mut self)
        requires
            old(self).wf(),
        ensures
            final(self).wf(),
            *final(self) == (App {
                variables_cursor: old(self).spec_next_variable_cursor(),
                ..*old(self)
            }),
    {
        if let Some(site_idx) = self.sites.selected() {
            let count = match &self.sites.items[site_idx].variables {
                Some(vs) => vs.len(),
                None => 0,
            };
            self.variables_cursor = match self.variables_cursor {
                Some(i) => if i >= count {
                    Some(0)
                } else {
                    Some(i + 1)
                },
                None => Some(0),
            };
        }
    }

    /// Moves the variable selection one row up.
    pub fn prev_variable(&mut self)
        requires
            old(self).wf(),
        ensures
            final(self).wf(),
            *final(self) == (App {
                variables_cursor: old(self).spec_prev_variable_cursor(),
                ..*old(self)
            }),
    {
        if let Some(site_idx) = self.sites.selected() {
            let count = match &self.sites.items[site_idx].variables {
                Some(vs) => vs.len(),
                None => 0,
            };
            self.variables_cursor = match self.variables_cursor {
                Some(i) => if i == 0 {
                    Some(count)
                } else {
                    Some(i - 1)
                },
                None => Some(0),
            };
        }
    }

    /// The settings cursor after one step down, wrapping past the last
    /// row.
    pub open spec fn spec_next_setting_cursor(self) -> Option<usize> {
        Some(
            match self.settings_cursor {
                Some(i) => if i >= SETTINGS_LAST_ROW {
                    0usize
                } else {
                    (i + 1) as usize
                },
                None => 0usize,
            },
        )
    }

    /// The settings cursor after one step up, wrapping before the first
    /// row.
    pub open spec fn spec_prev_setting_cursor(self) -> Option<usize> {
        Some(
            match self.settings_cursor {
                Some(i) => if i == 0 {
                    SETTINGS_LAST_ROW
                } else {
                    (i - 1) as usize
                },
                None => 0usize,
            },
        )
    }

    /// Moves the settings selection one row down, wrapping at the end.
    pub fn next_setting(&mut self)
        requires
            old(self).wf(),
        ensures
            final(self).wf(),
            *final(self) == (App {
                settings_cursor: old(self).spec_next_setting_cursor(),
                ..*old(self)
            }),
    {
        self.settings_cursor = match self.settings_cursor {
            Some(i) => if i >= SETTINGS_LAST_ROW {
                Some(0)
            } else {
                Some(i + 1)
            },
            None => Some(0),
        };
    }

    /// Moves the settings selection one row up, wrapping at the start.
    pub fn prev_setting(&mut self)
        requires
            old(self).wf(),
        ensures
            final(self).wf(),
            *final(self) == (App {
                settings_cursor: old(self).spec_prev_setting_cursor(),
                ..*old(self)
            }),
    {
        self.settings_cursor = match self.settings_cursor {
            Some(i) => if i == 0 {
                Some(SETTINGS_LAST_ROW)
            } else {
                Some(i - 1)
            },
            None => Some(0),
        };
    }
}

/// Advances a slot ordinal in place and returns the new value.
pub fn bump(o: &mut u64) -> (r: u64)
    ensures
        *final(o) == spec_bump(*old(o)),
        r == *final(o),
{
    if *o != u64::MAX {
        *o = *o + 1;
    }
    *o
}

/// Builds an owned string from fixed text.
pub fn make_string(s: &str) -> (r: String)
    ensures
        r@ == s@,
{
    String::from_str(s)
}

} // verus!
