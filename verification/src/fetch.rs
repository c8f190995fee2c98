//! Dispatch helpers: each marks its slot loading, clears the slot's
//! previous error, advances the slot's dispatch ordinal and returns the
//! request to run. A request is issued only toward a configured backend;
//! otherwise nothing changes.

use vstd::prelude::*;
use crate::app::{bump, make_string, App};
use crate::datto::{Udf, UDF_COUNT, AGENT_ID_UDF_SLOT, Site};
use crate::list::PaginatedList;
use crate::msg::{DispatchRequest, Ordinals, ScanStatus};
use crate::store::spec_bump;

verus! {

/// A fresh set of user-defined fields carrying only the cached agent
/// identifier.
pub fn agent_id_udf(id: String) -> (u: Udf)
    ensures
        u.values@ == crate::datto::spec_udf_values_with_agent_id(None, id),
{
    let mut u = Udf::empty();
    u.set_value_at(AGENT_ID_UDF_SLOT, id);
    proof {
        assert(u.values@ =~= crate::datto::spec_udf_values_with_agent_id(
            None,
            u.values@[AGENT_ID_UDF_SLOT as int]->0,
        ));
    }
    u
}

/// The first site carrying a uid, if any.
pub fn find_site_index(sites: &Vec<Site>, uid: &str) -> (r: Option<usize>)
    ensures
        match r {
            Some(i) => i < sites@.len() && sites@[i as int].uid@ == uid@ && (forall|j: int|
                0 <= j < i ==> sites@[j].uid@ != uid@),
            None => forall|j: int| 0 <= j < sites@.len() ==> sites@[j].uid@ != uid@,
        },
{
    let n = sites.len();
    let mut i: usize = 0;
    while i < n
        invariant
            n == sites@.len(),
            i <= n,
            forall|j: int| 0 <= j < i ==> sites@[j].uid@ != uid@,
        decreases n - i,
    {
        if crate::strings::str_eq_str(sites[i].uid.as_str(), uid) {
            return Some(i);
        }
        i = i + 1;
    }
    None
}

impl App {
    /// Marks the device list loading, clears it, and issues its fetch.
    pub fn fetch_devices(&mut self, site_uid: String) -> (reqs: Vec<DispatchRequest>)
        requires
            old(self).wf(),
        ensures
            final(self).wf(),
            old(self).has_rmm ==> {
                &&& *final(self) == (App {
                    devices: final(self).devices,
                    ords: (Ordinals {
                        devices: spec_bump(old(self).ords.devices),
                        ..old(self).ords
                    }),
                    ..*old(self)
                })
                &&& final(self).devices.items@.len() == 0
                &&& final(self).devices.cursor is None
                &&& final(self).devices.loading
                &&& final(self).devices.last_error is None
                &&& reqs@ == seq![
                    DispatchRequest::FetchDevices {
                        site_uid,
                        ordinal: spec_bump(old(self).ords.devices),
                    },
                ]
            },
            !old(self).has_rmm ==> *final(self) == *old(self) && reqs@ == Seq::<
                DispatchRequest,
            >::empty(),
    {
        let mut reqs: Vec<DispatchRequest> = Vec::new();
        if self.has_rmm {
            self.devices.begin_load();
            self.devices.clear_items();
            let o = bump(&mut self.ords.devices);
            reqs.push(DispatchRequest::FetchDevices { site_uid, ordinal: o });
            proof {
                assert(reqs@ =~= seq![reqs@[0]]);
            }
        }
        reqs
    }

    /// Marks the activity-log list loading, clears it, and issues its
    /// fetch for one device of one site.
    pub fn fetch_activity_logs(&mut self, device_id: i32, site_id: i32) -> (reqs: Vec<
        DispatchRequest,
    >)
        requires
            old(self).wf(),
        ensures
            final(self).wf(),
            old(self).has_rmm ==> {
                &&& *final(self) == (App {
                    activity_logs: final(self).activity_logs,
                    ords: (Ordinals {
                        activity_logs: spec_bump(old(self).ords.activity_logs),
                        ..old(self).ords
                    }),
                    ..*old(self)
                })
                &&& final(self).activity_logs.items@.len() == 0
                &&& final(self).activity_logs.cursor is None
                &&& final(self).activity_logs.loading
                &&& final(self).activity_logs.last_error is None
                &&& reqs@ == seq![
                    DispatchRequest::FetchActivityLogs {
                        device_id,
                        site_id,
                        ordinal: spec_bump(old(self).ords.activity_logs),
                    },
                ]
            },
            !old(self).has_rmm ==> *final(self) == *old(self) && reqs@ == Seq::<
                DispatchRequest,
            >::empty(),
    {
        let mut reqs: Vec<DispatchRequest> = Vec::new();
        if self.has_rmm {
            self.activity_logs.begin_load();
            self.activity_logs.clear_items();
            let o = bump(&mut self.ords.activity_logs);
            reqs.push(DispatchRequest::FetchActivityLogs { device_id, site_id, ordinal: o });
            proof {
                assert(reqs@ =~= seq![reqs@[0]]);
            }
        }
        reqs
    }

    /// Marks the open-alert list loading, clears it, and issues its fetch.
    pub fn fetch_open_alerts(&mut self, device_uid: String) -> (reqs: Vec<DispatchRequest>)
        requires
            old(self).wf(),
        ensures
            final(self).wf(),
            old(self).has_rmm ==> {
                &&& *final(self) == (App {
                    open_alerts: final(self).open_alerts,
                    ords: (Ordinals {
                        open_alerts: spec_bump(old(self).ords.open_alerts),
                        ..old(self).ords
                    }),
                    ..*old(self)
                })
                &&& final(self).open_alerts.items@.len() == 0
                &&& final(self).open_alerts.cursor is None
                &&& final(self).open_alerts.loading
                &&& final(self).open_alerts.last_error is None
                &&& reqs@ == seq![
                    DispatchRequest::FetchOpenAlerts {
                        device_uid,
                        ordinal: spec_bump(old(self).ords.open_alerts),
                    },
                ]
            },
            !old(self).has_rmm ==> *final(self) == *old(self) && reqs@ == Seq::<
                DispatchRequest,
            >::empty(),
    {
        let mut reqs: Vec<DispatchRequest> = Vec::new();
        if self.has_rmm {
            self.open_alerts.begin_load();
            self.open_alerts.clear_items();
            let o = bump(&mut self.ords.open_alerts);
            reqs.push(DispatchRequest::FetchOpenAlerts { device_uid, ordinal: o });
            proof {
                assert(reqs@ =~= seq![reqs@[0]]);
            }
        }
        reqs
    }

    /// Resets the job-result pane to loading and issues its fetch.
    pub fn fetch_job_result(&mut self, job_uid: String, device_uid: String) -> (reqs: Vec<
        DispatchRequest,
    >)
        requires
            old(self).wf(),
        ensures
            final(self).wf(),
            old(self).has_rmm ==> {
                &&& *final(self) == (App {
                    selected_job_result: None,
                    job_result_loading: true,
                    job_result_error: None,
                    selected_job_row_index: 0,
                    ords: (Ordinals {
                        job_result: spec_bump(old(self).ords.job_result),
                        ..old(self).ords
                    }),
                    ..*old(self)
                })
                &&& reqs@ == seq![
                    DispatchRequest::FetchJobResult {
                        job_uid,
                        device_uid,
                        ordinal: spec_bump(old(self).ords.job_result),
                    },
                ]
            },
            !old(self).has_rmm ==> *final(self) == *old(self) && reqs@ == Seq::<
                DispatchRequest,
            >::empty(),
    {
        let mut reqs: Vec<DispatchRequest> = Vec::new();
        if self.has_rmm {
            self.job_result_loading = true;
            self.job_result_error = None;
            self.selected_job_result = None;
            self.selected_job_row_index = 0;
            let o = bump(&mut self.ords.job_result);
            reqs.push(DispatchRequest::FetchJobResult { job_uid, device_uid, ordinal: o });
            proof {
                assert(reqs@ =~= seq![reqs@[0]]);
            }
        }
        reqs
    }

    /// Opens the output popup in its loading state and issues the
    /// standard-output fetch.
    pub fn fetch_job_stdout(&mut self, job_uid: String, device_uid: String) -> (reqs: Vec<
        DispatchRequest,
    >)
        requires
            old(self).wf(),
        ensures
            final(self).wf(),
            old(self).has_rmm ==> {
                &&& *final(self) == (App {
                    modal: final(self).modal,
                    ords: (Ordinals {
                        popup: spec_bump(old(self).ords.popup),
                        ..old(self).ords
                    }),
                    ..*old(self)
                })
                &&& match final(self).modal {
                    crate::modal::Modal::Output(p) => p.title@ == "StdOut"@ && p.content@
                        == "Loading..."@ && p.loading,
                    _ => false,
                }
                &&& reqs@ == seq![
                    DispatchRequest::FetchJobStdOut {
                        job_uid,
                        device_uid,
                        ordinal: spec_bump(old(self).ords.popup),
                    },
                ]
            },
            !old(self).has_rmm ==> *final(self) == *old(self) && reqs@ == Seq::<
                DispatchRequest,
            >::empty(),
    {
        let mut reqs: Vec<DispatchRequest> = Vec::new();
        if self.has_rmm {
            self.modal = crate::modal::Modal::Output(
                crate::modal::OutputPopup {
                    title: make_string("StdOut"),
                    content: make_string("Loading..."),
                    loading: true,
                },
            );
            let o = bump(&mut self.ords.popup);
            reqs.push(DispatchRequest::FetchJobStdOut { job_uid, device_uid, ordinal: o });
            proof {
                assert(reqs@ =~= seq![reqs@[0]]);
            }
        }
        reqs
    }

    /// Opens the output popup in its loading state and issues the
    /// standard-error fetch.
    pub fn fetch_job_stderr(&mut self, job_uid: String, device_uid: String) -> (reqs: Vec<
        DispatchRequest,
    >)
        requires
            old(self).wf(),
        ensures
            final(self).wf(),
            old(self).has_rmm ==> {
                &&& *final(self) == (App {
                    modal: final(self).modal,
                    ords: (Ordinals {
                        popup: spec_bump(old(self).ords.popup),
                        ..old(self).ords
                    }),
                    ..*old(self)
                })
                &&& match final(self).modal {
                    crate::modal::Modal::Output(p) => p.title@ == "StdErr"@ && p.content@
                        == "Loading..."@ && p.loading,
                    _ => false,
                }
                &&& reqs@ == seq![
                    DispatchRequest::FetchJobStdErr {
                        job_uid,
                        device_uid,
                        ordinal: spec_bump(old(self).ords.popup),
                    },
                ]
            },
            !old(self).has_rmm ==> *final(self) == *old(self) && reqs@ == Seq::<
                DispatchRequest,
            >::empty(),
    {
        let mut reqs: Vec<DispatchRequest> = Vec::new();
        if self.has_rmm {
            self.modal = crate::modal::Modal::Output(
                crate::modal::OutputPopup {
                    title: make_string("StdErr"),
                    content: make_string("Loading..."),
                    loading: true,
                },
            );
            let o = bump(&mut self.ords.popup);
            reqs.push(DispatchRequest::FetchJobStdErr { job_uid, device_uid, ordinal: o });
            proof {
                assert(reqs@ =~= seq![reqs@[0]]);
            }
        }
        reqs
    }

    /// Advances a site's variable-fetch ordinal and issues the fetch.
    pub fn fetch_site_variables(&mut self, site_uid: String) -> (reqs: Vec<DispatchRequest>)
        requires
            old(self).wf(),
        ensures
            final(self).wf(),
            old(self).has_rmm ==> {
                &&& *final(self) == (App {
                    var_ordinals: final(self).var_ordinals,
                    ..*old(self)
                })
                &&& final(self).var_ordinals@ == old(self).var_ordinals@.insert(
                    site_uid@,
                    spec_bump(old(self).var_ordinals.spec_ordinal(site_uid@)),
                )
                &&& reqs@ == seq![
                    DispatchRequest::FetchSiteVariables {
                        site_uid,
                        ordinal: spec_bump(old(self).var_ordinals.spec_ordinal(site_uid@)),
                    },
                ]
            },
            !old(self).has_rmm ==> *final(self) == *old(self) && reqs@ == Seq::<
                DispatchRequest,
            >::empty(),
    {
        let mut reqs: Vec<DispatchRequest> = Vec::new();
        if self.has_rmm {
            let o = self.var_ordinals.bump(&site_uid);
            reqs.push(DispatchRequest::FetchSiteVariables { site_uid, ordinal: o });
            proof {
                assert(reqs@ =~= seq![reqs@[0]]);
            }
        }
        reqs
    }

    /// Advances a tenant's case-fetch ordinal and issues the fetch.
    pub fn fetch_sophos_cases(&mut self, tenant_id: String, data_region: Option<String>) -> (reqs:
        Vec<DispatchRequest>)
        requires
            old(self).wf(),
        ensures
            final(self).wf(),
            old(self).has_sophos ==> {
                &&& *final(self) == (App {
                    sophos_case_ordinals: final(self).sophos_case_ordinals,
                    ..*old(self)
                })
                &&& final(self).sophos_case_ordinals@ == old(self).sophos_case_ordinals@.insert(
                    tenant_id@,
                    spec_bump(old(self).sophos_case_ordinals.spec_ordinal(tenant_id@)),
                )
                &&& reqs@ == seq![
                    DispatchRequest::FetchSophosCases {
                        tenant_id,
                        data_region,
                        ordinal: spec_bump(old(self).sophos_case_ordinals.spec_ordinal(tenant_id@)),
                    },
                ]
            },
            !old(self).has_sophos ==> *final(self) == *old(self) && reqs@ == Seq::<
                DispatchRequest,
            >::empty(),
    {
        let mut reqs: Vec<DispatchRequest> = Vec::new();
        if self.has_sophos {
            let o = self.sophos_case_ordinals.bump(&tenant_id);
            reqs.push(DispatchRequest::FetchSophosCases { tenant_id, data_region, ordinal: o });
            proof {
                assert(reqs@ =~= seq![reqs@[0]]);
            }
        }
        reqs
    }

    /// Marks a host's endpoint lookup loading, advances its ordinal and
    /// issues the fetch.
    pub fn fetch_sophos_endpoint(
        &mut self,
        tenant_id: String,
        data_region: Option<String>,
        hostname: String,
    ) -> (reqs: Vec<DispatchRequest>)
        requires
            old(self).wf(),
        ensures
            final(self).wf(),
            old(self).has_sophos ==> {
                &&& *final(self) == (App {
                    sophos_loading: final(self).sophos_loading,
                    sophos_endpoint_ordinals: final(self).sophos_endpoint_ordinals,
                    ..*old(self)
                })
                &&& final(self).sophos_loading@ == old(self).sophos_loading@.insert(hostname@, true)
                &&& final(self).sophos_endpoint_ordinals@ == old(
                    self,
                ).sophos_endpoint_ordinals@.insert(
                    hostname@,
                    spec_bump(old(self).sophos_endpoint_ordinals.spec_ordinal(hostname@)),
                )
                &&& reqs@ == seq![
                    DispatchRequest::FetchSophosEndpoint {
                        tenant_id,
                        data_region,
                        hostname,
                        ordinal: spec_bump(
                            old(self).sophos_endpoint_ordinals.spec_ordinal(hostname@),
                        ),
                    },
                ]
            },
            !old(self).has_sophos ==> *final(self) == *old(self) && reqs@ == Seq::<
                DispatchRequest,
            >::empty(),
    {
        let mut reqs: Vec<DispatchRequest> = Vec::new();
        if self.has_sophos {
            self.sophos_loading.insert(hostname.clone(), true);
            let o = self.sophos_endpoint_ordinals.bump(&hostname);
            reqs.push(
                DispatchRequest::FetchSophosEndpoint { tenant_id, data_region, hostname, ordinal: o },
            );
            proof {
                assert(reqs@ =~= seq![reqs@[0]]);
            }
        }
        reqs
    }

    /// Marks a host's agent lookup loading, advances its ordinal and
    /// issues the fetch; the cached agent identifier, when one is known,
    /// rides along so the lookup can try it first.
    pub fn fetch_datto_av_agent(&mut self, hostname: String, agent_id: Option<String>) -> (reqs:
        Vec<DispatchRequest>)
        requires
            old(self).wf(),
        ensures
            final(self).wf(),
            old(self).has_datto_av ==> {
                &&& *final(self) == (App {
                    datto_av_loading: final(self).datto_av_loading,
                    datto_av_agent_ordinals: final(self).datto_av_agent_ordinals,
                    ..*old(self)
                })
                &&& final(self).datto_av_loading@ == old(self).datto_av_loading@.insert(
                    hostname@,
                    true,
                )
                &&& final(self).datto_av_agent_ordinals@ == old(
                    self,
                ).datto_av_agent_ordinals@.insert(
                    hostname@,
                    spec_bump(old(self).datto_av_agent_ordinals.spec_ordinal(hostname@)),
                )
                &&& reqs@ == seq![
                    DispatchRequest::FetchDattoAvAgent {
                        hostname,
                        agent_id,
                        ordinal: spec_bump(
                            old(self).datto_av_agent_ordinals.spec_ordinal(hostname@),
                        ),
                    },
                ]
            },
            !old(self).has_datto_av ==> *final(self) == *old(self) && reqs@ == Seq::<
                DispatchRequest,
            >::empty(),
    {
        let mut reqs: Vec<DispatchRequest> = Vec::new();
        if self.has_datto_av {
            self.datto_av_loading.insert(hostname.clone(), true);
            let o = self.datto_av_agent_ordinals.bump(&hostname);
            reqs.push(DispatchRequest::FetchDattoAvAgent { hostname, agent_id, ordinal: o });
            proof {
                assert(reqs@ =~= seq![reqs@[0]]);
            }
        }
        reqs
    }

    /// Advances a host's alert-fetch ordinal and issues the fetch.
    pub fn fetch_datto_av_alerts(&mut self, agent_id: String, hostname: String) -> (reqs: Vec<
        DispatchRequest,
    >)
        requires
            old(self).wf(),
        ensures
            final(self).wf(),
            old(self).has_datto_av ==> {
                &&& *final(self) == (App {
                    datto_av_alert_ordinals: final(self).datto_av_alert_ordinals,
                    ..*old(self)
                })
                &&& final(self).datto_av_alert_ordinals@ == old(
                    self,
                ).datto_av_alert_ordinals@.insert(
                    hostname@,
                    spec_bump(old(self).datto_av_alert_ordinals.spec_ordinal(hostname@)),
                )
                &&& reqs@ == seq![
                    DispatchRequest::FetchDattoAvAlerts {
                        agent_id,
                        hostname,
                        ordinal: spec_bump(
                            old(self).datto_av_alert_ordinals.spec_ordinal(hostname@),
                        ),
                    },
                ]
            },
            !old(self).has_datto_av ==> *final(self) == *old(self) && reqs@ == Seq::<
                DispatchRequest,
            >::empty(),
    {
        let mut reqs: Vec<DispatchRequest> = Vec::new();
        if self.has_datto_av {
            let o = self.datto_av_alert_ordinals.bump(&hostname);
            reqs.push(DispatchRequest::FetchDattoAvAlerts { agent_id, hostname, ordinal: o });
            proof {
                assert(reqs@ =~= seq![reqs@[0]]);
            }
        }
        reqs
    }

    /// Advances a host's policy-fetch ordinal and issues the fetch.
    pub fn fetch_datto_av_policies(&mut self, agent_id: String, hostname: String) -> (reqs: Vec<
        DispatchRequest,
    >)
        requires
            old(self).wf(),
        ensures
            final(self).wf(),
            old(self).has_datto_av ==> {
                &&& *final(self) == (App {
                    datto_av_policy_ordinals: final(self).datto_av_policy_ordinals,
                    ..*old(self)
                })
                &&& final(self).datto_av_policy_ordinals@ == old(
                    self,
                ).datto_av_policy_ordinals@.insert(
                    hostname@,
                    spec_bump(old(self).datto_av_policy_ordinals.spec_ordinal(hostname@)),
                )
                &&& reqs@ == seq![
                    DispatchRequest::FetchDattoAvPolicies {
                        agent_id,
                        hostname,
                        ordinal: spec_bump(
                            old(self).datto_av_policy_ordinals.spec_ordinal(hostname@),
                        ),
                    },
                ]
            },
            !old(self).has_datto_av ==> *final(self) == *old(self) && reqs@ == Seq::<
                DispatchRequest,
            >::empty(),
    {
        let mut reqs: Vec<DispatchRequest> = Vec::new();
        if self.has_datto_av {
            let o = self.datto_av_policy_ordinals.bump(&hostname);
            reqs.push(DispatchRequest::FetchDattoAvPolicies { agent_id, hostname, ordinal: o });
            proof {
                assert(reqs@ =~= seq![reqs@[0]]);
            }
        }
        reqs
    }

    /// Advances the component-catalogue ordinal and issues its fetch; the
    /// wizard that shows the catalogue is opened by the caller.
    pub fn fetch_components(&mut self) -> (reqs: Vec<DispatchRequest>)
        requires
            old(self).wf(),
        ensures
            final(self).wf(),
            old(self).has_rmm ==> {
                &&& *final(self) == (App {
                    ords: (Ordinals {
                        components: spec_bump(old(self).ords.components),
                        ..old(self).ords
                    }),
                    ..*old(self)
                })
                &&& reqs@ == seq![
                    DispatchRequest::FetchComponents {
                        ordinal: spec_bump(old(self).ords.components),
                    },
                ]
            },
            !old(self).has_rmm ==> *final(self) == *old(self) && reqs@ == Seq::<
                DispatchRequest,
            >::empty(),
    {
        let mut reqs: Vec<DispatchRequest> = Vec::new();
        if self.has_rmm {
            let o = bump(&mut self.ords.components);
            reqs.push(DispatchRequest::FetchComponents { ordinal: o });
            proof {
                assert(reqs@ =~= seq![reqs@[0]]);
            }
        }
        reqs
    }

    /// Marks a host's scan as starting and issues the scan request toward
    /// the second security backend.
    pub fn scan_datto_av_agent(&mut self, agent_id: String, hostname: String) -> (reqs: Vec<
        DispatchRequest,
    >)
        requires
            old(self).wf(),
        ensures
            final(self).wf(),
            old(self).has_datto_av ==> {
                &&& *final(self) == (App { scan_status: final(self).scan_status, ..*old(self) })
                &&& final(self).scan_status@ == old(self).scan_status@.insert(
                    hostname@,
                    ScanStatus::Starting,
                )
                &&& reqs@ == seq![DispatchRequest::StartDattoAvScan { agent_id, hostname }]
            },
            !old(self).has_datto_av ==> *final(self) == *old(self) && reqs@ == Seq::<
                DispatchRequest,
            >::empty(),
    {
        let mut reqs: Vec<DispatchRequest> = Vec::new();
        if self.has_datto_av {
            self.scan_status.insert(hostname.clone(), ScanStatus::Starting);
            reqs.push(DispatchRequest::StartDattoAvScan { agent_id, hostname });
            proof {
                assert(reqs@ =~= seq![reqs@[0]]);
            }
        }
        reqs
    }
}

} // verus!
