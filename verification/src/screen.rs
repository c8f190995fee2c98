//! Screen input handling: the keys pressed while no modal is open, routed
//! by the active screen. These carry the navigation rules: quit from the
//! list, forward on select, exactly one layer back on escape, tab cycling,
//! and the openings of the search picker, the field picker and the wizard.

use vstd::prelude::*;
use crate::app::App;
use crate::datto::{device_eq, Device};
use crate::jobs::{job_uid_of, spec_rows_of, JobViewRow};
use crate::keys::{
    enter_device_detail_post, open_create_variable_post, open_edit_setting_post,
    open_edit_variable_post, output_popup_post, search_input_post, text_input_post,
    tick_post, toggle_setting_post, udf_picker_post, wizard_post,
};
use crate::list::PaginatedList;
use crate::modal::{
    CurrentView, DeviceDetailTab, Modal, RunComponentState, RunComponentStep, SiteDetailTab,
};
use crate::msg::{DispatchRequest, Event, Key, Ordinals};
use crate::store::spec_bump;

verus! {

/// What one key does on the list screen: quit, row navigation, reload,
/// and forward into the selected site's detail.
pub open spec fn list_key_post(pre: App, key: Key, post: App, reqs: Seq<DispatchRequest>) -> bool {
    match key {
        Key::Char(c) => if c == 'q' {
            post == (App { should_quit: true, ..pre }) && reqs == Seq::<DispatchRequest>::empty()
        } else if c == 'j' {
            list_next_row(pre, post) && reqs == Seq::<DispatchRequest>::empty()
        } else if c == 'k' {
            list_prev_row(pre, post) && reqs == Seq::<DispatchRequest>::empty()
        } else if c == 'r' {
            fetch_sites_effect(pre, post, reqs)
        } else {
            post == pre && reqs == Seq::<DispatchRequest>::empty()
        },
        Key::Down => list_next_row(pre, post) && reqs == Seq::<DispatchRequest>::empty(),
        Key::Up => list_prev_row(pre, post) && reqs == Seq::<DispatchRequest>::empty(),
        Key::Enter => match pre.sites.cursor {
            Some(i) => {
                &&& post == (App {
                    current_view: CurrentView::Detail,
                    devices: post.devices,
                    ords: post.ords,
                    ..pre
                })
                &&& if pre.has_rmm {
                    &&& post.devices.items@.len() == 0
                    &&& post.devices.cursor is None
                    &&& post.devices.loading
                    &&& post.devices.last_error is None
                    &&& post.ords == (Ordinals {
                        devices: spec_bump(pre.ords.devices),
                        ..pre.ords
                    })
                    &&& reqs.len() == 1
                    &&& reqs[0] matches DispatchRequest::FetchDevices { site_uid, ordinal }
                        && site_uid@ == pre.sites.items@[i as int].uid@ && ordinal == spec_bump(
                        pre.ords.devices,
                    )
                } else {
                    post.devices == pre.devices && post.ords == pre.ords && reqs == Seq::<
                        DispatchRequest,
                    >::empty()
                }
            },
            None => post == pre && reqs == Seq::<DispatchRequest>::empty(),
        },
        _ => post == pre && reqs == Seq::<DispatchRequest>::empty(),
    }
}

/// One row down the site list.
pub open spec fn list_next_row(pre: App, post: App) -> bool {
    post == (App {
        sites: (PaginatedList { cursor: pre.sites.spec_next_cursor(), ..pre.sites }),
        ..pre
    })
}

/// One row up the site list.
pub open spec fn list_prev_row(pre: App, post: App) -> bool {
    post == (App {
        sites: (PaginatedList { cursor: pre.sites.spec_prev_cursor(), ..pre.sites }),
        ..pre
    })
}

/// The reload action: the site list marks loading and its fetch is issued
/// toward a configured primary backend.
pub open spec fn fetch_sites_effect(pre: App, post: App, reqs: Seq<DispatchRequest>) -> bool {
    if pre.has_rmm {
        &&& post == (App {
            error: None,
            sites: (PaginatedList { loading: true, last_error: None, ..pre.sites }),
            ords: (Ordinals { sites: spec_bump(pre.ords.sites), ..pre.ords }),
            ..pre
        })
        &&& reqs == seq![
            DispatchRequest::FetchSites {
                page: pre.current_page,
                ordinal: spec_bump(pre.ords.sites),
            },
        ]
    } else {
        post == pre && reqs == Seq::<DispatchRequest>::empty()
    }
}

/// The tab after one cycle on the site detail screen.
pub open spec fn spec_next_detail_tab(t: SiteDetailTab) -> SiteDetailTab {
    match t {
        SiteDetailTab::Devices => SiteDetailTab::Variables,
        SiteDetailTab::Variables => SiteDetailTab::Settings,
        SiteDetailTab::Settings => SiteDetailTab::Devices,
    }
}

/// The variables-tab action: the row past the last variable creates a new
/// one; a variable row opens its edit.
pub open spec fn variables_action_post(pre: App, post: App) -> bool {
    match (pre.sites.cursor, pre.variables_cursor) {
        (Some(si), Some(vi)) => {
            let count = match pre.sites.items@[si as int].variables {
                Some(vs) => vs@.len(),
                None => 0,
            };
            if vi == count {
                open_create_variable_post(pre, post)
            } else {
                open_edit_variable_post(pre, post)
            }
        },
        _ => post == pre,
    }
}

/// What one key does on the site detail screen: back, tab cycling (the
/// settings copy is repopulated on entering the settings tab), per-tab
/// navigation, and the per-tab actions.
pub open spec fn detail_key_post(pre: App, key: Key, post: App, reqs: Seq<DispatchRequest>) -> bool {
    match key {
        Key::Esc => post == (App { current_view: CurrentView::List, ..pre }) && reqs == Seq::<
            DispatchRequest,
        >::empty(),
        Key::Tab => {
            &&& reqs == Seq::<DispatchRequest>::empty()
            &&& ({
                let nt = spec_next_detail_tab(pre.detail_tab);
                if nt == SiteDetailTab::Settings {
                    &&& post == (App {
                        detail_tab: nt,
                        site_edit_state: post.site_edit_state,
                        ..pre
                    })
                    &&& match pre.sites.cursor {
                        Some(i) => crate::events::edit_state_matches(
                            pre.sites.items@[i as int],
                            post.site_edit_state,
                        ),
                        None => post.site_edit_state == pre.site_edit_state,
                    }
                } else {
                    post == (App { detail_tab: nt, ..pre })
                }
            })
        },
        Key::Down => detail_nav_next(pre, post) && reqs == Seq::<DispatchRequest>::empty(),
        Key::Up => detail_nav_prev(pre, post) && reqs == Seq::<DispatchRequest>::empty(),
        Key::Enter => match pre.detail_tab {
            SiteDetailTab::Devices => match pre.devices.cursor {
                Some(i) => exists|d: Device|
                    {
                        &&& #[trigger] device_eq(pre.devices.items@[i as int], d)
                        &&& enter_device_detail_post(pre, d, post, reqs)
                    },
                None => post == pre && reqs == Seq::<DispatchRequest>::empty(),
            },
            SiteDetailTab::Variables => variables_action_post(pre, post) && reqs == Seq::<
                DispatchRequest,
            >::empty(),
            SiteDetailTab::Settings => toggle_setting_post(pre, post, reqs),
        },
        Key::Char(c) => if c == 'q' {
            post == (App { current_view: CurrentView::List, ..pre }) && reqs == Seq::<
                DispatchRequest,
            >::empty()
        } else if c == 'j' {
            detail_nav_next(pre, post) && reqs == Seq::<DispatchRequest>::empty()
        } else if c == 'k' {
            detail_nav_prev(pre, post) && reqs == Seq::<DispatchRequest>::empty()
        } else if c == 'e' {
            &&& reqs == Seq::<DispatchRequest>::empty()
            &&& match pre.detail_tab {
                SiteDetailTab::Variables => open_edit_variable_post(pre, post),
                SiteDetailTab::Settings => open_edit_setting_post(pre, post),
                SiteDetailTab::Devices => post == pre,
            }
        } else if c == ' ' {
            match pre.detail_tab {
                SiteDetailTab::Variables => variables_action_post(pre, post) && reqs == Seq::<
                    DispatchRequest,
                >::empty(),
                SiteDetailTab::Settings => toggle_setting_post(pre, post, reqs),
                SiteDetailTab::Devices => post == pre && reqs == Seq::<DispatchRequest>::empty(),
            }
        } else {
            post == pre && reqs == Seq::<DispatchRequest>::empty()
        },
        _ => post == pre && reqs == Seq::<DispatchRequest>::empty(),
    }
}

/// One row down the active tab of the site detail screen.
pub open spec fn detail_nav_next(pre: App, post: App) -> bool {
    match pre.detail_tab {
        SiteDetailTab::Devices => post == (App {
            devices: (PaginatedList { cursor: pre.devices.spec_next_cursor(), ..pre.devices }),
            ..pre
        }),
        SiteDetailTab::Variables => post == (App {
            variables_cursor: pre.spec_next_variable_cursor(),
            ..pre
        }),
        SiteDetailTab::Settings => post == (App {
            settings_cursor: pre.spec_next_setting_cursor(),
            ..pre
        }),
    }
}

/// One row up the active tab of the site detail screen.
pub open spec fn detail_nav_prev(pre: App, post: App) -> bool {
    match pre.detail_tab {
        SiteDetailTab::Devices => post == (App {
            devices: (PaginatedList { cursor: pre.devices.spec_prev_cursor(), ..pre.devices }),
            ..pre
        }),
        SiteDetailTab::Variables => post == (App {
            variables_cursor: pre.spec_prev_variable_cursor(),
            ..pre
        }),
        SiteDetailTab::Settings => post == (App {
            settings_cursor: pre.spec_prev_setting_cursor(),
            ..pre
        }),
    }
}

/// Entering the activity detail: the selected log becomes current, and
/// when its details name a job and a device is selected, that job's
/// result is fetched.
pub open spec fn activity_enter_post(pre: App, post: App, reqs: Seq<DispatchRequest>) -> bool {
    match pre.activity_logs.cursor {
        Some(i) => {
            let log = pre.activity_logs.items@[i as int];
            &&& post == (App {
                current_view: CurrentView::ActivityDetail,
                selected_activity_log: Some(log),
                selected_job_result: post.selected_job_result,
                job_result_loading: post.job_result_loading,
                job_result_error: post.job_result_error,
                selected_job_row_index: post.selected_job_row_index,
                ords: post.ords,
                ..pre
            })
            &&& ({
                let target = match log.details {
                    Some(d) => job_uid_of(d@),
                    None => None,
                };
                let fetch = pre.has_rmm && target is Some && pre.selected_device is Some;
                if fetch {
                    &&& post.selected_job_result is None
                    &&& post.job_result_loading
                    &&& post.job_result_error is None
                    &&& post.selected_job_row_index == 0
                    &&& post.ords == (Ordinals {
                        job_result: spec_bump(pre.ords.job_result),
                        ..pre.ords
                    })
                    &&& reqs.len() == 1
                    &&& reqs[0] matches DispatchRequest::FetchJobResult {
                        job_uid,
                        device_uid,
                        ordinal,
                    } && job_uid@ == target->0 && device_uid@ == pre.selected_device->0.uid@
                        && ordinal == spec_bump(pre.ords.job_result)
                } else {
                    &&& post.selected_job_result == pre.selected_job_result
                    &&& post.job_result_loading == pre.job_result_loading
                    &&& post.job_result_error == pre.job_result_error
                    &&& post.selected_job_row_index == pre.selected_job_row_index
                    &&& post.ords == pre.ords
                    &&& reqs == Seq::<DispatchRequest>::empty()
                }
            })
        },
        None => post == pre && reqs == Seq::<DispatchRequest>::empty(),
    }
}

/// What one key does on the device detail screen: back (clearing the
/// host's scan marker), tab toggling, per-tab navigation, opening the
/// field picker or the wizard, and entering the activity detail.
pub open spec fn device_detail_key_post(
    pre: App,
    key: Key,
    post: App,
    reqs: Seq<DispatchRequest>,
) -> bool {
    match key {
        Key::Esc => device_detail_back(pre, post) && reqs == Seq::<DispatchRequest>::empty(),
        Key::Tab => post == (App {
            device_detail_tab: (match pre.device_detail_tab {
                DeviceDetailTab::OpenAlerts => DeviceDetailTab::Activities,
                DeviceDetailTab::Activities => DeviceDetailTab::OpenAlerts,
            }),
            ..pre
        }) && reqs == Seq::<DispatchRequest>::empty(),
        Key::Down => device_detail_nav_next(pre, post) && reqs == Seq::<DispatchRequest>::empty(),
        Key::Up => device_detail_nav_prev(pre, post) && reqs == Seq::<DispatchRequest>::empty(),
        Key::Enter => match pre.device_detail_tab {
            DeviceDetailTab::Activities => activity_enter_post(pre, post, reqs),
            DeviceDetailTab::OpenAlerts => post == pre && reqs == Seq::<DispatchRequest>::empty(),
        },
        Key::Char(c) => if c == 'q' {
            device_detail_back(pre, post) && reqs == Seq::<DispatchRequest>::empty()
        } else if c == 'j' {
            device_detail_nav_next(pre, post) && reqs == Seq::<DispatchRequest>::empty()
        } else if c == 'k' {
            device_detail_nav_prev(pre, post) && reqs == Seq::<DispatchRequest>::empty()
        } else if c == 'v' {
            post == (App { modal: Modal::UdfPicker { cursor: 0 }, ..pre }) && reqs == Seq::<
                DispatchRequest,
            >::empty()
        } else if c == 'r' {
            open_wizard_post(pre, post, reqs)
        } else if c == ' ' {
            match pre.device_detail_tab {
                DeviceDetailTab::Activities => activity_enter_post(pre, post, reqs),
                DeviceDetailTab::OpenAlerts => post == pre && reqs == Seq::<
                    DispatchRequest,
                >::empty(),
            }
        } else {
            post == pre && reqs == Seq::<DispatchRequest>::empty()
        },
        _ => post == pre && reqs == Seq::<DispatchRequest>::empty(),
    }
}

/// Leaving the device detail: back to the site detail, the selection and
/// the host's scan marker cleared, the tab reset.
pub open spec fn device_detail_back(pre: App, post: App) -> bool {
    &&& post == (App {
        current_view: CurrentView::Detail,
        selected_device: None,
        device_detail_tab: DeviceDetailTab::OpenAlerts,
        scan_status: post.scan_status,
        ..pre
    })
    &&& post.scan_status@ == (match pre.selected_device {
        Some(sd) => pre.scan_status@.remove(sd.hostname@),
        None => pre.scan_status@,
    })
}

/// One row down the active tab of the device detail screen.
pub open spec fn device_detail_nav_next(pre: App, post: App) -> bool {
    match pre.device_detail_tab {
        DeviceDetailTab::Activities => post == (App {
            activity_logs: (PaginatedList {
                cursor: pre.activity_logs.spec_next_cursor(),
                ..pre.activity_logs
            }),
            ..pre
        }),
        DeviceDetailTab::OpenAlerts => post == (App {
            open_alerts: (PaginatedList {
                cursor: pre.open_alerts.spec_next_cursor(),
                ..pre.open_alerts
            }),
            ..pre
        }),
    }
}

/// One row up the active tab of the device detail screen.
pub open spec fn device_detail_nav_prev(pre: App, post: App) -> bool {
    match pre.device_detail_tab {
        DeviceDetailTab::Activities => post == (App {
            activity_logs: (PaginatedList {
                cursor: pre.activity_logs.spec_prev_cursor(),
                ..pre.activity_logs
            }),
            ..pre
        }),
        DeviceDetailTab::OpenAlerts => post == (App {
            open_alerts: (PaginatedList {
                cursor: pre.open_alerts.spec_prev_cursor(),
                ..pre.open_alerts
            }),
            ..pre
        }),
    }
}

/// Opening the run-component wizard: a fresh wizard at its search step,
/// loading, and the catalogue fetch issued toward a configured primary
/// backend.
pub open spec fn open_wizard_post(pre: App, post: App, reqs: Seq<DispatchRequest>) -> bool {
    &&& post == (App { modal: post.modal, ords: post.ords, ..pre })
    &&& match post.modal {
        Modal::Wizard(w) => {
            &&& w.step == RunComponentStep::Search
            &&& w.components@.len() == 0
            &&& w.filtered.items@.len() == 0
            &&& w.filtered.cursor is None
            &&& !w.filtered.loading
            &&& w.filtered.last_error is None
            &&& w.search_query@ == Seq::<char>::empty()
            &&& w.selected is None
            &&& w.variables@.len() == 0
            &&& w.variable_index == 0
            &&& w.variable_input@ == Seq::<char>::empty()
            &&& w.last_job_response is None
            &&& w.error is None
            &&& w.loading == pre.has_rmm
        },
        _ => false,
    }
    &&& if pre.has_rmm {
        &&& post.ords == (Ordinals { components: spec_bump(pre.ords.components), ..pre.ords })
        &&& reqs == seq![
            DispatchRequest::FetchComponents { ordinal: spec_bump(pre.ords.components) },
        ]
    } else {
        post.ords == pre.ords && reqs == Seq::<DispatchRequest>::empty()
    }
}

/// The job row after one step down: moves while rows remain below, else
/// stays.
pub open spec fn spec_next_job_row(pre: App) -> usize {
    match pre.selected_job_result {
        Some(jr) => {
            let rows = spec_rows_of(jr);
            if rows.len() > 0 && pre.selected_job_row_index < rows.len() - 1 {
                (pre.selected_job_row_index + 1) as usize
            } else {
                pre.selected_job_row_index
            }
        },
        None => pre.selected_job_row_index,
    }
}

/// The output-popup fetch one job row triggers: a standard-output link
/// opens the output popup, a standard-error link the error popup, a
/// header nothing; either fetch needs the job's own identifiers.
pub open spec fn job_row_enter_post(pre: App, post: App, reqs: Seq<DispatchRequest>) -> bool {
    match pre.selected_job_result {
        Some(jr) => {
            let rows = spec_rows_of(jr);
            if pre.selected_job_row_index < rows.len() {
                match rows[pre.selected_job_row_index as int] {
                    JobViewRow::StdOutLink(_) => popup_fetch_post(pre, jr, true, post, reqs),
                    JobViewRow::StdErrLink(_) => popup_fetch_post(pre, jr, false, post, reqs),
                    JobViewRow::ComponentHeader(_) => post == pre && reqs == Seq::<
                        DispatchRequest,
                    >::empty(),
                }
            } else {
                post == pre && reqs == Seq::<DispatchRequest>::empty()
            }
        },
        None => post == pre && reqs == Seq::<DispatchRequest>::empty(),
    }
}

/// The output popup opens loading and the matching fetch is issued, when
/// the job carries its identifiers and a primary backend is configured.
pub open spec fn popup_fetch_post(
    pre: App,
    jr: crate::datto::JobResult,
    stdout: bool,
    post: App,
    reqs: Seq<DispatchRequest>,
) -> bool {
    let can = jr.job_uid is Some && jr.device_uid is Some;
    if can && pre.has_rmm {
        &&& post == (App {
            modal: post.modal,
            ords: (Ordinals { popup: spec_bump(pre.ords.popup), ..pre.ords }),
            ..pre
        })
        &&& match post.modal {
            Modal::Output(p) => {
                &&& p.title@ == (if stdout {
                    "StdOut"@
                } else {
                    "StdErr"@
                })
                &&& p.content@ == "Loading..."@
                &&& p.loading
            },
            _ => false,
        }
        &&& reqs.len() == 1
        &&& if stdout {
            reqs[0] matches DispatchRequest::FetchJobStdOut { job_uid, device_uid, ordinal }
                && job_uid@ == jr.job_uid->0@ && device_uid@ == jr.device_uid->0@ && ordinal
                == spec_bump(pre.ords.popup)
        } else {
            reqs[0] matches DispatchRequest::FetchJobStdErr { job_uid, device_uid, ordinal }
                && job_uid@ == jr.job_uid->0@ && device_uid@ == jr.device_uid->0@ && ordinal
                == spec_bump(pre.ords.popup)
        }
    } else {
        post == pre && reqs == Seq::<DispatchRequest>::empty()
    }
}

/// What one key does on the activity detail screen: back (clearing the
/// selection and job state), clamped row moves, and opening the output
/// popups from the row links.
pub open spec fn activity_detail_key_post(
    pre: App,
    key: Key,
    post: App,
    reqs: Seq<DispatchRequest>,
) -> bool {
    match key {
        Key::Esc => activity_detail_back(pre, post) && reqs == Seq::<DispatchRequest>::empty(),
        Key::Down => post == (App { selected_job_row_index: spec_next_job_row(pre), ..pre })
            && reqs == Seq::<DispatchRequest>::empty(),
        Key::Up => post == (App {
            selected_job_row_index: (if pre.selected_job_row_index > 0 {
                (pre.selected_job_row_index - 1) as usize
            } else {
                0usize
            }),
            ..pre
        }) && reqs == Seq::<DispatchRequest>::empty(),
        Key::Enter => job_row_enter_post(pre, post, reqs),
        Key::Char(c) => if c == 'q' {
            activity_detail_back(pre, post) && reqs == Seq::<DispatchRequest>::empty()
        } else if c == 'j' {
            post == (App { selected_job_row_index: spec_next_job_row(pre), ..pre }) && reqs
                == Seq::<DispatchRequest>::empty()
        } else if c == 'k' {
            post == (App {
                selected_job_row_index: (if pre.selected_job_row_index > 0 {
                    (pre.selected_job_row_index - 1) as usize
                } else {
                    0usize
                }),
                ..pre
            }) && reqs == Seq::<DispatchRequest>::empty()
        } else {
            post == pre && reqs == Seq::<DispatchRequest>::empty()
        },
        _ => post == pre && reqs == Seq::<DispatchRequest>::empty(),
    }
}

/// Leaving the activity detail: back to the device detail with the log
/// selection and job state cleared.
pub open spec fn activity_detail_back(pre: App, post: App) -> bool {
    post == (App {
        current_view: CurrentView::DeviceDetail,
        selected_activity_log: None,
        selected_job_result: None,
        job_result_error: None,
        ..pre
    })
}

/// What one key does while no modal is open: the search picker opens from
/// any screen; every other key goes to the active screen.
pub open spec fn screen_key_post(pre: App, key: Key, post: App, reqs: Seq<DispatchRequest>) -> bool {
    if key == Key::Char('/') {
        &&& reqs == Seq::<DispatchRequest>::empty()
        &&& post == (App { modal: post.modal, ..pre })
        &&& match post.modal {
            Modal::ListPicker(ds) => {
                &&& ds.query@ == Seq::<char>::empty()
                &&& ds.results.items@.len() == 0
                &&& ds.results.cursor is None
                &&& !ds.results.loading
                &&& ds.results.last_error is None
                &&& ds.last_input_at is None
                &&& ds.last_searched@ == Seq::<char>::empty()
            },
            _ => false,
        }
    } else {
        match pre.current_view {
            CurrentView::List => list_key_post(pre, key, post, reqs),
            CurrentView::Detail => detail_key_post(pre, key, post, reqs),
            CurrentView::DeviceDetail => device_detail_key_post(pre, key, post, reqs),
            CurrentView::ActivityDetail => activity_detail_key_post(pre, key, post, reqs),
        }
    }
}

impl App {
    /// Routes one list-screen key.
    #[verifier::rlimit(100)]
    pub fn handle_list_key(&mut self, key: Key) -> (reqs: Vec<DispatchRequest>)
        requires
            old(self).wf(),
            old(self).modal is Idle,
        ensures
            final(self).wf(),
            list_key_post(*old(self), key, *final(self), reqs@),
    {
        match key {
            Key::Char(c) => {
                if c == 'q' {
                    self.should_quit = true;
                    Vec::new()
                } else if c == 'j' {
                    self.next_row();
                    Vec::new()
                } else if c == 'k' {
                    self.previous_row();
                    Vec::new()
                } else if c == 'r' {
                    self.fetch_sites()
                } else {
                    Vec::new()
                }
            },
            Key::Down => {
                self.next_row();
                Vec::new()
            },
            Key::Up => {
                self.previous_row();
                Vec::new()
            },
            Key::Enter => {
                match self.sites.selected() {
                    Some(i) => {
                        let uid = self.sites.items[i].uid.clone();
                        self.current_view = CurrentView::Detail;
                        self.fetch_devices(uid)
                    },
                    None => Vec::new(),
                }
            },
            _ => Vec::new(),
        }
    }

    /// Routes one site-detail key.
    #[verifier::rlimit(100)]
    pub fn handle_detail_key(&mut self, key: Key) -> (reqs: Vec<DispatchRequest>)
        requires
            old(self).wf(),
            old(self).modal is Idle,
        ensures
            final(self).wf(),
            detail_key_post(*old(self), key, *final(self), reqs@),
    {
        let back = match key {
            Key::Esc => true,
            Key::Char(c) => c == 'q',
            _ => false,
        };
        if back {
            self.current_view = CurrentView::List;
            return Vec::new();
        }
        let nav_next = match key {
            Key::Down => true,
            Key::Char(c) => c == 'j',
            _ => false,
        };
        if nav_next {
            match self.detail_tab {
                SiteDetailTab::Devices => self.next_device(),
                SiteDetailTab::Variables => self.next_variable(),
                SiteDetailTab::Settings => self.next_setting(),
            }
            return Vec::new();
        }
        let nav_prev = match key {
            Key::Up => true,
            Key::Char(c) => c == 'k',
            _ => false,
        };
        if nav_prev {
            match self.detail_tab {
                SiteDetailTab::Devices => self.prev_device(),
                SiteDetailTab::Variables => self.prev_variable(),
                SiteDetailTab::Settings => self.prev_setting(),
            }
            return Vec::new();
        }
        match key {
            Key::Tab => {
                self.detail_tab = match self.detail_tab {
                    SiteDetailTab::Devices => SiteDetailTab::Variables,
                    SiteDetailTab::Variables => SiteDetailTab::Settings,
                    SiteDetailTab::Settings => SiteDetailTab::Devices,
                };
                if matches!(self.detail_tab, SiteDetailTab::Settings) {
                    self.populate_site_edit_state();
                }
                Vec::new()
            },
            Key::Enter => {
                match self.detail_tab {
                    SiteDetailTab::Devices => {
                        match self.devices.selected() {
                            Some(i) => {
                                let device = self.devices.items[i].clone();
                                self.enter_device_detail(device)
                            },
                            None => Vec::new(),
                        }
                    },
                    SiteDetailTab::Variables => {
                        self.variables_action();
                        Vec::new()
                    },
                    SiteDetailTab::Settings => self.toggle_setting(),
                }
            },
            Key::Char(c) => {
                if c == 'e' {
                    match self.detail_tab {
                        SiteDetailTab::Variables => self.open_edit_variable_modal(),
                        SiteDetailTab::Settings => self.open_edit_setting_modal(),
                        SiteDetailTab::Devices => (),
                    }
                    Vec::new()
                } else if c == ' ' {
                    match self.detail_tab {
                        SiteDetailTab::Variables => {
                            self.variables_action();
                            Vec::new()
                        },
                        SiteDetailTab::Settings => self.toggle_setting(),
                        SiteDetailTab::Devices => Vec::new(),
                    }
                } else {
                    Vec::new()
                }
            },
            _ => Vec::new(),
        }
    }

    /// Acts on the selected variables row: the trailing row creates, a
    /// variable row edits.
    pub fn variables_action(&mut self)
        requires
            old(self).wf(),
        ensures
            final(self).wf(),
            variables_action_post(*old(self), *final(self)),
    {
        if let Some(si) = self.sites.selected() {
            if let Some(vi) = self.variables_cursor {
                let count = match &self.sites.items[si].variables {
                    Some(vs) => vs.len(),
                    None => 0,
                };
                if vi == count {
                    self.open_create_variable_modal();
                } else {
                    self.open_edit_variable_modal();
                }
            }
        }
    }

    /// Routes one device-detail key.
    #[verifier::rlimit(100)]
    pub fn handle_device_detail_key(&mut self, key: Key) -> (reqs: Vec<DispatchRequest>)
        requires
            old(self).wf(),
            old(self).modal is Idle,
        ensures
            final(self).wf(),
            device_detail_key_post(*old(self), key, *final(self), reqs@),
    {
        let back = match key {
            Key::Esc => true,
            Key::Char(c) => c == 'q',
            _ => false,
        };
        if back {
            match &self.selected_device {
                Some(sd) => {
                    let host = sd.hostname.clone();
                    self.scan_status.remove(&host);
                },
                None => (),
            }
            self.current_view = CurrentView::Detail;
            self.selected_device = None;
            self.device_detail_tab = DeviceDetailTab::OpenAlerts;
            return Vec::new();
        }
        let nav_next = match key {
            Key::Down => true,
            Key::Char(c) => c == 'j',
            _ => false,
        };
        if nav_next {
            match self.device_detail_tab {
                DeviceDetailTab::Activities => self.next_activity_log(),
                DeviceDetailTab::OpenAlerts => self.next_open_alert(),
            }
            return Vec::new();
        }
        let nav_prev = match key {
            Key::Up => true,
            Key::Char(c) => c == 'k',
            _ => false,
        };
        if nav_prev {
            match self.device_detail_tab {
                DeviceDetailTab::Activities => self.prev_activity_log(),
                DeviceDetailTab::OpenAlerts => self.prev_open_alert(),
            }
            return Vec::new();
        }
        let enter = match key {
            Key::Enter => true,
            Key::Char(c) => c == ' ',
            _ => false,
        };
        if enter {
            return match self.device_detail_tab {
                DeviceDetailTab::Activities => self.enter_activity_detail(),
                DeviceDetailTab::OpenAlerts => Vec::new(),
            };
        }
        match key {
            Key::Tab => {
                self.device_detail_tab = match self.device_detail_tab {
                    DeviceDetailTab::OpenAlerts => DeviceDetailTab::Activities,
                    DeviceDetailTab::Activities => DeviceDetailTab::OpenAlerts,
                };
                Vec::new()
            },
            Key::Char(c) => {
                if c == 'v' {
                    self.modal = Modal::UdfPicker { cursor: 0 };
                    Vec::new()
                } else if c == 'r' {
                    self.modal = Modal::Wizard(
                        RunComponentState {
                            step: RunComponentStep::Search,
                            components: Vec::new(),
                            filtered: PaginatedList::new(),
                            search_query: String::new(),
                            selected: None,
                            variables: Vec::new(),
                            variable_index: 0,
                            variable_input: String::new(),
                            last_job_response: None,
                            error: None,
                            loading: self.has_rmm,
                        },
                    );
                    self.fetch_components()
                } else {
                    Vec::new()
                }
            },
            _ => Vec::new(),
        }
    }

    /// Enters the activity detail for the selected log, fetching its job
    /// result when the log names one.
    #[verifier::rlimit(100)]
    pub fn enter_activity_detail(&mut self) -> (reqs: Vec<DispatchRequest>)
        requires
            old(self).wf(),
            old(self).modal is Idle,
        ensures
            final(self).wf(),
            activity_enter_post(*old(self), *final(self), reqs@),
    {
        match self.activity_logs.selected() {
            Some(i) => {
                let log = self.activity_logs.items[i].clone();
                let target: Option<String> = match &log.details {
                    Some(d) => crate::jobs::extract_job_uid(d.as_str()),
                    None => None,
                };
                self.selected_activity_log = Some(log);
                self.current_view = CurrentView::ActivityDetail;
                match (target, &self.selected_device) {
                    (Some(uid), Some(sd)) => {
                        let device_uid = sd.uid.clone();
                        self.fetch_job_result(uid, device_uid)
                    },
                    _ => Vec::new(),
                }
            },
            None => Vec::new(),
        }
    }

    /// Routes one activity-detail key.
    #[verifier::rlimit(100)]
    pub fn handle_activity_detail_key(&mut self, key: Key) -> (reqs: Vec<DispatchRequest>)
        requires
            old(self).wf(),
            old(self).modal is Idle,
        ensures
            final(self).wf(),
            activity_detail_key_post(*old(self), key, *final(self), reqs@),
    {
        let back = match key {
            Key::Esc => true,
            Key::Char(c) => c == 'q',
            _ => false,
        };
        if back {
            self.current_view = CurrentView::DeviceDetail;
            self.selected_activity_log = None;
            self.selected_job_result = None;
            self.job_result_error = None;
            return Vec::new();
        }
        let nav_next = match key {
            Key::Down => true,
            Key::Char(c) => c == 'j',
            _ => false,
        };
        if nav_next {
            match &self.selected_job_result {
                Some(jr) => {
                    let rows = crate::jobs::generate_job_rows(jr);
                    if rows.len() > 0 && self.selected_job_row_index < rows.len() - 1 {
                        self.selected_job_row_index = self.selected_job_row_index + 1;
                    }
                },
                None => (),
            }
            return Vec::new();
        }
        let nav_prev = match key {
            Key::Up => true,
            Key::Char(c) => c == 'k',
            _ => false,
        };
        if nav_prev {
            if self.selected_job_row_index > 0 {
                self.selected_job_row_index = self.selected_job_row_index - 1;
            }
            return Vec::new();
        }
        match key {
            Key::Enter => {
                let action: Option<(bool, String, String)> = match &self.selected_job_result {
                    Some(jr) => {
                        let rows = crate::jobs::generate_job_rows(jr);
                        if self.selected_job_row_index < rows.len() {
                            match rows[self.selected_job_row_index] {
                                JobViewRow::StdOutLink(_) => match (&jr.job_uid, &jr.device_uid) {
                                    (Some(ju), Some(du)) => Some((true, ju.clone(), du.clone())),
                                    _ => None,
                                },
                                JobViewRow::StdErrLink(_) => match (&jr.job_uid, &jr.device_uid) {
                                    (Some(ju), Some(du)) => Some((false, ju.clone(), du.clone())),
                                    _ => None,
                                },
                                JobViewRow::ComponentHeader(_) => None,
                            }
                        } else {
                            None
                        }
                    },
                    None => None,
                };
                match action {
                    Some((stdout, ju, du)) => {
                        if stdout {
                            self.fetch_job_stdout(ju, du)
                        } else {
                            self.fetch_job_stderr(ju, du)
                        }
                    },
                    None => Vec::new(),
                }
            },
            _ => Vec::new(),
        }
    }

    /// Routes one key pressed while no modal is open, by the active
    /// screen.
    pub fn handle_screen_key(&mut self, key: Key) -> (reqs: Vec<DispatchRequest>)
        requires
            old(self).wf(),
            old(self).modal is Idle,
        ensures
            final(self).wf(),
            screen_key_post(*old(self), key, *final(self), reqs@),
    {
        let open_search = match key {
            Key::Char(c) => c == '/',
            _ => false,
        };
        if open_search {
            self.open_device_search();
            return Vec::new();
        }
        match self.current_view {
            CurrentView::List => self.handle_list_key(key),
            CurrentView::Detail => self.handle_detail_key(key),
            CurrentView::DeviceDetail => self.handle_device_detail_key(key),
            CurrentView::ActivityDetail => self.handle_activity_detail_key(key),
        }
    }
}

/// What one key does, by the active modal: a modal takes the key
/// exclusively; otherwise it goes to the active screen.
pub open spec fn key_post(
    pre: App,
    key: Key,
    now_ms: u64,
    post: App,
    reqs: Seq<DispatchRequest>,
) -> bool {
    match pre.modal {
        Modal::Idle => screen_key_post(pre, key, post, reqs),
        Modal::TextInput(st) => text_input_post(pre, st, key, post, reqs),
        Modal::ListPicker(ds) => search_input_post(pre, ds, key, now_ms, post, reqs),
        Modal::Wizard(w) => wizard_post(pre, w, key, post, reqs),
        Modal::UdfPicker { cursor } => udf_picker_post(pre, cursor, key, post, reqs),
        Modal::Output(p) => output_popup_post(pre, p, key, post, reqs),
    }
}

impl App {
    /// Routes one key press: to the active modal exclusively while one is
    /// open, else to the active screen.
    pub fn handle_key_event(&mut self, key: Key, now_ms: u64) -> (reqs: Vec<DispatchRequest>)
        requires
            old(self).wf(),
        ensures
            final(self).wf(),
            key_post(*old(self), key, now_ms, *final(self), reqs@),
    {
        let mut modal = Modal::Idle;
        core::mem::swap(&mut modal, &mut self.modal);
        match modal {
            Modal::Idle => self.handle_screen_key(key),
            Modal::TextInput(st) => self.handle_text_input(st, key),
            Modal::ListPicker(ds) => self.handle_device_search_input(ds, key, now_ms),
            Modal::Wizard(w) => self.handle_run_component_input(w, key),
            Modal::UdfPicker { cursor } => self.handle_udf_picker_input(cursor, key),
            Modal::Output(p) => self.handle_output_input(p, key),
        }
    }
}

/// What one event-channel message does: the timer drives the debounce,
/// keys go to the active modal or screen, a resize changes nothing, and
/// each completion goes to its handler under its slot's staleness gate.
pub open spec fn apply_post(pre: App, e: Event, post: App, reqs: Seq<DispatchRequest>) -> bool {
    match e {
        Event::Tick { now_ms } => tick_post(pre, now_ms, post, reqs),
        Event::Key { key, now_ms } => key_post(pre, key, now_ms, post, reqs),
        Event::Resize { .. } => post == pre && reqs == Seq::<DispatchRequest>::empty(),
        Event::SitesFetched { ordinal, result } => crate::events::on_sites_fetched_post(
            pre,
            ordinal,
            result,
            post,
            reqs,
        ),
        Event::DevicesFetched { ordinal, result } => crate::events::on_devices_fetched_post(
            pre,
            ordinal,
            result,
            post,
            reqs,
        ),
        Event::DeviceSearchResultsFetched { ordinal, result } => {
            crate::events::on_device_search_results_fetched_post(pre, ordinal, result, post, reqs)
        },
        Event::IncidentsFetched { ordinal, result } => crate::events::on_incidents_fetched_post(
            pre,
            ordinal,
            result,
            post,
            reqs,
        ),
        Event::SiteVariablesFetched { site_uid, ordinal, result } => {
            crate::events::on_site_variables_fetched_post(pre, site_uid, ordinal, result, post, reqs)
        },
        Event::VariableCreated { site_uid, ordinal, result } => {
            crate::events::on_variable_created_post(pre, site_uid, ordinal, result, post, reqs)
        },
        Event::VariableUpdated { site_uid, ordinal, result } => {
            crate::events::on_variable_updated_post(pre, site_uid, ordinal, result, post, reqs)
        },
        Event::SiteUpdated { ordinal, result } => crate::events::on_site_updated_post(
            pre,
            ordinal,
            result,
            post,
            reqs,
        ),
        Event::SophosCasesFetched { tenant_id, ordinal, result } => {
            crate::events::on_sophos_cases_fetched_post(pre, tenant_id, ordinal, result, post, reqs)
        },
        Event::SophosEndpointsFetched { hostname, ordinal, result } => {
            crate::events::on_sophos_endpoints_fetched_post(pre, hostname, ordinal, result, post, reqs)
        },
        Event::SophosScanStarted { hostname, result } => {
            crate::events::on_sophos_scan_started_post(pre, hostname, result, post, reqs)
        },
        Event::DattoAvAgentFetched { hostname, ordinal, result } => {
            crate::events::on_datto_av_agent_fetched_post(pre, hostname, ordinal, result, post, reqs)
        },
        Event::DattoAvScanStarted { hostname, result } => {
            crate::events::on_datto_av_scan_started_post(pre, hostname, result, post, reqs)
        },
        Event::ScanStatusChanged { hostname, status } => {
            crate::events::on_scan_status_changed_post(pre, hostname, status, post, reqs)
        },
        Event::DattoAvAlertsFetched { hostname, ordinal, result } => {
            crate::events::on_datto_av_alerts_fetched_post(pre, hostname, ordinal, result, post, reqs)
        },
        Event::DattoAvPoliciesFetched { hostname, ordinal, result } => {
            crate::events::on_datto_av_policies_fetched_post(pre, hostname, ordinal, result, post, reqs)
        },
        Event::ActivityLogsFetched { ordinal, result } => {
            crate::events::on_activity_logs_fetched_post(pre, ordinal, result, post, reqs)
        },
        Event::OpenAlertsFetched { device_uid, ordinal, result } => {
            crate::events::on_open_alerts_fetched_post(pre, device_uid, ordinal, result, post, reqs)
        },
        Event::JobResultFetched { ordinal, result } => crate::events::on_job_result_fetched_post(
            pre,
            ordinal,
            result,
            post,
            reqs,
        ),
        Event::JobStdOutFetched { ordinal, result } => crate::events::on_job_stdout_fetched_post(
            pre,
            ordinal,
            result,
            post,
            reqs,
        ),
        Event::JobStdErrFetched { ordinal, result } => crate::events::on_job_stderr_fetched_post(
            pre,
            ordinal,
            result,
            post,
            reqs,
        ),
        Event::UdfUpdated { device_uid, ordinal, result } => crate::events::on_udf_updated_post(
            pre,
            device_uid,
            ordinal,
            result,
            post,
            reqs,
        ),
        Event::QuickJobExecuted { ordinal, result } => crate::events::on_quick_job_executed_post(
            pre,
            ordinal,
            result,
            post,
            reqs,
        ),
        Event::ComponentsFetched { ordinal, result } => crate::events::on_components_fetched_post(
            pre,
            ordinal,
            result,
            post,
            reqs,
        ),
    }
}

impl App {
    /// Applies one event-channel message: routes it to its handler and
    /// returns the requests to dispatch next. This is the state machine's
    /// single entry: one message at a time, each processed to completion.
    pub fn apply(&mut self, e: Event) -> (reqs: Vec<DispatchRequest>)
        requires
            old(self).wf(),
        ensures
            final(self).wf(),
            apply_post(*old(self), e, *final(self), reqs@),
    {
        match e {
            Event::Tick { now_ms } => self.handle_tick(now_ms),
            Event::Key { key, now_ms } => self.handle_key_event(key, now_ms),
            Event::Resize { .. } => Vec::new(),
            Event::SitesFetched { ordinal, result } => self.on_sites_fetched(ordinal, result),
            Event::DevicesFetched { ordinal, result } => self.on_devices_fetched(ordinal, result),
            Event::DeviceSearchResultsFetched { ordinal, result } => {
                self.on_device_search_results_fetched(ordinal, result)
            },
            Event::IncidentsFetched { ordinal, result } => self.on_incidents_fetched(
                ordinal,
                result,
            ),
            Event::SiteVariablesFetched { site_uid, ordinal, result } => {
                self.on_site_variables_fetched(site_uid, ordinal, result)
            },
            Event::VariableCreated { site_uid, ordinal, result } => self.on_variable_created(
                site_uid,
                ordinal,
                result,
            ),
            Event::VariableUpdated { site_uid, ordinal, result } => self.on_variable_updated(
                site_uid,
                ordinal,
                result,
            ),
            Event::SiteUpdated { ordinal, result } => self.on_site_updated(ordinal, result),
            Event::SophosCasesFetched { tenant_id, ordinal, result } => self.on_sophos_cases_fetched(
                tenant_id,
                ordinal,
                result,
            ),
            Event::SophosEndpointsFetched { hostname, ordinal, result } => {
                self.on_sophos_endpoints_fetched(hostname, ordinal, result)
            },
            Event::SophosScanStarted { hostname, result } => self.on_sophos_scan_started(
                hostname,
                result,
            ),
            Event::DattoAvAgentFetched { hostname, ordinal, result } => {
                self.on_datto_av_agent_fetched(hostname, ordinal, result)
            },
            Event::DattoAvScanStarted { hostname, result } => self.on_datto_av_scan_started(
                hostname,
                result,
            ),
            Event::ScanStatusChanged { hostname, status } => self.on_scan_status_changed(
                hostname,
                status,
            ),
            Event::DattoAvAlertsFetched { hostname, ordinal, result } => {
                self.on_datto_av_alerts_fetched(hostname, ordinal, result)
            },
            Event::DattoAvPoliciesFetched { hostname, ordinal, result } => {
                self.on_datto_av_policies_fetched(hostname, ordinal, result)
            },
            Event::ActivityLogsFetched { ordinal, result } => self.on_activity_logs_fetched(
                ordinal,
                result,
            ),
            Event::OpenAlertsFetched { device_uid, ordinal, result } => self.on_open_alerts_fetched(
                device_uid,
                ordinal,
                result,
            ),
            Event::JobResultFetched { ordinal, result } => self.on_job_result_fetched(
                ordinal,
                result,
            ),
            Event::JobStdOutFetched { ordinal, result } => self.on_job_stdout_fetched(
                ordinal,
                result,
            ),
            Event::JobStdErrFetched { ordinal, result } => self.on_job_stderr_fetched(
                ordinal,
                result,
            ),
            Event::UdfUpdated { device_uid, ordinal, result } => self.on_udf_updated(
                device_uid,
                ordinal,
                result,
            ),
            Event::QuickJobExecuted { ordinal, result } => self.on_quick_job_executed(
                ordinal,
                result,
            ),
            Event::ComponentsFetched { ordinal, result } => self.on_components_fetched(
                ordinal,
                result,
            ),
        }
    }
}

} // verus!