use rmm_dash_core::app::App;
use rmm_dash_core::datto::{
    ActivityLog, Component, ComponentsResponse, Device, DevicesResponse, PageDetails, Site,
    SiteVariable, SitesResponse,
};
use rmm_dash_core::jobs::{extract_job_uid, retain_device_activities};
use rmm_dash_core::modal::{CurrentView, DeviceDetailTab, Modal};
use rmm_dash_core::msg::{DispatchRequest, Event, Key};
use rmm_dash_core::rocket_cyber::Incident;
use rmm_dash_core::stats::{aggregate_incidents, stats_for_site};

fn device(id: i32, uid: &str, hostname: &str) -> Device {
    Device {
        id,
        uid: uid.to_string(),
        site_id: 1,
        site_uid: "uid-0".to_string(),
        site_name: None,
        hostname: hostname.to_string(),
        description: None,
        online: true,
        operating_system: None,
        int_ip_address: None,
        ext_ip_address: None,
        last_logged_in_user: None,
        domain: None,
        last_seen: None,
        last_reboot: None,
        warranty_date: None,
        reboot_required: None,
        device_type: None,
        patch_management: None,
        udf: None,
        antivirus: None,
    }
}

fn component(id: i32, name: &str) -> Component {
    Component {
        id,
        uid: format!("comp-{}", id),
        name: name.to_string(),
        description: None,
        category_code: None,
        credentials_required: None,
        variables: None,
    }
}

fn activity(id: &str, device_id: Option<i32>, details: Option<&str>) -> ActivityLog {
    ActivityLog {
        id: Some(id.to_string()),
        entity: None,
        category: None,
        action: None,
        date: None,
        site: None,
        device_id,
        hostname: None,
        user: None,
        details: details.map(|d| d.to_string()),
        has_std_out: None,
        has_std_err: None,
    }
}

fn site(id: i32, uid: &str, name: &str) -> Site {
    Site {
        id,
        uid: uid.to_string(),
        account_uid: None,
        name: name.to_string(),
        description: None,
        notes: None,
        on_demand: Some(false),
        splashtop_auto_install: Some(false),
        devices_status: None,
        portal_url: None,
        proxy_settings: None,
        variables: None,
    }
}

fn incident(id: i32, account_id: i32, account_name: &str, status: &str) -> Incident {
    Incident {
        id,
        title: format!("incident {}", id),
        status: status.to_string(),
        account_id,
        account_name: account_name.to_string(),
        created_at: "2024-01-01".to_string(),
        resolved_at: None,
    }
}

fn sites_payload(names: &[&str]) -> SitesResponse {
    let sites = names
        .iter()
        .enumerate()
        .map(|(i, n)| site(i as i32, &format!("uid-{}", i), n))
        .collect();
    SitesResponse {
        page_details: PageDetails { count: names.len() as i32, total_count: Some(names.len() as i32) },
        sites,
    }
}

fn app_with_sites(names: &[&str]) -> App {
    let mut app = App::new(true, false, false, false);
    let reqs = app.fetch_sites();
    let ordinal = match &reqs[0] {
        DispatchRequest::FetchSites { ordinal, .. } => *ordinal,
        other => panic!("unexpected request: {:?}", other),
    };
    app.on_sites_fetched(ordinal, Ok(sites_payload(names)));
    app
}

/// End to end: an empty list screen receives a three-entity completion;
/// the cursor selects the first row, steps down twice, and wraps.
#[test]
fn list_completion_cursor_wraps() {
    let mut app = App::new(true, false, false, false);
    assert_eq!(app.sites.cursor, None);
    let reqs = app.fetch_sites();
    assert_eq!(reqs.len(), 1);
    let ordinal = match &reqs[0] {
        DispatchRequest::FetchSites { ordinal, page } => {
            assert_eq!(*page, 0);
            *ordinal
        }
        other => panic!("unexpected request: {:?}", other),
    };
    app.on_sites_fetched(ordinal, Ok(sites_payload(&["Zeta", "Alpha", "Mid"])));
    assert_eq!(app.sites.cursor, Some(0));
    app.next_row();
    app.next_row();
    assert_eq!(app.sites.cursor, Some(2));
    app.next_row();
    assert_eq!(app.sites.cursor, Some(0));
    app.previous_row();
    assert_eq!(app.sites.cursor, Some(2));
}

/// A replacement by an empty list clears the cursor, and navigation keeps
/// it cleared: never an out-of-range index.
#[test]
fn empty_replacement_clears_cursor() {
    let mut app = app_with_sites(&["One", "Two"]);
    assert_eq!(app.sites.cursor, Some(0));
    let reqs = app.fetch_sites();
    let ordinal = match &reqs[0] {
        DispatchRequest::FetchSites { ordinal, .. } => *ordinal,
        other => panic!("unexpected request: {:?}", other),
    };
    app.on_sites_fetched(ordinal, Ok(sites_payload(&[])));
    assert_eq!(app.sites.cursor, None);
    app.next_row();
    assert_eq!(app.sites.cursor, None);
    app.previous_row();
    assert_eq!(app.sites.cursor, None);
}

/// A shrinking replacement resets the cursor to the first row rather than
/// leaving it past the end.
#[test]
fn shrinking_replacement_resets_cursor() {
    let mut app = app_with_sites(&["One", "Two", "Three"]);
    app.next_row();
    app.next_row();
    assert_eq!(app.sites.cursor, Some(2));
    let reqs = app.fetch_sites();
    let ordinal = match &reqs[0] {
        DispatchRequest::FetchSites { ordinal, .. } => *ordinal,
        other => panic!("unexpected request: {:?}", other),
    };
    app.on_sites_fetched(ordinal, Ok(sites_payload(&["Solo"])));
    assert_eq!(app.sites.cursor, Some(0));
    assert_eq!(app.sites.items.len(), 1);
}

/// Ordinal reordering: two dispatches for the same slot, completions
/// arriving in either order, leave the state the newer dispatch implies.
#[test]
fn stale_completion_is_dropped_in_either_order() {
    let run = |first_old: bool| -> Vec<String> {
        let mut app = App::new(true, false, false, false);
        let r1 = app.fetch_sites();
        let o1 = match &r1[0] {
            DispatchRequest::FetchSites { ordinal, .. } => *ordinal,
            other => panic!("unexpected request: {:?}", other),
        };
        let r2 = app.fetch_sites();
        let o2 = match &r2[0] {
            DispatchRequest::FetchSites { ordinal, .. } => *ordinal,
            other => panic!("unexpected request: {:?}", other),
        };
        assert!(o1 < o2);
        if first_old {
            app.on_sites_fetched(o1, Ok(sites_payload(&["Old"])));
            app.on_sites_fetched(o2, Ok(sites_payload(&["New"])));
        } else {
            app.on_sites_fetched(o2, Ok(sites_payload(&["New"])));
            app.on_sites_fetched(o1, Ok(sites_payload(&["Old"])));
        }
        app.sites.items.iter().map(|s| s.name.clone()).collect()
    };
    assert_eq!(run(true), vec!["New".to_string()]);
    assert_eq!(run(false), vec!["New".to_string()]);
}

/// Debounce: keystrokes at t, t+100 and t+150 with a three-character
/// buffer, then quiet; exactly one dispatch fires, carrying the buffer as
/// of t+150.
#[test]
fn debounce_fires_once_with_final_buffer() {
    let mut app = App::new(true, false, false, false);
    app.open_device_search();
    let t = 1_000u64;
    let ds = |app: &mut App, key, at| {
        let modal = std::mem::replace(&mut app.modal, Modal::Idle);
        match modal {
            Modal::ListPicker(ds) => app.handle_device_search_input(ds, key, at),
            other => panic!("expected the list picker, got {:?}", other),
        }
    };
    assert!(ds(&mut app, Key::Char('a'), t).is_empty());
    assert!(ds(&mut app, Key::Char('b'), t + 100).is_empty());
    assert!(ds(&mut app, Key::Char('c'), t + 150).is_empty());
    let mut dispatches = Vec::new();
    for now in [t + 250, t + 400, t + 500, t + 650, t + 700, t + 950] {
        for req in app.handle_tick(now) {
            dispatches.push(req);
        }
    }
    assert_eq!(dispatches.len(), 1);
    match &dispatches[0] {
        DispatchRequest::SearchDevices { query, .. } => assert_eq!(query, "abc"),
        other => panic!("unexpected request: {:?}", other),
    }
}

/// Below the minimum query length, the quiet period alone never fires a
/// dispatch.
#[test]
fn debounce_respects_minimum_length() {
    let mut app = App::new(true, false, false, false);
    app.open_device_search();
    let modal = std::mem::replace(&mut app.modal, Modal::Idle);
    match modal {
        Modal::ListPicker(ds) => {
            app.handle_device_search_input(ds, Key::Char('a'), 0);
        }
        other => panic!("expected the list picker, got {:?}", other),
    }
    assert!(app.handle_tick(10_000).is_empty());
}

/// Reconciliation: an entity named "Acme Corp" with no override key finds
/// the aggregate stored under "acme corp"; an entity with an explicit
/// override key ignores its display name.
#[test]
fn reconciliation_matches_lowercased_name_and_override() {
    let incidents = vec![
        incident(1, 42, "Acme Corp", "Open"),
        incident(2, 42, "Acme Corp", "Resolved"),
    ];
    let stats = aggregate_incidents(&incidents);

    let acme = site(1, "uid-acme", "Acme Corp");
    let by_name = stats_for_site(&acme, &stats);
    assert_eq!(by_name.active, 1);
    assert_eq!(by_name.resolved, 1);

    let mut overridden = site(2, "uid-else", "Completely Different Name");
    overridden.variables = Some(vec![SiteVariable {
        id: 7,
        name: "tuiMdrId".to_string(),
        value: "42".to_string(),
        masked: false,
    }]);
    let by_override = stats_for_site(&overridden, &stats);
    assert_eq!(by_override.active, 1);
    assert_eq!(by_override.resolved, 1);

    let unknown = site(3, "uid-unknown", "Nobody");
    let none = stats_for_site(&unknown, &stats);
    assert_eq!(none.active, 0);
    assert_eq!(none.resolved, 0);
}

/// Optimistic toggle: the flipped value applies immediately; a failed
/// write completion reverts it and surfaces an error; a successful one
/// retains it.
#[test]
fn optimistic_toggle_rolls_back_on_failure() {
    let mut app = app_with_sites(&["Acme Corp"]);
    app.populate_site_edit_state();
    app.settings_cursor = Some(3);
    assert!(!app.site_edit_state.on_demand);

    let reqs = app.toggle_setting();
    assert!(app.site_edit_state.on_demand, "the flip applies immediately");
    let ordinal = match &reqs[0] {
        DispatchRequest::UpdateSite { ordinal, request, .. } => {
            assert_eq!(request.on_demand, Some(true));
            *ordinal
        }
        other => panic!("unexpected request: {:?}", other),
    };
    app.on_site_updated(ordinal, Err("server error".to_string()));
    assert!(!app.site_edit_state.on_demand, "a failure reverts the flip");
    assert!(app.error.is_some(), "the failure is visible");
    assert!(app.pending_site_edit.is_none());

    let reqs = app.toggle_setting();
    assert!(app.site_edit_state.on_demand);
    let ordinal = match &reqs[0] {
        DispatchRequest::UpdateSite { ordinal, .. } => *ordinal,
        other => panic!("unexpected request: {:?}", other),
    };
    let mut updated = site(0, "uid-0", "Acme Corp");
    updated.on_demand = Some(true);
    app.on_site_updated(ordinal, Ok(updated));
    assert!(app.site_edit_state.on_demand, "a success retains the flip");
    assert!(app.pending_site_edit.is_none());
}

/// A stale failure completion (superseded by a newer write) is dropped
/// and rolls nothing back.
#[test]
fn stale_write_failure_is_dropped() {
    let mut app = app_with_sites(&["Acme Corp"]);
    app.populate_site_edit_state();
    app.settings_cursor = Some(3);
    let r1 = app.toggle_setting();
    let o1 = match &r1[0] {
        DispatchRequest::UpdateSite { ordinal, .. } => *ordinal,
        other => panic!("unexpected request: {:?}", other),
    };
    let r2 = app.toggle_setting();
    let o2 = match &r2[0] {
        DispatchRequest::UpdateSite { ordinal, .. } => *ordinal,
        other => panic!("unexpected request: {:?}", other),
    };
    assert!(o1 < o2);
    let before = app.site_edit_state.on_demand;
    app.on_site_updated(o1, Err("late failure".to_string()));
    assert_eq!(app.site_edit_state.on_demand, before, "a stale completion changes nothing");
    assert!(app.error.is_none());
}

/// Modal stacking: while the list picker is open, a key that opens a text
/// input elsewhere is rejected; escape returns exactly to the state that
/// existed before the picker opened.
#[test]
fn list_picker_rejects_text_input_and_escapes_cleanly() {
    let mut app = app_with_sites(&["Acme Corp"]);
    let view_before = app.current_view;
    let cursor_before = app.sites.cursor;
    app.open_device_search();

    let modal = std::mem::replace(&mut app.modal, Modal::Idle);
    match modal {
        Modal::ListPicker(ds) => {
            app.handle_device_search_input(ds, Key::Char('e'), 5);
        }
        other => panic!("expected the list picker, got {:?}", other),
    }
    assert!(
        matches!(app.modal, Modal::ListPicker(_)),
        "no text input opens over the picker"
    );

    let modal = std::mem::replace(&mut app.modal, Modal::Idle);
    match modal {
        Modal::ListPicker(ds) => {
            app.handle_device_search_input(ds, Key::Esc, 6);
        }
        other => panic!("expected the list picker, got {:?}", other),
    }
    assert!(matches!(app.modal, Modal::Idle));
    assert_eq!(app.current_view, view_before);
    assert_eq!(app.sites.cursor, cursor_before);
    assert_eq!(app.sites.items.len(), 1);
}

/// Escape inside the text input closes only that layer and applies no
/// field change.
#[test]
fn text_input_escape_applies_nothing() {
    let mut app = app_with_sites(&["Acme Corp"]);
    app.populate_site_edit_state();
    app.settings_cursor = Some(0);
    let name_before = app.site_edit_state.name.clone();
    app.open_edit_setting_modal();
    let modal = std::mem::replace(&mut app.modal, Modal::Idle);
    let st = match modal {
        Modal::TextInput(st) => st,
        other => panic!("expected the text input, got {:?}", other),
    };
    let st = {
        app.handle_text_input(st, Key::Char('X'));
        match std::mem::replace(&mut app.modal, Modal::Idle) {
            Modal::TextInput(st) => st,
            other => panic!("expected the text input, got {:?}", other),
        }
    };
    let reqs = app.handle_text_input(st, Key::Esc);
    assert!(reqs.is_empty());
    assert!(matches!(app.modal, Modal::Idle));
    assert_eq!(app.site_edit_state.name, name_before);
    assert!(app.pending_site_edit.is_none());
}

/// The job identifier is extracted from the detail payload's "job.uid"
/// key; anything else yields nothing.
#[test]
fn job_uid_extraction() {
    assert_eq!(
        extract_job_uid("{\"job.uid\":\"J-123\",\"other\":1}"),
        Some("J-123".to_string())
    );
    assert_eq!(extract_job_uid("{\"job\":{\"uid\":\"nested\"}}"), None);
    assert_eq!(extract_job_uid("not json"), None);
    assert_eq!(extract_job_uid("{\"job.uid\":17}"), None);
}

/// Incident aggregation counts resolved and active incidents separately,
/// case-insensitively, under both the lowercased account name and the
/// decimal account identifier.
#[test]
fn incident_aggregation_counts() {
    let incidents = vec![
        incident(1, 9, "Beta LLC", "RESOLVED"),
        incident(2, 9, "Beta LLC", "resolved"),
        incident(3, 9, "Beta LLC", "Remediating"),
    ];
    let stats = aggregate_incidents(&incidents);
    let beta = site(1, "uid-beta", "beta llc");
    let counts = stats_for_site(&beta, &stats);
    assert_eq!(counts.resolved, 2);
    assert_eq!(counts.active, 1);
}

/// The quit key on the list screen sets the quit flag and nothing else
/// fires.
#[test]
fn quit_from_list() {
    let mut app = app_with_sites(&["One"]);
    let reqs = app.handle_key_event(Key::Char('q'), 0);
    assert!(reqs.is_empty());
    assert!(app.should_quit);
}

/// Selecting a site row moves forward into the detail screen and fetches
/// its devices; escape pops exactly one layer back.
#[test]
fn enter_and_leave_site_detail() {
    let mut app = app_with_sites(&["One", "Two"]);
    let reqs = app.handle_key_event(Key::Enter, 0);
    assert_eq!(app.current_view, CurrentView::Detail);
    match &reqs[0] {
        DispatchRequest::FetchDevices { site_uid, .. } => assert_eq!(site_uid, "uid-0"),
        other => panic!("unexpected request: {:?}", other),
    }
    let reqs = app.handle_key_event(Key::Esc, 0);
    assert!(reqs.is_empty());
    assert_eq!(app.current_view, CurrentView::List);
}

/// The search picker opens from any screen on its key, over no other
/// state change.
#[test]
fn slash_opens_search_picker() {
    let mut app = app_with_sites(&["One"]);
    let reqs = app.handle_key_event(Key::Char('/'), 0);
    assert!(reqs.is_empty());
    assert!(matches!(app.modal, Modal::ListPicker(_)));
}

/// Opening the wizard fetches the component catalogue, and the completion
/// lands sorted ascending by lowercased name regardless of payload order.
#[test]
fn wizard_catalogue_arrives_sorted() {
    let mut app = app_with_sites(&["One"]);
    let reqs = app.enter_device_detail(device(7, "dev-7", "host-7"));
    assert_eq!(reqs.len(), 2, "activity and alert fetches");
    let reqs = app.handle_key_event(Key::Char('r'), 0);
    assert!(matches!(app.modal, Modal::Wizard(_)));
    let ordinal = match &reqs[0] {
        DispatchRequest::FetchComponents { ordinal } => *ordinal,
        other => panic!("unexpected request: {:?}", other),
    };
    let payload = ComponentsResponse {
        page_details: PageDetails { count: 3, total_count: Some(3) },
        components: vec![component(1, "zeta"), component(2, "Alpha"), component(3, "MID")],
    };
    app.apply(Event::ComponentsFetched { ordinal, result: Ok(payload) });
    match &app.modal {
        Modal::Wizard(w) => {
            let names: Vec<&str> = w.components.iter().map(|c| c.name.as_str()).collect();
            assert_eq!(names, vec!["Alpha", "MID", "zeta"]);
            assert_eq!(w.filtered.items, vec![0, 1, 2]);
            assert_eq!(w.filtered.cursor, Some(0));
            assert!(!w.loading);
        }
        other => panic!("expected the wizard, got {:?}", other),
    }
}

/// Entering an activity whose details name a job fetches that job's
/// result, carrying the extracted identifier.
#[test]
fn activity_enter_fetches_named_job() {
    let mut app = app_with_sites(&["One"]);
    app.enter_device_detail(device(7, "dev-7", "host-7"));
    app.device_detail_tab = DeviceDetailTab::Activities;
    app.activity_logs.replace(vec![activity("a1", Some(7), Some("{\"job.uid\":\"J-9\"}"))]);
    let reqs = app.handle_key_event(Key::Enter, 0);
    assert_eq!(app.current_view, CurrentView::ActivityDetail);
    match &reqs[0] {
        DispatchRequest::FetchJobResult { job_uid, device_uid, .. } => {
            assert_eq!(job_uid, "J-9");
            assert_eq!(device_uid, "dev-7");
        }
        other => panic!("unexpected request: {:?}", other),
    }
}

/// Startup issues the site and incident fetches toward the configured
/// backends, in that order.
#[test]
fn startup_issues_initial_fetches() {
    let mut app = App::new(true, true, false, false);
    let reqs = app.startup();
    assert_eq!(reqs.len(), 2);
    assert!(matches!(reqs[0], DispatchRequest::FetchSites { .. }));
    assert!(matches!(reqs[1], DispatchRequest::FetchIncidents { .. }));
    assert!(app.sites.loading);

    let mut bare = App::new(false, false, false, false);
    let reqs = bare.startup();
    assert!(reqs.is_empty());
    assert!(bare.error.is_some());
}

/// The settings action on a text row opens its edit input seeded with the
/// current value.
#[test]
fn toggle_on_text_row_opens_edit() {
    let mut app = app_with_sites(&["Acme Corp"]);
    app.populate_site_edit_state();
    app.settings_cursor = Some(0);
    let reqs = app.toggle_setting();
    assert!(reqs.is_empty());
    match &app.modal {
        Modal::TextInput(st) => {
            assert_eq!(st.name_buffer, "Acme Corp");
            assert!(st.editing_setting.is_some());
        }
        other => panic!("expected the text input, got {:?}", other),
    }
}

/// With duplicate override variables, the first one wins, as it does for
/// every other variable lookup.
#[test]
fn first_override_variable_wins() {
    let incidents = vec![incident(1, 42, "Acme Corp", "Open")];
    let stats = aggregate_incidents(&incidents);
    let mut s = site(2, "uid-else", "Other");
    s.variables = Some(vec![
        SiteVariable { id: 1, name: "tuiMdrId".to_string(), value: "42".to_string(), masked: false },
        SiteVariable { id: 2, name: "tuiMdrId".to_string(), value: "99".to_string(), masked: false },
    ]);
    let counts = stats_for_site(&s, &stats);
    assert_eq!(counts.active, 1);
}

/// Narrowing a site-wide activity page keeps exactly the one device's
/// entries, in order.
#[test]
fn activity_page_narrows_to_device() {
    let logs = vec![
        activity("a1", Some(7), None),
        activity("a2", Some(8), None),
        activity("a3", Some(7), None),
        activity("a4", None, None),
    ];
    let mine = retain_device_activities(&logs, 7);
    let ids: Vec<&str> = mine.iter().map(|l| l.id.as_deref().unwrap()).collect();
    assert_eq!(ids, vec!["a1", "a3"]);
}

/// A search completion routed through the message entry lands in the
/// picker; a key routed through it edits the picker's buffer.
#[test]
fn apply_routes_messages() {
    let mut app = App::new(true, false, false, false);
    app.apply(Event::Key { key: Key::Char('/'), now_ms: 0 });
    app.apply(Event::Key { key: Key::Char('a'), now_ms: 10 });
    app.apply(Event::Key { key: Key::Char('b'), now_ms: 20 });
    app.apply(Event::Key { key: Key::Char('c'), now_ms: 30 });
    let mut dispatches = Vec::new();
    for now in [280u64, 530, 780] {
        dispatches.extend(app.apply(Event::Tick { now_ms: now }));
    }
    assert_eq!(dispatches.len(), 1);
    let ordinal = match &dispatches[0] {
        DispatchRequest::SearchDevices { query, ordinal } => {
            assert_eq!(query, "abc");
            *ordinal
        }
        other => panic!("unexpected request: {:?}", other),
    };
    let payload = DevicesResponse {
        page_details: PageDetails { count: 1, total_count: Some(1) },
        devices: vec![device(7, "dev-7", "abc-host")],
    };
    app.apply(Event::DeviceSearchResultsFetched { ordinal, result: Ok(payload) });
    match &app.modal {
        Modal::ListPicker(ds) => {
            assert_eq!(ds.results.items.len(), 1);
            assert_eq!(ds.results.cursor, Some(0));
        }
        other => panic!("expected the list picker, got {:?}", other),
    }
}
