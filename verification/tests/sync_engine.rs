use scooter_tray::differ::status_changed;
use scooter_tray::poller::{accept_poll, poll_cycle, PollOutcome};
use scooter_tray::render::{
    build_menu, choose_icon_source, icon_class, icon_file_name, IconClass, IconSource, MenuEntry,
};
use scooter_tray::status::{classify, AppStatus, ProfileStatus, ToolClass, ToolStatus};

fn tool(name: &str, status: &str) -> ToolStatus {
    ToolStatus { name: name.to_string(), status: status.to_string() }
}

fn profile(id: &str, running: bool, tools: Option<Vec<ToolStatus>>) -> ProfileStatus {
    let active_tools = match &tools {
        Some(ts) => ts.len() as i32,
        None => 0,
    };
    ProfileStatus { id: id.to_string(), running, active_tools, tool_status: tools }
}

fn snapshot(gateway_running: bool, active: &str, profiles: Vec<ProfileStatus>) -> AppStatus {
    AppStatus {
        gateway_running,
        control_port: 6200,
        mcp_port: 6277,
        active_profile_id: active.to_string(),
        profiles,
    }
}

fn sample() -> AppStatus {
    snapshot(
        true,
        "default",
        vec![profile("default", true, Some(vec![tool("a", "ok"), tool("b", "warning")]))],
    )
}

#[test]
fn absent_pair_is_unchanged() {
    assert!(!status_changed(&None, &None));
}

#[test]
fn presence_flip_is_changed() {
    let s = sample();
    assert!(status_changed(&Some(s.clone()), &None));
    assert!(status_changed(&None, &Some(s)));
}

#[test]
fn identical_snapshots_are_unchanged() {
    let s = sample();
    assert!(!status_changed(&Some(s.clone()), &Some(s)));
}

#[test]
fn gateway_flip_is_changed() {
    let mut s2 = sample();
    s2.gateway_running = false;
    assert!(status_changed(&Some(s2), &Some(sample())));
}

#[test]
fn active_profile_change_is_changed() {
    let mut s2 = sample();
    s2.active_profile_id = "other".to_string();
    assert!(status_changed(&Some(s2), &Some(sample())));
}

#[test]
fn profile_count_change_is_changed() {
    let mut s2 = sample();
    s2.profiles.push(profile("extra", false, None));
    assert!(status_changed(&Some(s2), &Some(sample())));
}

#[test]
fn tool_status_change_is_changed() {
    let s2 = snapshot(
        true,
        "default",
        vec![profile("default", true, Some(vec![tool("a", "ok"), tool("b", "ok")]))],
    );
    assert!(status_changed(&Some(s2), &Some(sample())));
}

#[test]
fn unknown_new_profile_is_changed() {
    let s2 = snapshot(
        true,
        "default",
        vec![profile("renamed", true, Some(vec![tool("a", "ok"), tool("b", "warning")]))],
    );
    assert!(status_changed(&Some(s2), &Some(sample())));
}

#[test]
fn classify_fixed_mapping() {
    assert_eq!(classify(&"ok".to_string()), ToolClass::Good);
    assert_eq!(classify(&"idle".to_string()), ToolClass::Idle);
    assert_eq!(classify(&"warning".to_string()), ToolClass::Warning);
    assert_eq!(classify(&"exploded".to_string()), ToolClass::Problem);
    assert_eq!(classify(&"".to_string()), ToolClass::Problem);
}

#[test]
fn icon_absent_is_error() {
    assert_eq!(icon_class(&None), IconClass::Error);
}

#[test]
fn icon_stopped_gateway_is_error_regardless_of_tools() {
    let mut s = sample();
    s.gateway_running = false;
    assert_eq!(icon_class(&Some(s)), IconClass::Error);
    let all_ok = snapshot(false, "", vec![profile("p", true, Some(vec![tool("a", "ok")]))]);
    assert_eq!(icon_class(&Some(all_ok)), IconClass::Error);
}

#[test]
fn icon_all_ok_is_good() {
    let s = snapshot(true, "", vec![profile("p", true, Some(vec![tool("a", "ok")]))]);
    assert_eq!(icon_class(&Some(s)), IconClass::Good);
}

#[test]
fn one_warning_tool_yields_warning_icon_and_menu_lines() {
    let s = sample();
    assert_eq!(icon_class(&Some(s.clone())), IconClass::Warning);
    let menu = build_menu(&Some(s));
    let profile_lines: Vec<&MenuEntry> = menu
        .iter()
        .filter(|e| matches!(e, MenuEntry::ProfileHeader { .. }))
        .collect();
    assert_eq!(profile_lines.len(), 1);
    assert!(matches!(
        profile_lines[0],
        MenuEntry::ProfileHeader { id, active: true } if id == "default"
    ));
    let tool_lines: Vec<&MenuEntry> = menu
        .iter()
        .filter(|e| matches!(e, MenuEntry::ToolLine { .. }))
        .collect();
    assert_eq!(tool_lines.len(), 2);
    assert!(matches!(
        tool_lines[0],
        MenuEntry::ToolLine { name, class: ToolClass::Good } if name == "a"
    ));
    assert!(matches!(
        tool_lines[1],
        MenuEntry::ToolLine { name, class: ToolClass::Warning } if name == "b"
    ));
}

#[test]
fn menu_absent_renders_connecting() {
    let menu = build_menu(&None);
    assert_eq!(
        menu,
        vec![
            MenuEntry::Connecting,
            MenuEntry::Separator,
            MenuEntry::RestartAction,
            MenuEntry::Separator,
            MenuEntry::ShowAction,
            MenuEntry::QuitAction,
        ]
    );
}

#[test]
fn menu_present_full_layout() {
    let menu = build_menu(&Some(sample()));
    assert_eq!(
        menu,
        vec![
            MenuEntry::GatewayHeader { running: true, port: 6277 },
            MenuEntry::Separator,
            MenuEntry::ActiveProfileHeader { id: "default".to_string() },
            MenuEntry::Separator,
            MenuEntry::ProfileHeader { id: "default".to_string(), active: true },
            MenuEntry::ToolLine { name: "a".to_string(), class: ToolClass::Good },
            MenuEntry::ToolLine { name: "b".to_string(), class: ToolClass::Warning },
            MenuEntry::Separator,
            MenuEntry::RestartAction,
            MenuEntry::Separator,
            MenuEntry::ShowAction,
            MenuEntry::QuitAction,
        ]
    );
}

#[test]
fn menu_without_tools_renders_no_tools_line() {
    let s = snapshot(true, "", vec![profile("p", false, Some(vec![tool("a", "ok")]))]);
    let menu = build_menu(&Some(s));
    assert_eq!(
        menu,
        vec![
            MenuEntry::GatewayHeader { running: true, port: 6277 },
            MenuEntry::Separator,
            MenuEntry::NoTools,
            MenuEntry::Separator,
            MenuEntry::RestartAction,
            MenuEntry::Separator,
            MenuEntry::ShowAction,
            MenuEntry::QuitAction,
        ]
    );
}

#[test]
fn duplicate_profile_ids_do_not_crash() {
    let dup = snapshot(
        true,
        "p",
        vec![
            profile("p", true, Some(vec![tool("a", "ok")])),
            profile("p", true, Some(vec![tool("b", "idle")])),
        ],
    );
    let _ = status_changed(&Some(dup.clone()), &Some(dup.clone()));
    let menu = build_menu(&Some(dup.clone()));
    assert!(menu.len() >= 4);
    let _ = icon_class(&Some(dup.clone()));

    // With duplicate ids, lookup by id always finds the first entry, so an
    // identical pair whose duplicates differ in their fields reports changed.
    let skewed = snapshot(
        true,
        "p",
        vec![
            profile("p", true, Some(vec![tool("a", "ok")])),
            profile("p", true, Some(vec![tool("b", "idle")])),
        ],
    );
    assert!(status_changed(&Some(skewed.clone()), &Some(skewed)));
}

#[test]
fn http_error_yields_absent_like_connection_refusal() {
    let refused = accept_poll(PollOutcome::TransportFailed);
    let server_error = accept_poll(PollOutcome::HttpResponse {
        status: 500,
        parsed: Some(sample()),
    });
    assert_eq!(refused, None);
    assert_eq!(server_error, None);
    assert_eq!(
        status_changed(&refused, &Some(sample())),
        status_changed(&server_error, &Some(sample()))
    );
}

#[test]
fn successful_poll_yields_snapshot() {
    let got = accept_poll(PollOutcome::HttpResponse { status: 200, parsed: Some(sample()) });
    assert_eq!(got, Some(sample()));
    let unparseable = accept_poll(PollOutcome::HttpResponse { status: 200, parsed: None });
    assert_eq!(unparseable, None);
}

#[test]
fn poll_cycle_replaces_snapshot_only_on_change() {
    let (kept, changed) = poll_cycle(
        Some(sample()),
        PollOutcome::HttpResponse { status: 200, parsed: Some(sample()) },
    );
    assert!(!changed);
    assert_eq!(kept, Some(sample()));

    let mut other = sample();
    other.gateway_running = false;
    let (replaced, changed2) = poll_cycle(
        Some(sample()),
        PollOutcome::HttpResponse { status: 200, parsed: Some(other.clone()) },
    );
    assert!(changed2);
    assert_eq!(replaced, Some(other));

    let (dropped, changed3) = poll_cycle(Some(sample()), PollOutcome::TransportFailed);
    assert!(changed3);
    assert_eq!(dropped, None);
}

#[test]
fn icon_file_names_are_fixed() {
    assert_eq!(icon_file_name(IconClass::Good), "tray-ok.png");
    assert_eq!(icon_file_name(IconClass::Warning), "tray-warning.png");
    assert_eq!(icon_file_name(IconClass::Error), "tray-error.png");
}

#[test]
fn icon_source_probing_order() {
    assert_eq!(
        choose_icon_source(true, true, true, IconClass::Error),
        Some(IconSource::Installed)
    );
    assert_eq!(
        choose_icon_source(false, true, true, IconClass::Error),
        Some(IconSource::DevTree)
    );
    assert_eq!(
        choose_icon_source(false, false, true, IconClass::Good),
        Some(IconSource::PublicLogo)
    );
    assert_eq!(choose_icon_source(false, false, true, IconClass::Warning), None);
    assert_eq!(choose_icon_source(false, false, false, IconClass::Good), None);
}
