use scooter_tray::control::{dispatch, entry_command, Action, ControlCommand};
use scooter_tray::ports::{
    extract_first_pid, extract_listening_pids, kill_process_outcome, last_token_pid,
    parse_u32_bytes,
};
use scooter_tray::render::MenuEntry;
use scooter_tray::supervisor::{
    sidecar_file_name, ProcessHandle, ProcessSupervisor, SpawnError, SpawnEvent,
    RESTART_GRACE_MS,
};
use scooter_tray::poller::{
    reset_url, shutdown_url, status_url, CONTROL_PORT, POLL_INTERVAL_MS, STARTUP_DELAY_MS,
};
use scooter_tray::update::{
    build_update_url, plan_install, summarize_update_check, update_endpoint, UpdateCheckOutcome,
};

#[test]
fn kill_twice_is_idempotent() {
    let mut sup = ProcessSupervisor::new();
    sup.store_spawned(ProcessHandle { pid: 41 });
    assert!(sup.is_alive());
    let first = sup.kill_backend();
    assert_eq!(first, Some(ProcessHandle { pid: 41 }));
    assert!(!sup.is_alive());
    let second = sup.kill_backend();
    assert_eq!(second, None);
    assert!(!sup.is_alive());
}

#[test]
fn restart_from_empty_slot_leaves_one_process() {
    let mut sup = ProcessSupervisor::new();
    assert!(!sup.is_alive());
    let victim = sup.kill_backend();
    assert_eq!(victim, None);
    sup.store_spawned(ProcessHandle { pid: 77 });
    assert!(sup.is_alive());
    let now_held = sup.kill_backend();
    assert_eq!(now_held, Some(ProcessHandle { pid: 77 }));
}

#[test]
fn spawn_events_fill_or_report() {
    let mut sup = ProcessSupervisor::new();
    let missing = sup.handle_spawn_event(SpawnEvent::Missing);
    assert!(matches!(missing, Err(SpawnError::BinaryNotFound)));
    assert!(!sup.is_alive());
    let failed = sup.handle_spawn_event(SpawnEvent::Failed("denied".to_string()));
    assert!(matches!(failed, Err(SpawnError::SpawnFailed(m)) if m == "denied"));
    assert!(!sup.is_alive());
    let started = sup.handle_spawn_event(SpawnEvent::Started(9));
    assert!(started.is_ok());
    assert!(sup.is_alive());
}

#[test]
fn sidecar_name_per_platform() {
    assert_eq!(sidecar_file_name(true), "scooter.exe");
    assert_eq!(sidecar_file_name(false), "scooter");
}

#[test]
fn dispatch_maps_commands_to_actions() {
    assert_eq!(dispatch(ControlCommand::Show), vec![Action::FocusWindow]);
    assert_eq!(dispatch(ControlCommand::Quit), vec![Action::KillBackend, Action::ExitApp]);
    assert_eq!(dispatch(ControlCommand::Reload), vec![Action::PostReset]);
    let restart = vec![
        Action::PostShutdown,
        Action::GraceDelay,
        Action::KillBackend,
        Action::SpawnBackend,
        Action::ReloadWindow,
    ];
    assert_eq!(dispatch(ControlCommand::Restart), restart);
    assert_eq!(dispatch(ControlCommand::ShutdownThenRestart), restart);
}

#[test]
fn menu_entries_map_to_commands() {
    assert_eq!(entry_command(&MenuEntry::RestartAction), Some(ControlCommand::Restart));
    assert_eq!(entry_command(&MenuEntry::ShowAction), Some(ControlCommand::Show));
    assert_eq!(entry_command(&MenuEntry::QuitAction), Some(ControlCommand::Quit));
    assert_eq!(entry_command(&MenuEntry::Connecting), None);
    assert_eq!(
        entry_command(&MenuEntry::ToolLine {
            name: "a".to_string(),
            class: scooter_tray::status::ToolClass::Good,
        }),
        None
    );
}

#[test]
fn endpoints_and_timings_are_fixed() {
    assert_eq!(status_url(), "http://127.0.0.1:6200/api/status");
    assert_eq!(shutdown_url(), "http://127.0.0.1:6200/api/shutdown");
    assert_eq!(reset_url(), "http://127.0.0.1:6200/api/reset");
    assert_eq!(CONTROL_PORT, 6200);
    assert_eq!(STARTUP_DELAY_MS, 2000);
    assert_eq!(POLL_INTERVAL_MS, 5000);
    assert_eq!(RESTART_GRACE_MS, 1000);
}

#[test]
fn parse_pid_accepts_digits_only() {
    assert_eq!(parse_u32_bytes(b"123"), Some(123));
    assert_eq!(parse_u32_bytes(b""), None);
    assert_eq!(parse_u32_bytes(b"12a"), None);
    assert_eq!(parse_u32_bytes(b"4294967295"), Some(u32::MAX));
    assert_eq!(parse_u32_bytes(b"4294967296"), None);
    assert_eq!(parse_u32_bytes(b"99999999999999999999"), None);
}

#[test]
fn last_token_pid_reads_line_tail() {
    assert_eq!(last_token_pid(b"  TCP    0.0.0.0:6200   LISTENING   512\r"), Some(512));
    assert_eq!(last_token_pid(b"LISTENING"), None);
    assert_eq!(last_token_pid(b"   \t \r"), None);
    assert_eq!(last_token_pid(b"512"), Some(512));
}

#[test]
fn listening_lines_yield_candidates_in_order() {
    let out = b"  TCP    0.0.0.0:6200    0.0.0.0:0    LISTENING    512\r\n  TCP    [::]:6200    [::]:0    LISTENING    9034\r\n  UDP    0.0.0.0:500    *:*    77\r\n";
    assert_eq!(extract_listening_pids(out), vec![512, 9034]);
    assert_eq!(extract_listening_pids(b""), Vec::<u32>::new());
    assert_eq!(extract_listening_pids(b"LISTENING abc\n"), Vec::<u32>::new());
    assert_eq!(extract_listening_pids(b"no such socket\n"), Vec::<u32>::new());
}

#[test]
fn first_line_pid_reads_head() {
    assert_eq!(extract_first_pid(b"4321\n8765\n"), Some(4321));
    assert_eq!(extract_first_pid(b"4321"), Some(4321));
    assert_eq!(extract_first_pid(b""), None);
    assert_eq!(extract_first_pid(b"oops\n123\n"), None);
}

#[test]
fn kill_outcome_reports_missing_process() {
    assert_eq!(kill_process_outcome(Some(true)), Ok(true));
    assert_eq!(kill_process_outcome(Some(false)), Ok(false));
    assert_eq!(kill_process_outcome(None), Err("Process not found".to_string()));
}

#[test]
fn update_endpoints_per_channel() {
    assert_eq!(
        update_endpoint(false),
        "https://github.com/mcp-scooter/scooter/releases/download/updater/latest.json"
    );
    assert_eq!(
        update_endpoint(true),
        "https://github.com/mcp-scooter/scooter/releases/download/updater/beta.json"
    );
    assert!(build_update_url(false).is_ok());
    assert!(build_update_url(true).is_ok());
}

#[test]
fn update_check_summaries() {
    let found = summarize_update_check(UpdateCheckOutcome::Available {
        version: "1.2.3".to_string(),
        notes: Some("notes".to_string()),
        date: None,
    })
    .unwrap();
    assert!(found.available);
    assert_eq!(found.version, Some("1.2.3".to_string()));
    assert_eq!(found.notes, Some("notes".to_string()));
    assert_eq!(found.date, None);

    let none = summarize_update_check(UpdateCheckOutcome::UpToDate).unwrap();
    assert!(!none.available);
    assert_eq!(none.version, None);

    let failed = summarize_update_check(UpdateCheckOutcome::CheckFailed("offline".to_string()));
    assert_eq!(failed, Err("Failed to check for updates: offline".to_string()));
}

#[test]
fn install_plan_per_outcome() {
    assert_eq!(
        plan_install(&UpdateCheckOutcome::Available {
            version: "1.2.3".to_string(),
            notes: None,
            date: None,
        }),
        Ok(())
    );
    assert_eq!(
        plan_install(&UpdateCheckOutcome::UpToDate),
        Err("No update available".to_string())
    );
    assert_eq!(
        plan_install(&UpdateCheckOutcome::CheckFailed("offline".to_string())),
        Err("Failed to check for updates: offline".to_string())
    );
}
