use wifi_mode::catalog::AccessPoint;
use wifi_mode::mode::{
    wifi_mode_get_display_value, wifi_mode_get_num_entries, wifi_mode_destory, wifi_mode_result,
    token_match_subject, MenuAction, ModeReply,
};
use wifi_mode::network::{
    connect_outcome, connection_request, is_target_device, is_wifi_profile_for, new_connection,
    profile_to_delete, ConnectOutcome, ConnectRequest, SavedConnection, ScanReport,
};
use wifi_mode::session::{AppState, IndicatorAnim, PrivateData, WiFiIcon};
use wifi_mode::signal::{ExecutionSignals, FnSIG, VFBTask};
use wifi_mode::state::Step;

fn ap(ssid: &str, bssid: &str, strength: u8, path: Option<&str>) -> AccessPoint {
    AccessPoint {
        ssid: ssid.to_string(),
        bssid: bssid.to_string(),
        frequency: 2412,
        signal_strength: strength,
        is_protected: true,
        setting_path: path.map(|p| p.to_string()),
    }
}

fn strengths(pd: &PrivateData) -> Vec<u8> {
    pd.aps.iter().map(|a| a.signal_strength).collect()
}

fn report(aps: Vec<AccessPoint>) -> ScanReport {
    ScanReport { access_points: aps, saved_connections: Vec::new() }
}

/// Runs a scan to its end with the given results.
fn scan_with(pd: &mut PrivateData, aps: Vec<AccessPoint>) {
    assert!(pd.set_wifi_mode_scan());
    assert!(!pd.shut_scan());
    assert!(!pd.scan_tick());
    assert!(pd.shut_scan());
    assert_eq!(pd.finish_scan(Some(report(aps))), Step::Done);
}

#[test]
fn scan_orders_results_by_strength() {
    let mut pd = PrivateData::new(Vec::new());
    scan_with(&mut pd, vec![ap("a", "A", 40, None), ap("b", "B", 90, None), ap("c", "C", 60, None)]);
    assert_eq!(strengths(&pd), vec![90, 60, 40]);
    assert_eq!(pd.state, AppState::Idle);
}

#[test]
fn new_session_is_idle_and_sorted() {
    let pd = PrivateData::new(vec![ap("a", "A", 5, None), ap("b", "B", 95, None)]);
    assert_eq!(pd.state, AppState::Idle);
    assert_eq!(strengths(&pd), vec![95, 5]);
    assert_eq!(
        pd.execution_signal,
        ExecutionSignals { scan_task: FnSIG::RespondToShut, connect_task: FnSIG::RespondToShut }
    );
    assert_eq!(pd.prompt(), "wifi");
    assert_eq!(pd.anim_scan.frames[0], "⠻ wifi");
    assert_eq!(pd.anim_connecting.frames[2], "connecting ...");
}

#[test]
fn selecting_unlinked_entry_asks_for_password() {
    let mut pd = PrivateData::new(vec![ap("home", "AA", 80, None), ap("x", "BB", 20, None)]);
    let before: Vec<String> = pd.aps.iter().map(|a| a.bssid.clone()).collect();
    assert_eq!(pd.set_wifi_mode_password(0, "home".into(), 0), Step::Done);
    let after: Vec<String> = pd.aps.iter().map(|a| a.bssid.clone()).collect();
    assert_eq!(before, after);
    assert!(pd.hidden_ssid.is_none());
    assert_eq!(pd.state, AppState::PasswordInput { bssid: "AA".into(), reason: 0 });
    assert_eq!(pd.prompt(), "password");
    assert_eq!(wifi_mode_get_num_entries(Some(&pd)), 0);
}

#[test]
fn selecting_linked_entry_connects_at_once() {
    let mut pd = PrivateData::new(vec![ap("home", "AA", 80, Some("/s/1")), ap("x", "BB", 90, None)]);
    assert_eq!(pd.handle_state(1, "home".into()), Step::Done);
    assert_eq!(pd.state, AppState::Connecting("AA".into()));
    assert_eq!(pd.aps[0].bssid, "AA");
    assert_eq!(pd.execution_signal.connect_task, FnSIG::CanRun);
    let target = pd.connect_target.as_ref().unwrap();
    assert!(!target.hidden);
    assert_eq!(target.access_point.setting_path.as_deref(), Some("/s/1"));
    match connection_request(&target.access_point, None, target.hidden, target.reason) {
        Some(ConnectRequest::Activate { settings_path }) => assert_eq!(settings_path, "/s/1"),
        other => panic!("unexpected {:?}", other),
    }
}

#[test]
fn failed_connect_reprompts_with_bad_auth() {
    let mut pd = PrivateData::new(vec![ap("home", "AA", 80, None)]);
    assert_eq!(pd.handle_state(0, "home".into()), Step::Done);
    assert_eq!(pd.handle_state(0, "secret".into()), Step::Done);
    assert_eq!(pd.state, AppState::Connecting("AA".into()));
    let target = pd.connect_target.as_ref().unwrap();
    let request = connection_request(
        &target.access_point,
        target.password.clone(),
        target.hidden,
        target.reason,
    )
    .unwrap();
    match &request {
        ConnectRequest::Create(c) => assert_eq!(c.psk.as_deref(), Some("secret")),
        other => panic!("unexpected {:?}", other),
    }
    let outcome = connect_outcome(120, 7).unwrap();
    assert_eq!(outcome, ConnectOutcome::Failed(7));
    assert_eq!(profile_to_delete(&request, "/s/new".into(), outcome), Some("/s/new".into()));
    let bssid = "AA".to_string();
    let n = pd.connect_target.as_ref().unwrap().attempt;
    assert_eq!(n, 1);
    assert_eq!(pd.finish_connect(&bssid, n, "/s/new".into(), outcome), Step::AwaitShutdown(VFBTask::Connect));
    assert!(!pd.connect_tick());
    assert_eq!(pd.finish_connect(&bssid, n, "/s/new".into(), outcome), Step::Done);
    assert_eq!(pd.state, AppState::PasswordInput { bssid: "AA".into(), reason: 7 });
    assert_eq!(pd.prompt(), "bad auth");
    assert!(pd.hidden_ssid.is_none());
    assert!(pd.connect_target.is_none());
}

#[test]
fn other_failure_prompts_fail() {
    let mut pd = PrivateData::new(vec![ap("home", "AA", 80, None)]);
    pd.handle_state(0, "home".into());
    pd.handle_state(0, "pw".into());
    assert!(!pd.shut_connect());
    assert!(!pd.connect_tick());
    assert_eq!(pd.finish_connect(&"AA".to_string(), 1, "/p".into(), ConnectOutcome::Failed(9)), Step::Done);
    assert_eq!(pd.prompt(), "fail");
}

#[test]
fn successful_connect_marks_active() {
    let mut pd = PrivateData::new(vec![ap("home", "AA", 10, None), ap("x", "BB", 90, None)]);
    pd.handle_state(0, "x".into());
    pd.handle_state(0, "pw".into());
    assert_eq!(pd.state, AppState::Connecting("BB".into()));
    assert!(pd.shut_connect() == false && !pd.connect_tick());
    assert_eq!(connect_outcome(100, 3), Some(ConnectOutcome::Connected));
    assert_eq!(pd.finish_connect(&"BB".to_string(), 1, "/s/9".into(), ConnectOutcome::Connected), Step::Done);
    assert_eq!(pd.state, AppState::Idle);
    assert_eq!(pd.active_connection.as_deref(), Some("BB"));
    assert_eq!(pd.aps[0].bssid, "BB");
    assert_eq!(pd.aps[0].setting_path.as_deref(), Some("/s/9"));
    let mut flags = 0;
    let row = wifi_mode_get_display_value(Some(&pd), 0, &mut flags, 1).unwrap();
    assert_eq!(
        row,
        "󰤪  x <span size='small' foreground='#639ec5ff' alpha='80%'>(contected)</span>"
    );
    assert_eq!(flags, 12);
}

#[test]
fn stale_connect_result_is_ignored() {
    let mut pd = PrivateData::new(vec![ap("home", "AA", 80, None)]);
    assert_eq!(pd.finish_connect(&"AA".to_string(), 0, "/p".into(), ConnectOutcome::Connected), Step::Done);
    assert_eq!(pd.state, AppState::Idle);
    assert!(pd.active_connection.is_none());
}

#[test]
fn older_attempt_to_same_bssid_cannot_finish_newer_one() {
    let mut pd = PrivateData::new(vec![ap("home", "AA", 80, Some("/s/1"))]);
    assert_eq!(pd.handle_state(0, String::new()), Step::Done);
    let first = pd.connect_target.as_ref().unwrap().attempt;
    assert_eq!(pd.handle_state(0, String::new()), Step::AwaitShutdown(VFBTask::Connect));
    assert!(!pd.connect_tick());
    assert_eq!(pd.handle_state(0, String::new()), Step::Done);
    let second = pd.connect_target.as_ref().unwrap().attempt;
    assert_eq!(second, first + 1);
    assert_eq!(pd.state, AppState::Connecting("AA".into()));
    let bssid = "AA".to_string();
    assert_eq!(pd.finish_connect(&bssid, first, "/s/1".into(), ConnectOutcome::Failed(7)), Step::Done);
    assert_eq!(pd.abort_connect(&bssid, first), Step::Done);
    assert_eq!(pd.state, AppState::Connecting("AA".into()));
    assert_eq!(pd.execution_signal.connect_task, FnSIG::CanRun);
}

#[test]
fn selecting_while_scanning_waits_for_scan_to_stop() {
    let mut pd = PrivateData::new(vec![ap("home", "AA", 80, None)]);
    assert!(pd.set_wifi_mode_scan());
    assert_eq!(
        wifi_mode_result(&mut pd, MenuAction::Accept, "home".into(), 0),
        ModeReply::Wait(VFBTask::Scan)
    );
    assert_eq!(pd.state, AppState::Scanning);
    assert_eq!(pd.execution_signal.scan_task, FnSIG::ShutGracefull);
    assert!(!pd.scan_tick());
    assert_eq!(pd.execution_signal.scan_task, FnSIG::RespondToShut);
    assert_eq!(
        wifi_mode_result(&mut pd, MenuAction::Accept, "home".into(), 0),
        ModeReply::ResetDialog
    );
    assert_eq!(pd.state, AppState::PasswordInput { bssid: "AA".into(), reason: 0 });
    assert!(!pd.scan_results_wanted());
    assert!(pd.scan_in_flight);
    assert_eq!(wifi_mode_result(&mut pd, MenuAction::Cancel, String::new(), 0), ModeReply::ReloadDialog);
    assert_eq!(pd.state, AppState::Idle);
    assert!(!pd.set_wifi_mode_scan());
    assert_eq!(pd.finish_scan(Some(report(vec![ap("new", "ZZ", 99, None)]))), Step::Done);
    assert!(!pd.scan_in_flight);
    assert_eq!(pd.aps.len(), 1);
    assert_eq!(pd.aps[0].bssid, "AA");
    assert_eq!(pd.state, AppState::Idle);
    assert!(pd.set_wifi_mode_scan());
}

#[test]
fn disconnect_clears_active_and_resorts() {
    let mut pd = PrivateData::new(vec![ap("a", "A", 90, None), ap("b", "B", 20, None)]);
    pd.set_connected(Some(("B".into(), "/s/b".into())));
    assert_eq!(strengths(&pd), vec![20, 90]);
    assert!(pd.on_network_state(20));
    assert!(pd.active_connection.is_none());
    assert_eq!(strengths(&pd), vec![90, 20]);
    assert_eq!(pd.state, AppState::Idle);
}

#[test]
fn listener_ignores_own_attempt() {
    let mut pd = PrivateData::new(vec![ap("a", "A", 90, Some("/s/a"))]);
    pd.handle_state(0, String::new());
    assert_eq!(pd.state, AppState::Connecting("A".into()));
    assert!(!pd.on_network_state(40));
    assert!(!pd.on_network_state(70));
    assert!(!pd.on_network_state(30));
    assert_eq!(pd.state, AppState::Connecting("A".into()));
    let mut idle = PrivateData::new(Vec::new());
    assert!(idle.on_network_state(70));
    assert!(idle.on_network_state(40));
    assert!(!idle.on_network_state(50));
}

#[test]
fn forget_without_saved_config_does_nothing() {
    let mut pd = PrivateData::new(vec![ap("a", "A", 90, None)]);
    assert_eq!(wifi_mode_result(&mut pd, MenuAction::Delete, String::new(), 0), ModeReply::ReloadDialog);
    assert_eq!(pd.state, AppState::Idle);
    assert!(pd.aps[0].setting_path.is_none());
    assert_eq!(wifi_mode_result(&mut pd, MenuAction::Delete, String::new(), 5), ModeReply::ReloadDialog);
}

#[test]
fn forget_keeps_entry_and_deleted_profile_stays_gone() {
    let mut pd = PrivateData::new(vec![ap("home", "AA:01", 80, Some("/s/1"))]);
    assert_eq!(
        wifi_mode_result(&mut pd, MenuAction::Delete, String::new(), 0),
        ModeReply::Forget("home".into())
    );
    assert_eq!(pd.aps.len(), 1);
    assert_eq!(pd.aps[0].bssid, "AA:01");
    assert!(pd.aps[0].setting_path.is_none());
    let remaining = vec![SavedConnection {
        path: "/s/2".into(),
        uuid: Some("12345678-2".into()),
        connection_type: Some("802-11-wireless".into()),
        bssid: Some(vec![0xbb, 0x02]),
    }];
    pd.replace(vec![ap("home", "AA:01", 80, None)], &remaining);
    assert!(pd.aps[0].setting_path.is_none());
    let stale = vec![SavedConnection {
        path: "/s/1".into(),
        uuid: Some("12345678-1".into()),
        connection_type: Some("802-11-wireless".into()),
        bssid: Some(vec![0xaa, 0x01]),
    }];
    pd.replace(vec![ap("home", "AA:01", 80, None)], &stale);
    assert_eq!(pd.aps[0].setting_path.as_deref(), Some("/s/1"));
}

#[test]
fn custom_input_past_the_end_is_a_hidden_network() {
    let mut pd = PrivateData::new(vec![ap("a", "A", 90, None)]);
    assert_eq!(
        wifi_mode_result(&mut pd, MenuAction::CustomInput, "secret-net".into(), 1),
        ModeReply::ResetDialog
    );
    assert_eq!(pd.state, AppState::PasswordInput { bssid: "secret-net".into(), reason: 0 });
    assert_eq!(pd.hidden_ssid.as_deref(), Some("secret-net"));
    assert_eq!(pd.handle_state(0, "pw".into()), Step::Done);
    let target = pd.connect_target.as_ref().unwrap();
    assert!(target.hidden);
    assert_eq!(target.access_point.ssid, "secret-net");
    assert!(pd.hidden_ssid.is_none());
    match connection_request(&target.access_point, target.password.clone(), true, 0) {
        Some(ConnectRequest::Create(c)) => {
            assert!(c.hidden);
            assert!(c.bssid.is_none());
            assert_eq!(c.ssid, b"secret-net".to_vec());
            assert!(c.uuid.starts_with("12345678-"));
        }
        other => panic!("unexpected {:?}", other),
    }
}

#[test]
fn cancel_leaves_password_prompt() {
    let mut pd = PrivateData::new(vec![ap("a", "A", 90, None)]);
    pd.handle_state(0, String::new());
    assert_eq!(wifi_mode_result(&mut pd, MenuAction::Cancel, String::new(), 0), ModeReply::ReloadDialog);
    assert_eq!(pd.state, AppState::Idle);
    assert_eq!(wifi_mode_result(&mut pd, MenuAction::Cancel, String::new(), 0), ModeReply::Exit);
}

#[test]
fn mode_switches_pass_through() {
    let mut pd = PrivateData::new(Vec::new());
    assert_eq!(wifi_mode_result(&mut pd, MenuAction::Next, String::new(), 0), ModeReply::NextDialog);
    assert_eq!(wifi_mode_result(&mut pd, MenuAction::Previous, String::new(), 0), ModeReply::PreviousDialog);
    assert_eq!(wifi_mode_result(&mut pd, MenuAction::QuickSwitch(3), String::new(), 0), ModeReply::SwitchMode(3));
}

#[test]
fn single_flight_across_scan_and_connect() {
    let mut pd = PrivateData::new(vec![ap("a", "A", 90, Some("/s/a"))]);
    assert!(pd.set_wifi_mode_scan());
    assert!(!pd.set_wifi_mode_scan());
    assert_eq!(pd.handle_state(0, String::new()), Step::AwaitShutdown(VFBTask::Scan));
    assert!(pd.scan_tick() == false);
    assert_eq!(pd.handle_state(0, String::new()), Step::Done);
    assert_eq!(pd.execution_signal.scan_task, FnSIG::RespondToShut);
    assert_eq!(pd.execution_signal.connect_task, FnSIG::CanRun);
    assert!(!pd.set_wifi_mode_scan());
}

#[test]
fn shutdown_is_acknowledged_at_next_poll() {
    let mut pd = PrivateData::new(Vec::new());
    assert!(pd.shut_task(VFBTask::Scan));
    assert!(pd.set_wifi_mode_scan());
    assert!(pd.scan_tick());
    assert_eq!(pd.anim_scan.index, 1);
    assert!(!pd.shut_task(VFBTask::Scan));
    assert!(!pd.shut_task(VFBTask::Scan));
    assert!(pd.pool_shut_signal(VFBTask::Connect));
    assert!(pd.pool_shut_signal(VFBTask::Scan));
    assert!(pd.shut_task(VFBTask::Scan));
    assert!(pd.pool_shut_signal(VFBTask::Scan));
}

#[test]
fn poll_signal_on_raw_slots() {
    let mut s = ExecutionSignals { scan_task: FnSIG::CanRun, connect_task: FnSIG::ShutGracefull };
    assert!(!VFBTask::Scan.poll_signal(&mut s));
    assert!(VFBTask::Connect.poll_signal(&mut s));
    assert_eq!(s.connect_task, FnSIG::RespondToShut);
    *VFBTask::Scan.task_signal(&mut s) = FnSIG::ShutGracefull;
    assert_eq!(s.scan_task, FnSIG::ShutGracefull);
}

#[test]
fn prompt_follows_animations() {
    let mut pd = PrivateData::new(Vec::new());
    pd.set_wifi_mode_scan();
    assert_eq!(pd.prompt(), "⠻ wifi");
    pd.scan_tick();
    assert_eq!(pd.prompt(), "⠽ wifi");
    assert_eq!(pd.tick_interval_ms(VFBTask::Scan), 100);
    assert_eq!(pd.tick_interval_ms(VFBTask::Connect), 250);
}

#[test]
fn display_rows_pick_icon_by_strength() {
    let mut open = ap("o", "O", 100, None);
    open.is_protected = false;
    let pd = PrivateData::new(vec![
        open,
        ap("g", "G", 69, None),
        ap("f", "F", 30, None),
        ap("w", "W", 10, None),
        ap("v", "V", 9, None),
        ap("x", "X", 101, None),
    ]);
    let rows: Vec<String> = (0..6)
        .map(|i| {
            let mut flags = 0;
            let r = wifi_mode_get_display_value(Some(&pd), i, &mut flags, 1).unwrap();
            assert_eq!(flags, 0);
            r
        })
        .collect();
    assert_eq!(rows[0], "󰤪  x");
    assert_eq!(rows[1], "󰤨  o");
    assert_eq!(rows[2], "󰤧  g");
    assert_eq!(rows[3], "󰤤  f");
    assert_eq!(rows[4], "󰤡  w");
    assert_eq!(rows[5], "󰤬  v");
    let mut flags = 3;
    assert_eq!(wifi_mode_get_display_value(Some(&pd), 6, &mut flags, 1), None);
    assert_eq!(wifi_mode_get_display_value(Some(&pd), 0, &mut flags, 0), None);
    assert_eq!(wifi_mode_get_display_value(None, 0, &mut flags, 1), None);
    assert_eq!(flags, 3);
}

#[test]
fn connecting_row_shows_animation() {
    let mut pd = PrivateData::new(vec![ap("a", "A", 90, Some("/s/a"))]);
    pd.handle_state(0, String::new());
    pd.connect_tick();
    let mut flags = 1;
    let row = wifi_mode_get_display_value(Some(&pd), 0, &mut flags, 1).unwrap();
    assert_eq!(
        row,
        "󰤪  a <span size='small' foreground='#639ec5ff' alpha='80%'>connecting ..</span>"
    );
    assert_eq!(flags, 13);
    assert_eq!(pd.prompt(), "connecting ..");
}

#[test]
fn entry_count_and_match_subject() {
    let mut pd = PrivateData::new(vec![ap("a", "A", 90, None), ap("b", "B", 80, None)]);
    assert_eq!(wifi_mode_get_num_entries(Some(&pd)), 2);
    assert_eq!(wifi_mode_get_num_entries(None), 0);
    assert_eq!(token_match_subject(Some(&pd), 1), Some("b".to_string()));
    assert_eq!(token_match_subject(Some(&pd), 2), None);
    pd.handle_state(0, String::new());
    assert_eq!(token_match_subject(Some(&pd), 0), None);
}

#[test]
fn destroy_drops_the_session() {
    let mut slot = Some(PrivateData::new(Vec::new()));
    wifi_mode_destory(&mut slot);
    assert!(slot.is_none());
}

#[test]
fn theme_settings_are_checked() {
    let mut pd = PrivateData::new(Vec::new());
    pd.set_scan_fps(0);
    pd.set_scan_fps(61);
    assert_eq!(pd.anim_scan.fps, 10);
    pd.set_scan_fps(60);
    pd.set_connecting_fps(2);
    assert_eq!(pd.anim_scan.fps, 60);
    assert_eq!(pd.anim_connecting.fps, 2);
    pd.set_scan_indicator(&Vec::new());
    assert_eq!(pd.anim_scan.frames.len(), 6);
    pd.set_scan_indicator(&vec!["-".into(), "+".into()]);
    assert_eq!(pd.anim_scan.frames, vec!["- wifi".to_string(), "+ wifi".to_string()]);
    pd.set_connecting_indicator(vec!["..".into()]);
    assert_eq!(pd.anim_connecting.frames, vec!["..".to_string()]);
    pd.set_icons_open(&vec!["a".into(), "b".into()]);
    assert_eq!(pd.icons.open, WiFiIcon::default().open);
    pd.set_icons_psk(&vec!["1x".into(), "".into(), "3".into(), "4".into(), "5".into()]);
    assert_eq!(pd.icons.psk, vec!['1', '\u{fffc}', '3', '4', '5']);
    assert_eq!(IndicatorAnim::build_scan("net", "*"), "* net");
    assert_eq!(IndicatorAnim::build_connect("joining"), "joining");
    assert_eq!(AppState::default(), AppState::Idle);
}

#[test]
fn network_predicates() {
    assert!(is_target_device(2, "wlan0", "wlan0"));
    assert!(!is_target_device(1, "wlan0", "wlan0"));
    assert!(!is_target_device(2, "wlan1", "wlan0"));
    assert!(is_wifi_profile_for("802-11-wireless", "home", "home"));
    assert!(!is_wifi_profile_for("802-11-wireless", "home", "work"));
    assert_eq!(connect_outcome(50, 7), None);
    let open = AccessPoint {
        ssid: "cafe".into(),
        bssid: "0A:0B".into(),
        frequency: 2412,
        signal_strength: 50,
        is_protected: false,
        setting_path: None,
    };
    let c = new_connection(&open, Some("ignored".into()), false, "u".into());
    assert_eq!(c.bssid, Some(vec![0x0a, 0x0b]));
    assert!(c.psk.is_none());
    assert_eq!(c.id, "cafe");
    let locked = AccessPoint { is_protected: true, ..open.clone() };
    assert!(connection_request(&locked, None, false, 7).is_none());
    let req = ConnectRequest::Activate { settings_path: "/s".into() };
    assert_eq!(profile_to_delete(&req, "/s".into(), ConnectOutcome::Failed(7)), None);
}

#[test]
fn broken_attempt_returns_to_idle() {
    let mut pd = PrivateData::new(vec![ap("a", "A", 20, None), ap("b", "B", 90, None)]);
    pd.handle_state(1, String::new());
    pd.handle_state(1, "pw".into());
    assert_eq!(pd.state, AppState::Connecting("A".into()));
    assert_eq!(pd.aps[0].bssid, "A");
    let bssid = "A".to_string();
    let n = pd.connect_target.as_ref().unwrap().attempt;
    assert_eq!(pd.abort_connect(&"B".to_string(), n), Step::Done);
    assert_eq!(pd.state, AppState::Connecting("A".into()));
    assert_eq!(pd.abort_connect(&bssid, n), Step::AwaitShutdown(VFBTask::Connect));
    assert!(!pd.connect_tick());
    assert_eq!(pd.abort_connect(&bssid, n), Step::Done);
    assert_eq!(pd.state, AppState::Idle);
    assert!(pd.connect_target.is_none());
    assert_eq!(strengths(&pd), vec![90, 20]);
}

#[test]
fn shut_answers_after_the_flow_polls() {
    let mut slot = FnSIG::CanRun;
    assert!(!PrivateData::shut(&mut slot));
    assert_eq!(slot, FnSIG::ShutGracefull);
    let mut signals = ExecutionSignals { scan_task: slot, connect_task: FnSIG::RespondToShut };
    assert!(VFBTask::Scan.poll_signal(&mut signals));
    let mut slot = signals.scan_task;
    assert!(PrivateData::shut(&mut slot));
    assert_eq!(slot, FnSIG::RespondToShut);
}
