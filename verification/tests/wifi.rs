use hisi_rf_core::Security;
use ws63_starter::station::station_request;
use ws63_starter::dhcp::{DhcpEvent, DhcpLease, Ipv4Cidr, NetworkState, RouteChange};
use ws63_starter::station::{
    connection_plan, credentials_configured, select_network, ConnectionSetupError, ScanEntry,
};
use ws63_starter::wifi_bringup::{
    BringUpAction, StageOutcome, WifiBringUp, WifiMarker, WifiPhase, WifiStage,
};
use ws63_starter::wifi_config::{
    connect_operation_timeout, connect_wait_deadline, initialize_wait_deadline, radio_config,
    scan_operation_timeout, scan_wait_deadline, SCAN_CAPACITY,
};

fn entries(ssids: &[&[u8]]) -> Vec<ScanEntry> {
    ssids.iter().map(|s| ScanEntry { ssid: s.to_vec() }).collect()
}

#[test]
fn radio_config_sets_backend_timeouts() {
    let config = radio_config();
    assert_eq!(config.wifi.initialize_timeout.as_millis(), 30_000);
    assert_eq!(config.wifi.disconnect_timeout.as_millis(), 10_000);
}

#[test]
fn operation_timeouts_and_wait_deadlines() {
    assert_eq!(scan_operation_timeout().as_millis(), 15_000);
    assert_eq!(connect_operation_timeout().as_millis(), 60_000);
    assert_eq!(initialize_wait_deadline().as_millis(), 35_000);
    assert_eq!(scan_wait_deadline().as_millis(), 30_000);
    assert_eq!(connect_wait_deadline().as_millis(), 90_000);
    assert_eq!(SCAN_CAPACITY, 16);
}

#[test]
fn select_network_picks_first_exact_match() {
    let results = entries(&[b"guest", b"office", b"office", b"lab"]);
    assert_eq!(select_network(&results, b"office"), Some(1));
    assert_eq!(select_network(&results, b"lab"), Some(3));
}

#[test]
fn select_network_requires_exact_bytes() {
    let results = entries(&[b"office-5g", b"Office", b"offic"]);
    assert_eq!(select_network(&results, b"office"), None);
    assert_eq!(select_network(&[], b"office"), None);
}

#[test]
fn credentials_must_both_be_set() {
    assert!(credentials_configured(b"net", b"secret12"));
    assert!(!credentials_configured(b"", b"secret12"));
    assert!(!credentials_configured(b"net", b""));
}

#[test]
fn connection_plan_reports_missing_network() {
    let results = entries(&[b"guest"]);
    match connection_plan(&results, b"office", b"password123") {
        Err(e) => assert_eq!(e, ConnectionSetupError::NetworkNotFound),
        Ok(_) => panic!("network should be missing"),
    }
}

#[test]
fn connection_plan_rejects_bad_passphrases() {
    let results = entries(&[b"guest", b"office"]);
    for bad in [&b"short"[..], &b"tab\tinside"[..], &[b'x'; 64][..]] {
        match connection_plan(&results, b"office", bad) {
            Err(e) => assert_eq!(e, ConnectionSetupError::InvalidPassphrase),
            Ok(_) => panic!("passphrase should be refused"),
        }
    }
}

#[test]
fn connection_plan_selects_network_and_keeps_passphrase() {
    let results = entries(&[b"guest", b"office"]);
    let (index, passphrase) = connection_plan(&results, b"office", b"correct horse").unwrap();
    assert_eq!(index, 1);
    assert_eq!(passphrase.expose_secret(), b"correct horse");
    let (_, longest) = connection_plan(&results, b"guest", &[b'~'; 63]).unwrap();
    assert_eq!(longest.expose_secret().len(), 63);
}

#[test]
fn bring_up_reports_markers_in_order() {
    let mut bring_up = WifiBringUp::new();
    assert_eq!(bring_up.phase(), WifiPhase::Waiting(WifiStage::Initialize));
    assert_eq!(
        bring_up.finish_stage(StageOutcome::Completed),
        Some(BringUpAction::Report(WifiMarker::InitOk))
    );
    assert_eq!(
        bring_up.finish_stage(StageOutcome::Completed),
        Some(BringUpAction::Report(WifiMarker::ScanOk))
    );
    assert_eq!(
        bring_up.finish_stage(StageOutcome::Completed),
        Some(BringUpAction::Report(WifiMarker::ConnectOk))
    );
    assert_eq!(bring_up.phase(), WifiPhase::Online);
    assert_eq!(bring_up.finish_stage(StageOutcome::Completed), None);
}

#[test]
fn bring_up_stops_at_scan_deadline() {
    let mut bring_up = WifiBringUp::new();
    bring_up.finish_stage(StageOutcome::Completed);
    assert_eq!(
        bring_up.finish_stage(StageOutcome::DeadlineElapsed),
        Some(BringUpAction::ReportDeadline(WifiStage::Scan))
    );
    assert_eq!(bring_up.phase(), WifiPhase::Halted);
    assert_eq!(bring_up.finish_stage(StageOutcome::Completed), None);
}

#[test]
fn bring_up_stops_at_radio_error() {
    let mut bring_up = WifiBringUp::new();
    assert_eq!(
        bring_up.finish_stage(StageOutcome::Failed),
        Some(BringUpAction::ReportRadioError)
    );
    assert_eq!(bring_up.phase(), WifiPhase::Halted);
}

#[test]
fn stage_names_deadlines_and_markers() {
    assert_eq!(WifiStage::Initialize.name(), "initialize");
    assert_eq!(WifiStage::Scan.name(), "scan");
    assert_eq!(WifiStage::Connect.name(), "connect");
    assert_eq!(WifiStage::Initialize.wait_deadline().as_millis(), 35_000);
    assert_eq!(WifiStage::Scan.wait_deadline().as_millis(), 30_000);
    assert_eq!(WifiStage::Connect.wait_deadline().as_millis(), 90_000);
    assert_eq!(WifiMarker::InitOk.text(), "WIFI_INIT_OK\r\n");
    assert_eq!(WifiMarker::ScanOk.text(), "WIFI_SCAN_OK\r\n");
    assert_eq!(WifiMarker::ConnectOk.text(), "WIFI_CONNECT_OK\r\n");
}

fn lease(address: [u8; 4], router: Option<[u8; 4]>) -> DhcpEvent {
    DhcpEvent::Configured(DhcpLease {
        address: Ipv4Cidr { address, prefix_len: 24 },
        router,
    })
}

#[test]
fn dhcp_lease_sets_address_route_and_report() {
    let mut state = NetworkState::new();
    let reaction = state.on_dhcp_event(lease([192, 168, 1, 42], Some([192, 168, 1, 1])));
    assert_eq!(reaction.address, Some(Ipv4Cidr { address: [192, 168, 1, 42], prefix_len: 24 }));
    assert_eq!(reaction.route, RouteChange::Replace([192, 168, 1, 1]));
    assert_eq!(reaction.report, b"WIFI_DHCP_OK addr=192.168.1.42\r\n".to_vec());
    assert_eq!(state.default_router, Some([192, 168, 1, 1]));
}

#[test]
fn dhcp_lease_without_router_keeps_route() {
    let mut state = NetworkState::new();
    state.on_dhcp_event(lease([10, 0, 0, 5], Some([10, 0, 0, 1])));
    let reaction = state.on_dhcp_event(lease([10, 0, 0, 6], None));
    assert_eq!(reaction.route, RouteChange::Keep);
    assert_eq!(state.default_router, Some([10, 0, 0, 1]));
    assert_eq!(state.address, Some(Ipv4Cidr { address: [10, 0, 0, 6], prefix_len: 24 }));
}

#[test]
fn dhcp_loss_clears_everything() {
    let mut state = NetworkState::new();
    state.on_dhcp_event(lease([10, 0, 0, 5], Some([10, 0, 0, 1])));
    let reaction = state.on_dhcp_event(DhcpEvent::Deconfigured);
    assert_eq!(reaction.address, None);
    assert_eq!(reaction.route, RouteChange::Remove);
    assert_eq!(reaction.report, b"WIFI_DHCP_DOWN\r\n".to_vec());
    assert_eq!(state, NetworkState::new());
}

#[test]
fn runner_budget_bounds_one_poll() {
    let budget = ws63_starter::wifi_config::runner_budget();
    assert_eq!(budget.max_events().get(), 8);
    assert_eq!(budget.max_time_us().get(), 100_000);
}

fn scanned(ssid: &[u8], security: Security) -> hisi_rf_core::ScanResult {
    hisi_rf_core::ScanResult {
        ssid: hisi_rf_core::Ssid::try_from_bytes(ssid).unwrap(),
        bssid: [2, 0, 0, 0, 0, 1],
        frequency_mhz: 2_437,
        rssi_dbm: -40,
        security,
        channel: 6,
    }
}

#[test]
fn station_request_uses_wpa2_and_connect_timeout() {
    let results = [
        scanned(b"guest", Security::Open),
        scanned(b"office", Security::Wpa2Personal),
    ];
    let (index, passphrase) =
        connection_plan(&entries(&[b"guest", b"office"]), b"office", b"correct horse").unwrap();
    let station = station_request(&results, index, passphrase).unwrap();
    assert_eq!(station.ssid.as_bytes(), b"office");
    assert_eq!(station.channel, 6);
    assert_eq!(station.passphrase.expose_secret(), b"correct horse");
    assert_eq!(station.operation_timeout().as_millis(), 60_000);
}

#[test]
fn station_request_refuses_open_network() {
    let results = [scanned(b"guest", Security::Open)];
    let (_, passphrase) =
        connection_plan(&entries(&[b"guest"]), b"guest", b"correct horse").unwrap();
    assert!(station_request(&results, 0, passphrase).is_none());
}
