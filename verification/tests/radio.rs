use hisi_rf_core::ble::ScanMode;
use ws63_starter::radio_profile::{
    starter_request, RadioFamily, RadioProfile, StarterOperation, StarterRequest,
};
use ws63_starter::radio_starter::{
    CompletionPoll, RadioFailure, RadioMarker, RadioStarter, SetupStep, StarterAction,
    StarterEvent, StarterPhase,
};

const ALL_PROFILES: [RadioProfile; 6] = [
    RadioProfile::BlePeripheral,
    RadioProfile::BleCentral,
    RadioProfile::BleDualRole,
    RadioProfile::SleAnnounce,
    RadioProfile::SleSeek,
    RadioProfile::SleSsap,
];

#[test]
fn profile_names_and_families() {
    let names: Vec<&str> = ALL_PROFILES.iter().map(|p| p.name()).collect();
    assert_eq!(
        names,
        ["ble-peripheral", "ble-central", "ble-dual-role", "sle-announce", "sle-seek", "sle-ssap"]
    );
    assert_eq!(RadioProfile::BleCentral.family(), RadioFamily::Ble);
    assert_eq!(RadioProfile::SleSsap.family(), RadioFamily::Sle);
    assert_eq!(RadioProfile::BleDualRole.operation(), StarterOperation::BleAdvertising);
    assert_eq!(RadioProfile::SleSsap.operation(), StarterOperation::SleAnnounce);
}

#[test]
fn advertising_request_for_peripheral() {
    match starter_request(RadioProfile::BlePeripheral) {
        StarterRequest::Advertise(config) => {
            assert_eq!(config.timing().minimum().as_units(), 160);
            assert_eq!(config.timing().maximum().as_units(), 160);
            assert_eq!(config.channels().bits(), 0x07);
            assert_eq!(config.payload().as_bytes(), b"\x02\x01\x06\x08\x09HISI-RS");
        }
        _ => panic!("peripheral advertises"),
    }
}

#[test]
fn passive_scan_request_for_central() {
    match starter_request(RadioProfile::BleCentral) {
        StarterRequest::Scan(config) => {
            assert_eq!(config.timing().interval().as_units(), 160);
            assert_eq!(config.timing().window().as_units(), 160);
            assert_eq!(config.mode(), ScanMode::Passive);
            assert!(!config.filter_duplicates());
        }
        _ => panic!("central scans"),
    }
}

#[test]
fn announce_request_for_sle_ssap() {
    match starter_request(RadioProfile::SleSsap) {
        StarterRequest::Announce(config) => {
            assert_eq!(config.timing().minimum().as_units(), 800);
            assert_eq!(config.channels().bits(), 0x07);
            assert_eq!(config.data().as_bytes(), b"HISI-RS");
            assert_eq!(config.seek_response().as_bytes(), b"hisi-rf");
        }
        _ => panic!("ssap announces"),
    }
}

#[test]
fn seek_request_for_sle_seek() {
    match starter_request(RadioProfile::SleSeek) {
        StarterRequest::Seek(config) => {
            assert_eq!(config.timing().interval().as_units(), 800);
            assert_eq!(config.timing().window().as_units(), 800);
        }
        _ => panic!("seek profile seeks"),
    }
}

#[test]
fn starter_intervals_are_100_ms() {
    // 160 units of 625 us, or 800 units of 125 us.
    match starter_request(RadioProfile::BleDualRole) {
        StarterRequest::Advertise(config) => {
            assert_eq!(u32::from(config.timing().minimum().as_units()) * 625, 100_000)
        }
        _ => panic!(),
    }
    match starter_request(RadioProfile::SleAnnounce) {
        StarterRequest::Announce(config) => {
            assert_eq!(config.timing().minimum().as_units() * 125, 100_000)
        }
        _ => panic!(),
    }
}

fn setup_until_running(starter: &mut RadioStarter) -> Vec<StarterAction> {
    (0..6).map(|_| starter.on_event(StarterEvent::SetupDone(true))).collect()
}

#[test]
fn starter_reports_init_then_command() {
    let mut starter = RadioStarter::new(RadioProfile::BlePeripheral);
    let actions = setup_until_running(&mut starter);
    assert_eq!(
        actions,
        vec![
            StarterAction::Continue,
            StarterAction::Continue,
            StarterAction::Continue,
            StarterAction::Continue,
            StarterAction::Report(RadioMarker::InitOk),
            StarterAction::Continue,
        ]
    );
    assert_eq!(starter.phase(), StarterPhase::Running);
    assert_eq!(starter.on_event(StarterEvent::RunnerPassed(true)), StarterAction::Continue);
    assert_eq!(
        starter.on_event(StarterEvent::CompletionPolled(CompletionPoll::Pending)),
        StarterAction::Continue
    );
    let done = starter.on_event(StarterEvent::CompletionPolled(CompletionPoll::Finished {
        matches_command: true,
        succeeded: true,
    }));
    assert_eq!(done, StarterAction::Report(RadioMarker::CommandOk));
    assert_eq!(starter.on_event(StarterEvent::DroppedEvents(0)), StarterAction::Continue);
    assert_eq!(starter.phase(), StarterPhase::Running);
}

#[test]
fn starter_setup_failures_have_their_markers() {
    let expected = [
        RadioFailure::Storage,
        RadioFailure::Rtos,
        RadioFailure::MainTask,
        RadioFailure::Policy,
        RadioFailure::Init,
        RadioFailure::CommandBusy,
    ];
    for (succeeded_steps, failure) in expected.iter().enumerate() {
        let mut starter = RadioStarter::new(RadioProfile::SleSeek);
        for _ in 0..succeeded_steps {
            starter.on_event(StarterEvent::SetupDone(true));
        }
        assert_eq!(starter.on_event(StarterEvent::SetupDone(false)), StarterAction::Fail(*failure));
        assert_eq!(starter.phase(), StarterPhase::Halted);
        assert_eq!(starter.on_event(StarterEvent::SetupDone(true)), StarterAction::Continue);
    }
}

#[test]
fn starter_runtime_failures() {
    let cases = [
        (StarterEvent::RunnerPassed(false), RadioFailure::Runner),
        (StarterEvent::CompletionPolled(CompletionPoll::TakeFailed), RadioFailure::Completion),
        (
            StarterEvent::CompletionPolled(CompletionPoll::Finished {
                matches_command: false,
                succeeded: true,
            }),
            RadioFailure::Command,
        ),
        (
            StarterEvent::CompletionPolled(CompletionPoll::Finished {
                matches_command: true,
                succeeded: false,
            }),
            RadioFailure::Command,
        ),
        (StarterEvent::DroppedEvents(3), RadioFailure::EventDrop),
    ];
    for (event, failure) in cases {
        let mut starter = RadioStarter::new(RadioProfile::BleCentral);
        setup_until_running(&mut starter);
        assert_eq!(starter.on_event(event), StarterAction::Fail(failure));
        assert_eq!(starter.phase(), StarterPhase::Halted);
    }
}

#[test]
fn runtime_events_during_setup_are_ignored() {
    let mut starter = RadioStarter::new(RadioProfile::SleAnnounce);
    assert_eq!(starter.on_event(StarterEvent::RunnerPassed(false)), StarterAction::Continue);
    assert_eq!(starter.phase(), StarterPhase::Setup(SetupStep::InstallStorage));
}

#[test]
fn starter_marker_lines() {
    let starter = RadioStarter::new(RadioProfile::SleSsap);
    assert_eq!(
        starter.action_line(StarterAction::Report(RadioMarker::InitOk)),
        b"RADIO_INIT_OK profile=sle-ssap\r\n".to_vec()
    );
    assert_eq!(
        starter.action_line(StarterAction::Report(RadioMarker::CommandOk)),
        b"RADIO_COMMAND_OK profile=sle-ssap\r\n".to_vec()
    );
    assert_eq!(
        starter.action_line(StarterAction::Fail(RadioFailure::EventDrop)),
        b"RADIO_EVENT_DROP\r\n".to_vec()
    );
    assert_eq!(starter.action_line(StarterAction::Continue), Vec::<u8>::new());
    assert_eq!(RadioFailure::CommandBusy.text(), "RADIO_COMMAND_BUSY\r\n");
    assert_eq!(RadioFailure::Storage.text(), "RADIO_STORAGE_ERR\r\n");
}
