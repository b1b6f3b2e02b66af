use device_twin::adu::{Adu, AduError, ReportedPatch};
use device_twin::twin::{
    client_source, exit_code, Action, AuthenticationStatus, ClientSource, DesiredError, Event,
    Failure, MethodResponse, Phase, Twin, TwinError, TwinUpdateState, UnauthenticatedReason,
    INITIAL_REPORT_LEN, QUEUE_CAPACITY,
};

const CONFIG: &str = r#"{"manufacturer":"conplement-AG","model":"OMNECT-raspberrypi4-64",
  "agents":{"manufacturer":"conplement-ag","model":"omnect-raspberrypi4-64-gateway-devel",
  "additionalDeviceProperties":{"compatibilityid":"2"}},
  "compatPropertyNames":"manufacturer,model,compatibilityid"}"#;

const VERSIONS: &str = "OMNECT-gateway-devel 4.0.17.356884934";

fn fresh() -> Twin {
    Twin::new("0.1.0".to_string(), "1.11.0".to_string(), CONFIG, VERSIONS).unwrap()
}

fn running() -> Twin {
    let mut twin = fresh();
    assert_eq!(twin.step(&Event::Start), Action::Connect);
    assert_eq!(twin.step(&Event::Connected), Action::Wait);
    assert_eq!(twin.phase, Phase::Running);
    twin
}

fn versions_patch() -> ReportedPatch {
    ReportedPatch::AgentVersion {
        module_version: "0.1.0".to_string(),
        sdk_version: "1.11.0".to_string(),
    }
}

fn other_patch(n: usize) -> ReportedPatch {
    ReportedPatch::AgentVersion { module_version: format!("m{n}"), sdk_version: format!("s{n}") }
}

fn document(text: &str) -> serde_json::Value {
    serde_json::from_str(text).unwrap()
}

#[test]
fn new_twin_is_starting_with_an_empty_queue() {
    let twin = fresh();
    assert_eq!(twin.phase, Phase::Starting);
    assert!(!twin.authenticated_once);
    assert!(twin.queue.is_empty());
    assert!(!twin.has_pending());
    assert_eq!(twin.adu, Adu::new(CONFIG, VERSIONS).unwrap());
}

#[test]
fn new_twin_fails_as_its_documents_do() {
    assert_eq!(
        Twin::new("0.1.0".to_string(), "1.11.0".to_string(), CONFIG, "a b c"),
        Err(AduError::VersionFieldCount)
    );
    assert_eq!(
        Twin::new("0.1.0".to_string(), "1.11.0".to_string(), "[", VERSIONS),
        Err(AduError::ConfigUnparseable)
    );
}

#[test]
fn phases_follow_each_other() {
    let mut twin = fresh();
    assert_eq!(twin.step(&Event::Start), Action::Connect);
    assert_eq!(twin.phase, Phase::Connecting);
    assert_eq!(twin.step(&Event::Connected), Action::Wait);
    assert_eq!(twin.phase, Phase::Running);
    assert_eq!(twin.step(&Event::TerminationSignal), Action::Shutdown);
    assert_eq!(twin.phase, Phase::ShuttingDown);
    assert_eq!(twin.step(&Event::ShutdownComplete), Action::Exit);
    assert_eq!(twin.phase, Phase::Stopped);
}

#[test]
fn startup_failure_is_fatal() {
    let mut twin = fresh();
    assert_eq!(
        twin.step(&Event::Failed(Failure::SignalRegistration)),
        Action::Fail(TwinError::Outside(Failure::SignalRegistration))
    );
    assert_eq!(twin.phase, Phase::Failed);
    let mut twin = fresh();
    twin.step(&Event::Start);
    assert_eq!(
        twin.step(&Event::Failed(Failure::ClientConstruction)),
        Action::Fail(TwinError::Outside(Failure::ClientConstruction))
    );
    assert_eq!(twin.phase, Phase::Failed);
}

#[test]
fn first_authentication_enqueues_the_initial_report() {
    let mut twin = running();
    let authenticated = Event::ConnectionStatus(AuthenticationStatus::Authenticated);
    assert_eq!(twin.step(&authenticated), Action::Wait);
    assert!(twin.authenticated_once);
    let (inventory, identity) = twin.adu.report_initial_state();
    assert_eq!(twin.queue, vec![versions_patch(), inventory, identity]);
    assert_eq!(twin.queue.len(), INITIAL_REPORT_LEN);
}

#[test]
fn later_authentication_enqueues_nothing() {
    let mut twin = running();
    let authenticated = Event::ConnectionStatus(AuthenticationStatus::Authenticated);
    twin.step(&authenticated);
    let queued = twin.queue.clone();
    assert_eq!(twin.step(&authenticated), Action::Wait);
    assert_eq!(twin.queue, queued);
    while twin.has_pending() {
        twin.step(&Event::ReportedReady);
    }
    assert_eq!(twin.step(&authenticated), Action::Wait);
    assert!(twin.queue.is_empty());
    assert!(twin.authenticated_once);
}

#[test]
fn expired_token_does_not_end_the_loop() {
    let mut twin = running();
    let before = twin.clone();
    let lost = Event::ConnectionStatus(AuthenticationStatus::Unauthenticated(
        UnauthenticatedReason::ExpiredSasToken,
    ));
    assert_eq!(twin.step(&lost), Action::Wait);
    assert_eq!(twin, before);
}

#[test]
fn every_other_reason_ends_the_loop() {
    for reason in [
        UnauthenticatedReason::DeviceDisabled,
        UnauthenticatedReason::BadCredential,
        UnauthenticatedReason::RetryExpired,
        UnauthenticatedReason::NoNetwork,
        UnauthenticatedReason::CommunicationError,
    ] {
        let mut twin = running();
        let lost = Event::ConnectionStatus(AuthenticationStatus::Unauthenticated(reason));
        assert_eq!(twin.step(&lost), Action::Fail(TwinError::NoConnection(reason)));
        assert_eq!(twin.phase, Phase::Failed);
        assert!(twin.queue.is_empty());
    }
}

#[test]
fn connection_handler_reports_the_reason() {
    let mut twin = running();
    assert_eq!(twin.handle_connection_status(AuthenticationStatus::Authenticated), Ok(()));
    assert_eq!(
        twin.handle_connection_status(AuthenticationStatus::Unauthenticated(
            UnauthenticatedReason::ExpiredSasToken
        )),
        Ok(())
    );
    assert_eq!(
        twin.handle_connection_status(AuthenticationStatus::Unauthenticated(
            UnauthenticatedReason::NoNetwork
        )),
        Err(TwinError::NoConnection(UnauthenticatedReason::NoNetwork))
    );
    assert_eq!(twin.phase, Phase::Running);
}

#[test]
fn complete_update_without_root_is_logged_and_the_loop_goes_on() {
    let mut twin = running();
    let before = twin.clone();
    let update =
        Event::DesiredProperties(TwinUpdateState::Complete, document(r#"{"general_consent":[]}"#));
    assert_eq!(twin.step(&update), Action::LogDesiredError(DesiredError::RootMissing));
    assert_eq!(twin, before);
    assert_eq!(twin.step(&Event::WatchdogTick), Action::NotifyWatchdog);
}

#[test]
fn complete_update_with_root_is_taken() {
    let mut twin = running();
    let before = twin.clone();
    let update = Event::DesiredProperties(
        TwinUpdateState::Complete,
        document(r#"{"desired":{"general_consent":[]}}"#),
    );
    assert_eq!(twin.step(&update), Action::Wait);
    assert_eq!(twin, before);
}

#[test]
fn complete_update_that_is_no_object_is_turned_down() {
    let twin = running();
    assert_eq!(
        twin.handle_desired(TwinUpdateState::Complete, &document(r#""desired""#)),
        Err(DesiredError::RootMissing)
    );
    assert_eq!(
        twin.handle_desired(TwinUpdateState::Complete, &document(r#"["desired"]"#)),
        Err(DesiredError::RootMissing)
    );
}

#[test]
fn partial_update_without_known_keys_is_a_no_op() {
    let mut twin = running();
    let before = twin.clone();
    let update = Event::DesiredProperties(TwinUpdateState::Partial, document(r#"{"unknown":1}"#));
    assert_eq!(twin.step(&update), Action::Wait);
    assert_eq!(twin, before);
    assert_eq!(twin.handle_desired(TwinUpdateState::Partial, &document("{}")), Ok(()));
}

#[test]
fn factory_reset_succeeds() {
    let mut twin = running();
    let invocation =
        Event::DirectMethod { name: "factory_reset".to_string(), payload: document("null") };
    assert_eq!(twin.step(&invocation), Action::Respond(MethodResponse::Success));
    assert_eq!(twin.phase, Phase::Running);
}

#[test]
fn unknown_method_is_answered_with_a_failure() {
    let mut twin = running();
    for name in ["reboot", "", "factory_reset ", "Factory_Reset"] {
        let invocation = Event::DirectMethod { name: name.to_string(), payload: document("{}") };
        assert_eq!(twin.step(&invocation), Action::Respond(MethodResponse::UnknownMethod));
        assert_eq!(twin.phase, Phase::Running);
    }
}

#[test]
fn invocation_is_answered_in_every_phase() {
    let invocation =
        Event::DirectMethod { name: "factory_reset".to_string(), payload: document("{}") };
    let mut twin = fresh();
    assert_eq!(twin.step(&invocation), Action::Respond(MethodResponse::Success));
    twin.step(&Event::Start);
    assert_eq!(twin.step(&invocation), Action::Respond(MethodResponse::Success));
    twin.step(&Event::Connected);
    twin.step(&Event::TerminationSignal);
    assert_eq!(twin.step(&invocation), Action::Respond(MethodResponse::Success));
    twin.step(&Event::ShutdownComplete);
    assert_eq!(twin.step(&invocation), Action::Respond(MethodResponse::Success));
    assert_eq!(twin.phase, Phase::Stopped);
}

#[test]
fn patches_are_reported_in_the_order_of_their_enqueueing() {
    let mut twin = running();
    twin.step(&Event::ConnectionStatus(AuthenticationStatus::Authenticated));
    for n in 0..5 {
        assert_eq!(twin.enqueue(other_patch(n)), Ok(()));
    }
    let (inventory, identity) = twin.adu.report_initial_state();
    let mut expected = vec![versions_patch(), inventory, identity];
    for n in 0..5 {
        expected.push(other_patch(n));
    }
    for patch in expected {
        assert!(twin.has_pending());
        assert_eq!(twin.step(&Event::ReportedReady), Action::Report(patch));
    }
    assert!(!twin.has_pending());
    assert_eq!(twin.step(&Event::ReportedReady), Action::Wait);
}

#[test]
fn queue_keeps_room_for_the_initial_report() {
    let mut twin = running();
    for n in 0..QUEUE_CAPACITY - INITIAL_REPORT_LEN {
        assert_eq!(twin.enqueue(other_patch(n)), Ok(()));
    }
    assert_eq!(twin.enqueue(other_patch(1000)), Err(other_patch(1000)));
    assert_eq!(twin.queue.len(), 97);
    twin.step(&Event::ConnectionStatus(AuthenticationStatus::Authenticated));
    assert_eq!(twin.queue.len(), 100);
    assert_eq!(twin.queue[97], versions_patch());
    assert_eq!(twin.enqueue(other_patch(1001)), Err(other_patch(1001)));
    assert_eq!(twin.queue.len(), 100);
    assert_eq!(twin.step(&Event::ReportedReady), Action::Report(other_patch(0)));
    assert_eq!(twin.enqueue(other_patch(1002)), Ok(()));
    assert_eq!(twin.queue[99], other_patch(1002));
}

#[test]
fn termination_signal_shuts_down_exactly_once() {
    let mut twin = running();
    let events = vec![
        Event::ConnectionStatus(AuthenticationStatus::Authenticated),
        Event::WatchdogTick,
        Event::TerminationSignal,
        Event::TerminationSignal,
        Event::ReportedReady,
        Event::WatchdogTick,
        Event::ConnectionStatus(AuthenticationStatus::Unauthenticated(
            UnauthenticatedReason::NoNetwork,
        )),
        Event::ShutdownComplete,
        Event::TerminationSignal,
    ];
    let actions = twin.run(&events);
    assert_eq!(
        actions,
        vec![
            Action::Wait,
            Action::NotifyWatchdog,
            Action::Shutdown,
            Action::Wait,
            Action::Wait,
            Action::Wait,
            Action::Wait,
            Action::Exit,
            Action::Wait,
        ]
    );
    assert_eq!(actions.iter().filter(|a| **a == Action::Shutdown).count(), 1);
    assert_eq!(twin.phase, Phase::Stopped);
}

#[test]
fn run_answers_each_event_as_step_does() {
    let events = vec![
        Event::Start,
        Event::Connected,
        Event::ConnectionStatus(AuthenticationStatus::Authenticated),
        Event::ReportedReady,
        Event::DirectMethod { name: "reboot".to_string(), payload: document("{}") },
        Event::Failed(Failure::ReportForward),
        Event::ReportedReady,
    ];
    let mut stepped = fresh();
    let mut expected = Vec::new();
    for event in &events {
        expected.push(stepped.step(event));
    }
    let mut twin = fresh();
    assert_eq!(twin.run(&events), expected);
    assert_eq!(twin, stepped);
    assert_eq!(expected[3], Action::Report(versions_patch()));
    assert_eq!(expected[5], Action::Fail(TwinError::Outside(Failure::ReportForward)));
    assert_eq!(expected[6], Action::Wait);
    assert_eq!(twin.phase, Phase::Failed);
    assert_eq!(twin.queue.len(), 2);
}

#[test]
fn watchdog_failure_is_fatal() {
    let mut twin = running();
    assert_eq!(twin.step(&Event::WatchdogTick), Action::NotifyWatchdog);
    assert_eq!(
        twin.step(&Event::Failed(Failure::WatchdogNotify)),
        Action::Fail(TwinError::Outside(Failure::WatchdogNotify))
    );
    assert_eq!(twin.phase, Phase::Failed);
    assert_eq!(twin.step(&Event::WatchdogTick), Action::Wait);
}

#[test]
fn events_out_of_their_phase_change_nothing() {
    let mut twin = fresh();
    let before = twin.clone();
    for event in [
        Event::Connected,
        Event::WatchdogTick,
        Event::TerminationSignal,
        Event::ShutdownComplete,
        Event::ReportedReady,
        Event::ConnectionStatus(AuthenticationStatus::Authenticated),
    ] {
        assert_eq!(twin.step(&event), Action::Wait);
        assert_eq!(twin, before);
    }
}

#[test]
fn watchdog_is_notified_at_half_the_deadline() {
    assert_eq!(twin_interval(Some(30_000_000)), Some(15_000_000));
    assert_eq!(twin_interval(Some(7)), Some(3));
    assert_eq!(twin_interval(Some(1)), Some(0));
    assert_eq!(twin_interval(Some(u64::MAX)), Some(u64::MAX / 2));
    assert_eq!(twin_interval(None), None);
}

fn twin_interval(deadline: Option<u64>) -> Option<u64> {
    device_twin::twin::watchdog_interval(deadline)
}

#[test]
fn connection_string_takes_precedence_over_the_platform_identity() {
    assert_eq!(
        client_source(Some("HostName=hub;DeviceId=d".to_string())),
        ClientSource::ConnectionString("HostName=hub;DeviceId=d".to_string())
    );
    assert_eq!(client_source(None), ClientSource::Identity);
}

#[test]
fn exit_code_is_zero_only_after_a_clean_shutdown() {
    assert_eq!(exit_code(&Ok(())), 0);
    assert_eq!(exit_code(&Err(TwinError::Outside(Failure::ChannelClosed))), 1);
    assert_eq!(
        exit_code(&Err(TwinError::NoConnection(UnauthenticatedReason::BadCredential))),
        1
    );
}

#[test]
fn errors_say_what_failed() {
    assert_eq!(
        TwinError::NoConnection(UnauthenticatedReason::DeviceDisabled).message(),
        "No connection. Reason: DeviceDisabled"
    );
    assert_eq!(
        TwinError::Outside(Failure::WatchdogNotify).message(),
        "cannot notify the watchdog"
    );
    assert_eq!(Failure::ReportForward.message(), "cannot report properties to the hub");
    assert_eq!(Failure::ChannelClosed.message(), "a notification channel was closed");
    assert_eq!(Failure::SignalRegistration.message(), "cannot register the termination signals");
    assert_eq!(Failure::ClientConstruction.message(), "cannot build the hub client");
    assert_eq!(Failure::MethodDispatch.message(), "cannot dispatch a direct method");
    assert_eq!(UnauthenticatedReason::ExpiredSasToken.name(), "ExpiredSasToken");
    assert_eq!(
        DesiredError::RootMissing.message(),
        "handle_desired: 'desired' missing while TwinUpdateState::Complete"
    );
}

#[test]
fn well_formed_while_the_queue_is_within_its_limit() {
    let mut twin = running();
    assert!(twin.is_well_formed());
    for n in 0..98 {
        twin.queue.push(other_patch(n));
    }
    assert!(!twin.is_well_formed());
    twin.authenticated_once = true;
    assert!(twin.is_well_formed());
    for n in 0..3 {
        twin.queue.push(other_patch(n));
    }
    assert!(!twin.is_well_formed());
}

#[test]
fn twin_with_documents_starts_as_a_new_twin_does() {
    let adu = Adu::new(CONFIG, VERSIONS).unwrap();
    let twin = Twin::with_documents("0.1.0".to_string(), "1.11.0".to_string(), adu);
    assert_eq!(twin, fresh());
}
