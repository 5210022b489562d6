use xvpn::config::{uses_saved_server, DEFAULT_SERVER};
use xvpn::connect::{after_step, ConnectStep, StepDecision, StepReport};
use xvpn::netcfg::elevation_refused;

fn d(report: StepReport, next: Option<ConnectStep>) -> StepDecision {
    StepDecision { report, next }
}

#[test]
fn required_steps_stop_on_failure() {
    for step in [
        ConnectStep::LoadDriver,
        ConnectStep::OpenAdapter,
        ConnectStep::Resolve,
        ConnectStep::SendHandshake,
        ConnectStep::AwaitHandshake,
    ] {
        assert_eq!(after_step(step, false), d(StepReport::Failed, None), "{:?}", step);
    }
}

#[test]
fn adapter_creation_falls_back_to_opening() {
    assert_eq!(
        after_step(ConnectStep::CreateAdapter, false),
        d(StepReport::Silent, Some(ConnectStep::OpenAdapter))
    );
    assert_eq!(
        after_step(ConnectStep::OpenAdapter, true),
        d(StepReport::Succeeded, Some(ConnectStep::ConfigureAddress))
    );
}

#[test]
fn failed_address_setting_is_reported_and_survived() {
    assert_eq!(
        after_step(ConnectStep::ConfigureAddress, false),
        d(StepReport::Failed, Some(ConnectStep::Resolve))
    );
}

#[test]
fn successful_run_reaches_connected() {
    let mut step = ConnectStep::LoadDriver;
    let mut trace = vec![];
    while step != ConnectStep::Connected {
        trace.push(step);
        step = after_step(step, true).next.unwrap();
    }
    assert_eq!(
        trace,
        vec![
            ConnectStep::LoadDriver,
            ConnectStep::CreateAdapter,
            ConnectStep::ConfigureAddress,
            ConnectStep::Resolve,
            ConnectStep::SendHandshake,
            ConnectStep::AwaitHandshake,
            ConnectStep::SetupRoutes,
        ]
    );
}

#[test]
fn routes_are_reached_only_through_accepted_handshake() {
    for step in [
        ConnectStep::LoadDriver,
        ConnectStep::CreateAdapter,
        ConnectStep::OpenAdapter,
        ConnectStep::ConfigureAddress,
        ConnectStep::Resolve,
        ConnectStep::SendHandshake,
        ConnectStep::AwaitHandshake,
        ConnectStep::SetupRoutes,
        ConnectStep::Connected,
    ] {
        for ok in [true, false] {
            if after_step(step, ok).next == Some(ConnectStep::SetupRoutes) {
                assert_eq!((step, ok), (ConnectStep::AwaitHandshake, true));
            }
        }
    }
}

#[test]
fn settings_file_read_only_for_placeholder() {
    assert!(uses_saved_server(DEFAULT_SERVER));
    assert!(!uses_saved_server("198.51.100.4"));
    assert!(!uses_saved_server(""));
}

#[test]
fn refused_elevation_is_a_nonzero_exit() {
    assert!(elevation_refused(Some(1)));
    assert!(!elevation_refused(Some(0)));
    assert!(!elevation_refused(None));
}
