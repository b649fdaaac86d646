use horn_service::horn_service::HornService;
use horn_service::kuksa_relay::HornRequestKuksaRelay;
use horn_service::plan::{mode_report_text, sequenced_actions};
use horn_service::plan::HornAction::{ReportMode, SetHornActive, Sleep};
use horn_service::request::{
    is_processable, ActivateHornRequest, HornCycle, HornMode, HornModeValue, HornSequence,
};

fn cycle(on_time: u32, off_time: u32) -> HornCycle {
    HornCycle { on_time, off_time }
}

fn request(mode: HornMode, command: Vec<Vec<HornCycle>>) -> ActivateHornRequest {
    ActivateHornRequest {
        mode: HornModeValue::Known(mode),
        command: command
            .into_iter()
            .map(|horn_cycles| HornSequence { horn_cycles })
            .collect(),
    }
}

#[test]
fn no_request_switches_the_horn_off() {
    let service = HornService::new();
    assert_eq!(service.process_horn_activation_request(None), vec![SetHornActive(false)]);
}

#[test]
fn continuous_request_switches_the_horn_on() {
    let service = HornService::new();
    let r = request(HornMode::Continuous, vec![vec![cycle(100, 200)]]);
    assert_eq!(service.process_horn_activation_request(Some(r)), vec![SetHornActive(true)]);
}

#[test]
fn unknown_and_unspecified_modes_are_reported() {
    let service = HornService::new();
    let r = request(HornMode::Unknown, vec![]);
    assert_eq!(service.process_horn_activation_request(Some(r)), vec![ReportMode(HornMode::Unknown)]);
    let r = request(HornMode::Unspecified, vec![vec![cycle(1, 2)]]);
    assert_eq!(
        service.process_horn_activation_request(Some(r)),
        vec![ReportMode(HornMode::Unspecified)]
    );
}

#[test]
fn sequenced_request_runs_every_cycle_in_order() {
    let service = HornService::new();
    let r = request(
        HornMode::Sequenced,
        vec![vec![cycle(500, 250), cycle(100, 50)], vec![], vec![cycle(1000, 0)]],
    );
    assert_eq!(
        service.process_horn_activation_request(Some(r)),
        vec![
            SetHornActive(true),
            Sleep(500),
            SetHornActive(false),
            Sleep(250),
            SetHornActive(true),
            Sleep(100),
            SetHornActive(false),
            Sleep(50),
            SetHornActive(true),
            Sleep(1000),
            SetHornActive(false),
            Sleep(0),
        ]
    );
}

#[test]
fn sequenced_request_without_cycles_does_nothing() {
    let service = HornService::new();
    let r = request(HornMode::Sequenced, vec![vec![], vec![]]);
    assert_eq!(service.process_horn_activation_request(Some(r)), vec![]);
}

#[test]
fn sequenced_times_keep_their_full_range() {
    let r = request(HornMode::Sequenced, vec![vec![cycle(u32::MAX, u32::MAX)]]);
    assert_eq!(
        sequenced_actions(&r),
        vec![
            SetHornActive(true),
            Sleep(u32::MAX as u64),
            SetHornActive(false),
            Sleep(u32::MAX as u64)
        ]
    );
}

#[test]
fn every_activation_is_followed_by_a_deactivation() {
    let r = request(
        HornMode::Sequenced,
        vec![vec![cycle(3, 4), cycle(5, 6)], vec![cycle(7, 8)]],
    );
    let actions = sequenced_actions(&r);
    assert_eq!(actions.len(), 12);
    for (i, a) in actions.iter().enumerate() {
        if *a == SetHornActive(true) {
            assert!(matches!(actions[i + 1], Sleep(_)));
            assert_eq!(actions[i + 2], SetHornActive(false));
        }
    }
}

#[test]
fn kuksa_relay_sends_the_same_signals() {
    let relay = HornRequestKuksaRelay::new();
    assert_eq!(relay.send_request(None), vec![SetHornActive(false)]);
    assert_eq!(relay.send_deactivate_horn_request(), vec![SetHornActive(false)]);
    assert_eq!(relay.send_continuous_horn_request_to_kuksa(), vec![SetHornActive(true)]);
    let r = request(HornMode::Sequenced, vec![vec![cycle(10, 20)]]);
    assert_eq!(
        relay.send_sequential_horn_request_to_kuksa(r.clone()),
        vec![SetHornActive(true), Sleep(10), SetHornActive(false), Sleep(20)]
    );
    assert_eq!(
        relay.send_request(Some(r)),
        vec![SetHornActive(true), Sleep(10), SetHornActive(false), Sleep(20)]
    );
    let r = request(HornMode::Continuous, vec![]);
    assert_eq!(relay.send_request(Some(r)), vec![SetHornActive(true)]);
}

#[test]
fn unrecognized_modes_cannot_be_processed() {
    let r = ActivateHornRequest { mode: HornModeValue::Unrecognized(17), command: vec![] };
    assert!(!is_processable(&Some(r)));
    assert!(is_processable(&None));
    assert!(is_processable(&Some(request(HornMode::Unknown, vec![]))));
}

#[test]
fn reported_modes_have_their_lines() {
    assert_eq!(mode_report_text(HornMode::Unknown), "Horn Mode: Unknown");
    assert_eq!(mode_report_text(HornMode::Unspecified), "Horn Mode: Unspecified");
}
