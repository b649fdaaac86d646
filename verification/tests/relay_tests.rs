use horn_service::kuksa_relay::{HornRequestKuksaRelay, RelayEvent};
use horn_service::plan::HornAction::{SetHornActive, Sleep};
use horn_service::request::{ActivateHornRequest, HornCycle, HornMode, HornModeValue, HornSequence};

fn sequenced(cycles: Vec<(u32, u32)>) -> ActivateHornRequest {
    ActivateHornRequest {
        mode: HornModeValue::Known(HornMode::Sequenced),
        command: vec![HornSequence {
            horn_cycles: cycles
                .into_iter()
                .map(|(on_time, off_time)| HornCycle { on_time, off_time })
                .collect(),
        }],
    }
}

fn continuous() -> ActivateHornRequest {
    ActivateHornRequest { mode: HornModeValue::Known(HornMode::Continuous), command: vec![] }
}

#[test]
fn request_runs_to_completion() {
    let mut relay = HornRequestKuksaRelay::new();
    assert!(relay.is_idle());
    let mut handed_out = Vec::new();
    let mut next = relay.handle_event(RelayEvent::Message(Some(sequenced(vec![(100, 200), (300, 400)]))));
    while let Some(action) = next {
        assert_eq!(relay.current_action(), Some(action));
        handed_out.push(action);
        next = relay.handle_event(RelayEvent::ActionDone);
    }
    assert_eq!(
        handed_out,
        vec![
            SetHornActive(true),
            Sleep(100),
            SetHornActive(false),
            Sleep(200),
            SetHornActive(true),
            Sleep(300),
            SetHornActive(false),
            Sleep(400),
        ]
    );
    assert!(relay.is_idle());
    assert_eq!(relay.current_action(), None);
}

#[test]
fn deactivation_sends_one_signal() {
    let mut relay = HornRequestKuksaRelay::new();
    assert_eq!(relay.handle_event(RelayEvent::Message(None)), Some(SetHornActive(false)));
    assert!(!relay.is_idle());
    assert_eq!(relay.handle_event(RelayEvent::ActionDone), None);
    assert!(relay.is_idle());
}

#[test]
fn message_while_busy_replaces_the_running_request() {
    let mut relay = HornRequestKuksaRelay::new();
    assert_eq!(
        relay.handle_event(RelayEvent::Message(Some(sequenced(vec![(100, 200), (300, 400)])))),
        Some(SetHornActive(true))
    );
    assert_eq!(relay.handle_event(RelayEvent::ActionDone), Some(Sleep(100)));
    // a deactivation while the horn sounds is carried out at once
    assert_eq!(relay.handle_event(RelayEvent::Message(None)), Some(SetHornActive(false)));
    assert_eq!(relay.current_action(), Some(SetHornActive(false)));
    // nothing more of the interrupted sequence follows
    assert_eq!(relay.handle_event(RelayEvent::ActionDone), None);
    assert!(relay.is_idle());
}

#[test]
fn interrupting_request_is_carried_out_in_full() {
    let mut relay = HornRequestKuksaRelay::new();
    assert_eq!(relay.handle_event(RelayEvent::Message(Some(continuous()))), Some(SetHornActive(true)));
    let mut handed_out = Vec::new();
    let mut next = relay.handle_event(RelayEvent::Message(Some(sequenced(vec![(10, 20)]))));
    while let Some(action) = next {
        handed_out.push(action);
        next = relay.handle_event(RelayEvent::ActionDone);
    }
    assert_eq!(handed_out, vec![SetHornActive(true), Sleep(10), SetHornActive(false), Sleep(20)]);
    assert!(relay.is_idle());
}

#[test]
fn closed_channel_stops_the_relay_for_good() {
    let mut relay = HornRequestKuksaRelay::new();
    assert_eq!(relay.handle_event(RelayEvent::Message(Some(continuous()))), Some(SetHornActive(true)));
    assert_eq!(relay.handle_event(RelayEvent::ChannelClosed), None);
    assert!(relay.is_closed());
    assert_eq!(relay.handle_event(RelayEvent::Message(None)), None);
    assert_eq!(relay.handle_event(RelayEvent::ActionDone), None);
    assert!(relay.is_closed());

    let mut idle = HornRequestKuksaRelay::new();
    assert_eq!(idle.handle_event(RelayEvent::ChannelClosed), None);
    assert!(idle.is_closed());
}

#[test]
fn empty_plan_leaves_the_relay_idle() {
    let mut relay = HornRequestKuksaRelay::new();
    assert_eq!(relay.handle_event(RelayEvent::Message(Some(sequenced(vec![])))), None);
    assert!(relay.is_idle());
    assert_eq!(relay.handle_event(RelayEvent::ActionDone), None);
    assert!(relay.is_idle());
}

#[test]
fn unrecognized_mode_is_refused_unless_the_channel_closed() {
    let unrecognized = || ActivateHornRequest { mode: HornModeValue::Unrecognized(42), command: vec![] };
    let mut relay = HornRequestKuksaRelay::new();
    assert!(!relay.accepts(&RelayEvent::Message(Some(unrecognized()))));
    assert!(relay.accepts(&RelayEvent::Message(None)));
    assert!(relay.accepts(&RelayEvent::ActionDone));
    relay.handle_event(RelayEvent::Message(Some(continuous())));
    assert!(!relay.accepts(&RelayEvent::Message(Some(unrecognized()))));
    assert!(relay.accepts(&RelayEvent::Message(None)));
    relay.handle_event(RelayEvent::ChannelClosed);
    assert!(relay.accepts(&RelayEvent::Message(Some(unrecognized()))));
    assert_eq!(relay.handle_event(RelayEvent::Message(Some(unrecognized()))), None);
    assert!(relay.is_closed());
}
