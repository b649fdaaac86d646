use horn_service::actuator::{horn_target_value, TerminalClient, HORN_IS_ACTIVE_SIGNAL};
use horn_service::config::Args;
use horn_service::server::{ActuatorConnection, HornServer};
use horn_service::uri::UriProvider;
use std::path::PathBuf;

#[test]
fn terminal_shows_the_horn_state() {
    let client = TerminalClient::default();
    assert_eq!(client.horn_state_text(true), "active");
    assert_eq!(client.horn_state_text(false), "inactive");
}

#[test]
fn databroker_target_names_the_horn_signal() {
    let on = horn_target_value(true);
    assert_eq!(on.signal, "Vehicle.Body.Horn.IsActive");
    assert_eq!(on.signal, HORN_IS_ACTIVE_SIGNAL);
    assert!(on.is_active);
    let off = horn_target_value(false);
    assert_eq!(off.signal, "Vehicle.Body.Horn.IsActive");
    assert!(!off.is_active);
}

#[test]
fn connections_follow_the_databroker_switch() {
    let address: http::Uri = "http://localhost:55555".parse().unwrap();
    let enabled = HornServer::new(true, address.clone());
    match enabled.initialize_connections() {
        ActuatorConnection::KuksaDatabroker(a) => assert_eq!(*a, address),
        ActuatorConnection::Terminal => panic!("expected the databroker"),
    }
    let disabled = HornServer::new(false, address);
    assert!(matches!(disabled.initialize_connections(), ActuatorConnection::Terminal));
}

#[test]
fn resource_uri_names_the_entity_and_the_resource() {
    let provider = UriProvider::new("horn-service-kuksa", 0x0028, 1);
    assert_eq!(provider.get_authority(), "horn-service-kuksa");
    let uri = provider.get_resource_uri(0x0001);
    assert_eq!(uri.authority_name, "horn-service-kuksa");
    assert_eq!(uri.ue_id, 0x0028);
    assert_eq!(uri.ue_version_major, 1);
    assert_eq!(uri.resource_id, 0x0001);
    let other = provider.get_resource_uri(0x7FFF);
    assert_eq!(other.resource_id, 0x7FFF);
    assert_eq!(other.ue_id, 0x0028);
}

#[test]
fn args_keep_their_settings() {
    let args = Args::new(PathBuf::from("zenoh.json5"), false);
    assert_eq!(args.config(), &PathBuf::from("zenoh.json5"));
    assert!(!args.sound());
    let args = Args::new(PathBuf::from("/etc/zenoh.json5"), true);
    assert!(args.sound());
}
