//! Driver-event parsing and the three machines' transitions,
//! exercised on concrete values.

use tari_sdm::error::ParseError;
use tari_sdm::forwarder::{DriverEvent, DriverEventKind, Converter};
use tari_sdm::image;
use tari_sdm::image::checker::CheckerEvent;
use tari_sdm::network;
use tari_sdm::volume;

#[test]
fn volume_parse_accepts_known_actions() {
    assert!(matches!(volume::Event::parse("create"), Ok(volume::Event::Created)));
    assert!(matches!(volume::Event::parse("destroy"), Ok(volume::Event::Destroyed)));
}

#[test]
fn volume_parse_rejects_unknown_actions() {
    let err = volume::Event::parse("pause").unwrap_err();
    assert_eq!(err.0, "pause");
    assert!(volume::Event::parse("").is_err());
    assert!(volume::Event::parse("Create").is_err());
}

#[test]
fn network_parse_accepts_known_actions() {
    assert!(matches!(network::Event::parse("create"), Ok(network::Event::Created)));
    assert!(matches!(network::Event::parse("destroy"), Ok(network::Event::Destroyed)));
}

#[test]
fn network_parse_rejects_unknown_actions() {
    assert!(network::Event::parse("pause").is_err());
    assert!(network::Event::parse("remove").is_err());
}

#[test]
fn image_parse_accepts_known_actions() {
    assert!(matches!(image::Event::parse("destroy"), Ok(image::Event::Destroyed)));
    assert!(matches!(image::Event::parse("create"), Ok(image::Event::Created)));
    assert!(matches!(image::Event::parse("start"), Ok(image::Event::Started)));
    assert!(matches!(image::Event::parse("kill"), Ok(image::Event::Killed)));
    assert!(matches!(image::Event::parse("die"), Ok(image::Event::Terminated)));
}

#[test]
fn image_parse_rejects_unknown_actions() {
    let err: ParseError = image::Event::parse("pause").unwrap_err();
    assert_eq!(err.value(), "pause");
    assert!(image::Event::parse("stop").is_err());
    assert!(image::Event::parse("died").is_err());
}

#[test]
fn volume_converter_filters_by_kind_and_name() {
    let conv = volume::EventConv { name: "scope_volume".to_string() };
    let ok = DriverEvent {
        kind: DriverEventKind::Volume,
        action: "create".to_string(),
        name: "scope_volume".to_string(),
    };
    assert!(matches!(conv.convert(Ok(ok)), Some(volume::Event::Created)));

    let other_name = DriverEvent {
        kind: DriverEventKind::Volume,
        action: "create".to_string(),
        name: "other_volume".to_string(),
    };
    assert!(conv.convert(Ok(other_name)).is_none());

    let other_kind = DriverEvent {
        kind: DriverEventKind::Network,
        action: "create".to_string(),
        name: "scope_volume".to_string(),
    };
    assert!(conv.convert(Ok(other_kind)).is_none());

    let unknown_action = DriverEvent {
        kind: DriverEventKind::Volume,
        action: "pause".to_string(),
        name: "scope_volume".to_string(),
    };
    assert!(conv.convert(Ok(unknown_action)).is_none());

    assert!(conv.convert(Err("stream failure".to_string())).is_none());
}

#[test]
fn image_converter_translates_container_events() {
    let conv = image::EventConv { name: "scope_node".to_string() };
    let msg = DriverEvent {
        kind: DriverEventKind::Container,
        action: "die".to_string(),
        name: "scope_node".to_string(),
    };
    assert!(matches!(conv.convert(Ok(msg)), Some(image::Event::Terminated)));
}

#[test]
fn checker_events_compare() {
    assert_eq!(CheckerEvent::Progress(10), CheckerEvent::Progress(10));
    assert_ne!(CheckerEvent::Progress(10), CheckerEvent::Ready);
}

#[test]
fn container_states_compare() {
    assert_eq!(image::ContainerState::Running, image::ContainerState::Running);
    assert_ne!(image::ContainerState::Running, image::ContainerState::NotFound);
}
