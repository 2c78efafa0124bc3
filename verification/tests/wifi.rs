use telemetry_node::wifi::LinkAction;
use telemetry_node::wifi::LinkEvent;
use telemetry_node::wifi::LinkState;
use telemetry_node::wifi::Stage;
use telemetry_node::wifi::WifiLink;
use telemetry_node::wifi::BACKOFF_MILLIS;

fn drive(link: &mut WifiLink, events: &[LinkEvent]) -> Vec<LinkAction> {
    let mut actions = Vec::new();
    for event in events {
        actions.push(link.connection(*event));
    }
    actions
}

fn connected_link() -> WifiLink {
    let mut link = WifiLink::new();
    drive(
        &mut link,
        &[
            LinkEvent::Association(false),
            LinkEvent::Started(false),
            LinkEvent::StartDone,
            LinkEvent::Joined(true),
            LinkEvent::Association(true),
        ],
    );
    link
}

#[test]
fn backoff_is_five_seconds() {
    assert_eq!(BACKOFF_MILLIS, 5000);
}

#[test]
fn new_link_is_disconnected() {
    let link = WifiLink::new();
    assert_eq!(link.stage(), Stage::Observing(LinkState::Disconnected));
    assert_eq!(link.link_state(), LinkState::Disconnected);
    assert!(!link.is_up());
    assert_eq!(link.pending(), LinkAction::QueryAssociation);
}

#[test]
fn unfailing_radio_connects_in_one_cycle() {
    let mut link = WifiLink::new();
    let actions = drive(
        &mut link,
        &[
            LinkEvent::Association(false),
            LinkEvent::Started(false),
            LinkEvent::StartDone,
            LinkEvent::Joined(true),
        ],
    );
    assert_eq!(
        actions,
        vec![
            LinkAction::QueryStarted,
            LinkAction::StartRadio,
            LinkAction::Connect,
            LinkAction::QueryAssociation,
        ]
    );
    assert_eq!(link.link_state(), LinkState::Connected);
    assert!(link.is_up());
    assert_eq!(link.connection(LinkEvent::Association(true)), LinkAction::AwaitDrop);
    assert_eq!(link.stage(), Stage::Associated);
    assert!(link.is_up());
}

#[test]
fn started_radio_is_not_started_again() {
    let mut link = WifiLink::new();
    let actions = drive(
        &mut link,
        &[LinkEvent::Association(false), LinkEvent::Started(true), LinkEvent::Joined(true)],
    );
    assert_eq!(
        actions,
        vec![LinkAction::QueryStarted, LinkAction::Connect, LinkAction::QueryAssociation]
    );
    assert_eq!(link.link_state(), LinkState::Connected);
}

#[test]
fn associated_radio_is_watched_at_once() {
    let mut link = WifiLink::new();
    assert_eq!(link.connection(LinkEvent::Association(true)), LinkAction::AwaitDrop);
    assert_eq!(link.link_state(), LinkState::Connected);
}

#[test]
fn failed_connect_backs_off_then_looks_again() {
    let mut link = WifiLink::new();
    let actions = drive(
        &mut link,
        &[LinkEvent::Association(false), LinkEvent::Started(true), LinkEvent::Joined(false)],
    );
    assert_eq!(actions[2], LinkAction::Backoff(5000));
    assert_eq!(link.stage(), Stage::Retrying);
    assert_eq!(link.link_state(), LinkState::Connecting);
    assert_eq!(link.connection(LinkEvent::Elapsed), LinkAction::QueryAssociation);
    assert_eq!(link.link_state(), LinkState::Connecting);
    let actions = drive(
        &mut link,
        &[LinkEvent::Association(false), LinkEvent::Started(true), LinkEvent::Joined(true)],
    );
    assert_eq!(
        actions,
        vec![LinkAction::QueryStarted, LinkAction::Connect, LinkAction::QueryAssociation]
    );
    assert!(link.is_up());
}

#[test]
fn drop_backs_off_before_reconnecting() {
    let mut link = connected_link();
    assert_eq!(link.connection(LinkEvent::Dropped), LinkAction::Backoff(5000));
    assert_eq!(link.stage(), Stage::Recovering);
    assert_eq!(link.link_state(), LinkState::Disconnected);
    assert!(!link.is_up());
    let ignored = [
        LinkEvent::Association(true),
        LinkEvent::Association(false),
        LinkEvent::Dropped,
        LinkEvent::Started(true),
        LinkEvent::Started(false),
        LinkEvent::StartDone,
        LinkEvent::Joined(true),
        LinkEvent::Joined(false),
    ];
    for action in drive(&mut link, &ignored) {
        assert_eq!(action, LinkAction::Wait);
    }
    assert_eq!(link.stage(), Stage::Recovering);
    assert_eq!(link.pending(), LinkAction::Backoff(5000));
    assert_eq!(link.connection(LinkEvent::Elapsed), LinkAction::QueryStarted);
    assert_eq!(link.link_state(), LinkState::Connecting);
    assert_eq!(link.connection(LinkEvent::Started(true)), LinkAction::Connect);
}

#[test]
fn one_connect_request_at_a_time() {
    let mut link = WifiLink::new();
    drive(&mut link, &[LinkEvent::Association(false), LinkEvent::Started(true)]);
    assert_eq!(link.stage(), Stage::Joining);
    assert_eq!(link.pending(), LinkAction::Connect);
    let ignored = [
        LinkEvent::Association(false),
        LinkEvent::Dropped,
        LinkEvent::Elapsed,
        LinkEvent::Started(true),
        LinkEvent::StartDone,
    ];
    for action in drive(&mut link, &ignored) {
        assert_eq!(action, LinkAction::Wait);
    }
    assert_eq!(link.stage(), Stage::Joining);
}

#[test]
fn every_stage_waits_on_its_own_action() {
    let mut link = WifiLink::new();
    assert_eq!(link.pending(), LinkAction::QueryAssociation);
    link.connection(LinkEvent::Association(false));
    assert_eq!(link.stage(), Stage::Probing);
    assert_eq!(link.pending(), LinkAction::QueryStarted);
    link.connection(LinkEvent::Started(false));
    assert_eq!(link.stage(), Stage::Starting);
    assert_eq!(link.pending(), LinkAction::StartRadio);
    link.connection(LinkEvent::StartDone);
    assert_eq!(link.stage(), Stage::Joining);
    assert_eq!(link.pending(), LinkAction::Connect);
    link.connection(LinkEvent::Joined(false));
    assert_eq!(link.stage(), Stage::Retrying);
    assert_eq!(link.pending(), LinkAction::Backoff(BACKOFF_MILLIS));
}
