use telemetry_node::netstack::first_address;
use telemetry_node::netstack::static_config;
use telemetry_node::netstack::AddressConfig;
use telemetry_node::netstack::Endpoint;
use telemetry_node::netstack::ConfigPoll;
use telemetry_node::netstack::Ipv4Address;
use telemetry_node::netstack::NetStack;
use telemetry_node::netstack::MAX_DNS_SERVERS;
use telemetry_node::netstack::SOCKET_TIMEOUT_SECS;
use telemetry_node::netstack::STACK_SEED;
use telemetry_node::wifi::LinkEvent;
use telemetry_node::wifi::LinkState;
use telemetry_node::wifi::WifiLink;

fn lease() -> AddressConfig {
    AddressConfig::new(
        Ipv4Address(10, 0, 0, 7),
        8,
        Some(Ipv4Address(10, 0, 0, 1)),
        &[Ipv4Address(10, 0, 0, 2), Ipv4Address(8, 8, 8, 8)],
    )
    .unwrap()
}

fn assert_is_lease(config: &AddressConfig) {
    assert_eq!(config.address(), Ipv4Address(10, 0, 0, 7));
    assert_eq!(config.prefix_len(), 8);
    assert_eq!(config.gateway(), Some(Ipv4Address(10, 0, 0, 1)));
    assert_eq!(config.dns_servers(), &[Ipv4Address(10, 0, 0, 2), Ipv4Address(8, 8, 8, 8)]);
}

fn ready(poll: ConfigPoll) -> AddressConfig {
    match poll {
        ConfigPoll::Ready(config) => config,
        _ => panic!("the stack is configured"),
    }
}

#[test]
fn static_config_is_the_fixed_tuple() {
    let config = static_config();
    assert_eq!(config.address(), Ipv4Address(192, 168, 1, 88));
    assert_eq!(config.prefix_len(), 24);
    assert_eq!(config.gateway(), Some(Ipv4Address(192, 168, 1, 1)));
    assert_eq!(config.dns_servers(), &[Ipv4Address(1, 1, 1, 1)]);
}

#[test]
fn stack_constants() {
    assert_eq!(STACK_SEED, 8888);
    assert_eq!(SOCKET_TIMEOUT_SECS, 10);
    assert_eq!(MAX_DNS_SERVERS, 3);
}

#[test]
fn address_config_keeps_what_it_is_given() {
    let servers = [Ipv4Address(1, 1, 1, 1), Ipv4Address(8, 8, 8, 8), Ipv4Address(9, 9, 9, 9)];
    let config = AddressConfig::new(Ipv4Address(172, 16, 0, 9), 32, None, &servers).unwrap();
    assert_eq!(config.address(), Ipv4Address(172, 16, 0, 9));
    assert_eq!(config.prefix_len(), 32);
    assert_eq!(config.gateway(), None);
    assert_eq!(config.dns_servers(), &servers);
    let copy = config.clone();
    assert_eq!(copy.address(), Ipv4Address(172, 16, 0, 9));
    assert_eq!(copy.prefix_len(), 32);
    assert_eq!(copy.gateway(), None);
    assert_eq!(copy.dns_servers(), &servers);
}

#[test]
fn address_config_without_name_servers() {
    let config = AddressConfig::new(Ipv4Address(172, 16, 0, 9), 0, None, &[]).unwrap();
    assert_eq!(config.prefix_len(), 0);
    assert!(config.dns_servers().is_empty());
}

#[test]
fn address_config_rejects_a_long_prefix() {
    assert!(AddressConfig::new(Ipv4Address(10, 0, 0, 7), 33, None, &[]).is_none());
    assert!(AddressConfig::new(Ipv4Address(10, 0, 0, 7), 255, None, &[]).is_none());
}

#[test]
fn address_config_rejects_a_fourth_name_server() {
    let servers = [
        Ipv4Address(1, 1, 1, 1),
        Ipv4Address(8, 8, 8, 8),
        Ipv4Address(9, 9, 9, 9),
        Ipv4Address(4, 4, 4, 4),
    ];
    assert!(AddressConfig::new(Ipv4Address(10, 0, 0, 7), 8, None, &servers).is_none());
}

#[test]
fn gate_waits_for_the_link() {
    let mut stack = NetStack::new(None);
    assert!(matches!(stack.await_configured(), ConfigPoll::Pending));
    assert!(matches!(stack.await_configured(), ConfigPoll::Pending));
    let mut stack = NetStack::new(Some(static_config()));
    assert!(matches!(stack.await_configured(), ConfigPoll::Pending));
    stack.link_changed(LinkState::Connecting);
    assert!(matches!(stack.await_configured(), ConfigPoll::Pending));
}

#[test]
fn fixed_configuration_applies_with_the_link() {
    let mut stack = NetStack::new(Some(static_config()));
    stack.link_changed(LinkState::Connected);
    let config = ready(stack.await_configured());
    assert_eq!(config.address(), Ipv4Address(192, 168, 1, 88));
    assert_eq!(config.dns_servers(), &[Ipv4Address(1, 1, 1, 1)]);
    let config = ready(stack.await_configured());
    assert_eq!(config.address(), Ipv4Address(192, 168, 1, 88));
    assert_eq!(config.prefix_len(), 24);
}

#[test]
fn configuration_is_asked_for_once() {
    let mut stack = NetStack::new(None);
    stack.link_changed(LinkState::Connected);
    assert!(matches!(stack.await_configured(), ConfigPoll::Acquire));
    assert!(matches!(stack.await_configured(), ConfigPoll::Pending));
    stack.link_changed(LinkState::Connected);
    assert!(matches!(stack.await_configured(), ConfigPoll::Pending));
}

#[test]
fn await_configured_twice_gives_the_same_tuple() {
    let mut stack = NetStack::new(None);
    stack.link_changed(LinkState::Connected);
    assert!(matches!(stack.await_configured(), ConfigPoll::Acquire));
    assert!(stack.lease_acquired(lease()));
    assert_is_lease(&ready(stack.await_configured()));
    assert_is_lease(&ready(stack.await_configured()));
}

#[test]
fn lease_is_taken_only_when_asked_for() {
    let mut stack = NetStack::new(None);
    assert!(!stack.lease_acquired(lease()));
    stack.link_changed(LinkState::Connected);
    assert!(!stack.lease_acquired(lease()));
    assert!(matches!(stack.await_configured(), ConfigPoll::Acquire));
    assert!(stack.lease_acquired(lease()));
    assert!(!stack.lease_acquired(static_config()));
    assert_is_lease(&ready(stack.await_configured()));
}

#[test]
fn link_drop_resets_the_configuration() {
    let mut link = WifiLink::new();
    link.connection(LinkEvent::Association(true));
    let mut stack = NetStack::new(None);
    stack.link_changed(link.link_state());
    assert!(matches!(stack.await_configured(), ConfigPoll::Acquire));
    assert!(stack.lease_acquired(lease()));
    assert!(matches!(stack.await_configured(), ConfigPoll::Ready(_)));

    link.connection(LinkEvent::Dropped);
    stack.link_changed(link.link_state());
    assert!(matches!(stack.await_configured(), ConfigPoll::Pending));
    assert!(!stack.lease_acquired(lease()));
    assert!(stack.connect_socket(Some(&[Ipv4Address(1, 2, 3, 4)]), 1883).is_none());

    stack.link_changed(LinkState::Connected);
    assert!(matches!(stack.await_configured(), ConfigPoll::Acquire));
    assert!(stack.lease_acquired(static_config()));
    assert_eq!(ready(stack.await_configured()).address(), Ipv4Address(192, 168, 1, 88));
}

#[test]
fn socket_gets_the_idle_timeout() {
    let stack = NetStack::new(None);
    let socket = stack.get_tcp_socket(4096, 2048);
    assert_eq!(socket.rx_capacity, 4096);
    assert_eq!(socket.tx_capacity, 2048);
    assert_eq!(socket.timeout_secs, 10);
}

#[test]
fn first_address_of_a_resolution() {
    let found = [Ipv4Address(3, 3, 3, 3), Ipv4Address(4, 4, 4, 4)];
    assert_eq!(first_address(Some(&found)), Some(Ipv4Address(3, 3, 3, 3)));
    assert_eq!(first_address(Some(&found[1..])), Some(Ipv4Address(4, 4, 4, 4)));
    assert_eq!(first_address(Some(&[])), None);
    assert_eq!(first_address(None), None);
}

#[test]
fn endpoint_is_the_first_address_at_the_port() {
    let mut stack = NetStack::new(Some(static_config()));
    let found = [Ipv4Address(3, 3, 3, 3), Ipv4Address(4, 4, 4, 4)];
    assert_eq!(stack.connect_socket(Some(&found), 1883), None);
    stack.link_changed(LinkState::Connected);
    assert!(matches!(stack.await_configured(), ConfigPoll::Ready(_)));
    assert_eq!(
        stack.connect_socket(Some(&found), 1883),
        Some(Endpoint { address: Ipv4Address(3, 3, 3, 3), port: 1883 })
    );
    assert_eq!(stack.connect_socket(Some(&[]), 1883), None);
    assert_eq!(stack.connect_socket(None, 1883), None);
}
