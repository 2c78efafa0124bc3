//! The network stack: address configuration, sockets and endpoints.

use vstd::prelude::*;

use crate::wifi::next_stage;
use crate::wifi::spec_link_state;
use crate::wifi::LinkEvent;
use crate::wifi::LinkState;
use crate::wifi::Stage;

verus! {

/// The most name servers an address configuration can hold.
pub const MAX_DNS_SERVERS: usize = 3;

/// The longest prefix an IPv4 network can have, in bits.
pub const MAX_PREFIX_LEN: u8 = 32;

/// How long a socket may stay idle before an operation on it fails, in seconds.
pub const SOCKET_TIMEOUT_SECS: u64 = 10;

/// The seed the stack draws its port numbers and sequence numbers from.
pub const STACK_SEED: u64 = 8888;

/// An IPv4 address, by its four octets.
#[derive(Clone, Copy, Debug, PartialEq, Eq, Structural)]
pub struct Ipv4Address(pub u8, pub u8, pub u8, pub u8);

/// The far end of a stream connection.
#[derive(Clone, Copy, Debug, PartialEq, Eq, Structural)]
pub struct Endpoint {
    pub address: Ipv4Address,
    pub port: u16,
}

/// How a socket of the stack is to be set up.
#[derive(Clone, Copy, Debug, PartialEq, Eq, Structural)]
pub struct SocketConfig {
    pub rx_capacity: usize,
    pub tx_capacity: usize,
    pub timeout_secs: u64,
}

/// `heapless::Vec`, a vector of at most `N` items stored in place.
#[verifier::external_type_specification]
#[verifier::external_body]
#[verifier::reject_recursive_types(T)]
pub struct ExBoundedVec<T, const N: usize>(heapless::Vec<T, N>);

/// The addresses that a list of name servers holds, in order.
pub uninterp spec fn server_list(servers: heapless::Vec<Ipv4Address, 3>) -> Seq<Ipv4Address>;

/// `heapless::Vec::from_slice`: succeeds exactly when the slice has no more
/// items than the vector has room for, and then gives a vector that holds
/// the items of the slice, in order. It clones each item, which for an
/// address is a plain copy.
#[verifier::external_body]
fn servers_from_slice(addresses: &[Ipv4Address]) -> (servers: Result<
    heapless::Vec<Ipv4Address, 3>,
    (),
>)
    ensures
        servers is Ok <==> addresses@.len() <= 3,
        servers is Ok ==> server_list(servers->Ok_0) == addresses@,
{
    heapless::Vec::from_slice(addresses)
}

/// `heapless::Vec::as_slice`: the slice holds the items of the vector, in
/// order, and they are no more than the vector has room for.
#[verifier::external_body]
fn servers_as_slice(servers: &heapless::Vec<Ipv4Address, 3>) -> (addresses: &[Ipv4Address])
    ensures
        addresses@ == server_list(*servers),
        addresses@.len() <= 3,
{
    servers.as_slice()
}

/// What an address configuration says.
pub struct AddressView {
    pub address: Ipv4Address,
    pub prefix_len: u8,
    pub gateway: Option<Ipv4Address>,
    pub dns_servers: Seq<Ipv4Address>,
}

/// A resolved address configuration: the local address with the length of
/// its network prefix, the gateway if there is one, and the name servers.
#[derive(Debug)]
pub struct AddressConfig {
    address: Ipv4Address,
    prefix_len: u8,
    gateway: Option<Ipv4Address>,
    dns_servers: heapless::Vec<Ipv4Address, 3>,
}

impl View for AddressConfig {
    type V = AddressView;

    closed spec fn view(&self) -> AddressView {
        AddressView {
            address: self.address,
            prefix_len: self.prefix_len,
            gateway: self.gateway,
            dns_servers: server_list(self.dns_servers),
        }
    }
}

impl AddressConfig {
    #[verifier::type_invariant]
    spec fn bounded(self) -> bool {
        self.prefix_len <= MAX_PREFIX_LEN && server_list(self.dns_servers).len() <= MAX_DNS_SERVERS
    }

    /// Whether a configuration can say this: the prefix is no longer than an
    /// address, and the name servers are no more than it has room for.
    pub open spec fn valid(view: AddressView) -> bool {
        view.prefix_len <= MAX_PREFIX_LEN && view.dns_servers.len() <= MAX_DNS_SERVERS
    }

    /// The configuration that says what is given, where one can.
    pub fn new(
        address: Ipv4Address,
        prefix_len: u8,
        gateway: Option<Ipv4Address>,
        dns_servers: &[Ipv4Address],
    ) -> (config: Option<AddressConfig>)
        ensures
            config is Some <==> AddressConfig::valid(
                AddressView { address, prefix_len, gateway, dns_servers: dns_servers@ },
            ),
            config is Some ==> config.unwrap()@ == (AddressView {
                address,
                prefix_len,
                gateway,
                dns_servers: dns_servers@,
            }),
    {
        if prefix_len > MAX_PREFIX_LEN {
            return None;
        }
        match servers_from_slice(dns_servers) {
            Ok(servers) => Some(AddressConfig { address, prefix_len, gateway, dns_servers: servers }),
            Err(_) => None,
        }
    }

    /// The local address.
    pub fn address(&self) -> (address: Ipv4Address)
        ensures
            address == self@.address,
    {
        self.address
    }

    /// The length of the network prefix, in bits.
    pub fn prefix_len(&self) -> (prefix_len: u8)
        ensures
            prefix_len == self@.prefix_len,
            prefix_len <= MAX_PREFIX_LEN,
    {
        proof {
            use_type_invariant(self);
        }
        self.prefix_len
    }

    /// The gateway, if there is one.
    pub fn gateway(&self) -> (gateway: Option<Ipv4Address>)
        ensures
            gateway == self@.gateway,
    {
        self.gateway
    }

    /// The name servers, in order.
    pub fn dns_servers(&self) -> (dns_servers: &[Ipv4Address])
        ensures
            dns_servers@ == self@.dns_servers,
            dns_servers@.len() <= MAX_DNS_SERVERS,
    {
        servers_as_slice(&self.dns_servers)
    }
}

impl Clone for AddressConfig {
    /// A configuration that says the same.
    fn clone(&self) -> (copy: AddressConfig)
        ensures
            copy@ == self@,
    {
        proof {
            use_type_invariant(self);
        }
        let servers = servers_from_slice(servers_as_slice(&self.dns_servers));
        AddressConfig {
            address: self.address,
            prefix_len: self.prefix_len,
            gateway: self.gateway,
            dns_servers: servers.unwrap(),
        }
    }
}

/// The configuration the node falls back on where no service hands one out:
/// 192.168.1.88 in a network of 24 bits, behind 192.168.1.1, with 1.1.1.1 to
/// resolve names.
pub open spec fn fixed_addressing() -> AddressView {
    AddressView {
        address: Ipv4Address(192, 168, 1, 88),
        prefix_len: 24,
        gateway: Some(Ipv4Address(192, 168, 1, 1)),
        dns_servers: seq![Ipv4Address(1, 1, 1, 1)],
    }
}

/// The configuration [`fixed_addressing`] describes.
pub fn static_config() -> (config: AddressConfig)
    ensures
        config@ == fixed_addressing(),
{
    let servers = [Ipv4Address(1, 1, 1, 1)];
    assert(servers@ =~= seq![Ipv4Address(1, 1, 1, 1)]);
    let config = AddressConfig::new(
        Ipv4Address(192, 168, 1, 88),
        24,
        Some(Ipv4Address(192, 168, 1, 1)),
        servers.as_slice(),
    );
    config.unwrap()
}

/// What an optional configuration says, if it is there.
pub open spec fn said(config: Option<AddressConfig>) -> Option<AddressView> {
    match config {
        Some(config) => Some(config@),
        None => None,
    }
}

/// What the stack knows.
pub struct StackView {
    /// The configuration to apply as it stands; none where a service hands
    /// one out.
    pub fixed: Option<AddressView>,
    /// Whether the link is up.
    pub link_up: bool,
    /// Whether a configuration has been asked for since the link came up.
    pub requested: bool,
    /// The configuration in force, if any.
    pub config: Option<AddressView>,
}

/// What the stack answers to the question whether it is configured.
pub enum Poll {
    /// Configured, with this.
    Ready(AddressView),
    /// Not configured: a configuration is to be asked for now.
    Acquire,
    /// Not configured: the link, or the configuration asked for, is awaited.
    Pending,
}

/// The stack after it has learned whether the link is up. A link that is
/// down takes the configuration with it.
pub open spec fn linked(stack: StackView, up: bool) -> StackView {
    if up {
        StackView { link_up: true, ..stack }
    } else {
        StackView { link_up: false, requested: false, config: None, ..stack }
    }
}

/// The stack after it has been asked whether it is configured, and its answer.
///
/// A configuration in force is the answer, and nothing changes. Without
/// one, and with the link up, a fixed configuration comes into force at
/// once; otherwise one is asked for, unless that was done since the link
/// came up.
pub open spec fn polled(stack: StackView) -> (StackView, Poll) {
    if let Some(config) = stack.config {
        (stack, Poll::Ready(config))
    } else if !stack.link_up {
        (stack, Poll::Pending)
    } else if let Some(fixed) = stack.fixed {
        (StackView { config: Some(fixed), ..stack }, Poll::Ready(fixed))
    } else if !stack.requested {
        (StackView { requested: true, ..stack }, Poll::Acquire)
    } else {
        (stack, Poll::Pending)
    }
}

/// Whether a stack takes a configuration that a service hands out: it has
/// asked for one, the link is still up, and none is in force.
pub open spec fn takes(stack: StackView) -> bool {
    stack.link_up && stack.requested && stack.config is None
}

/// The stack after a service has handed out `config`.
pub open spec fn leased(stack: StackView, config: AddressView) -> StackView {
    if takes(stack) {
        StackView { config: Some(config), ..stack }
    } else {
        stack
    }
}

/// The answer of the stack to the question whether it is configured.
#[derive(Debug)]
pub enum ConfigPoll {
    Ready(AddressConfig),
    Acquire,
    Pending,
}

impl View for ConfigPoll {
    type V = Poll;

    open spec fn view(&self) -> Poll {
        match self {
            ConfigPoll::Ready(config) => Poll::Ready(config@),
            ConfigPoll::Acquire => Poll::Acquire,
            ConfigPoll::Pending => Poll::Pending,
        }
    }
}

/// The network stack as its clients see it.
#[derive(Debug)]
pub struct NetStack {
    fixed: Option<AddressConfig>,
    link_up: bool,
    requested: bool,
    config: Option<AddressConfig>,
}

impl View for NetStack {
    type V = StackView;

    closed spec fn view(&self) -> StackView {
        StackView {
            fixed: said(self.fixed),
            link_up: self.link_up,
            requested: self.requested,
            config: said(self.config),
        }
    }
}

impl NetStack {
    /// A stack with the link down and no configuration in force. With
    /// `fixed`, that configuration is applied as it stands whenever the link
    /// is up; without, one is asked for.
    pub fn new(fixed: Option<AddressConfig>) -> (stack: NetStack)
        ensures
            stack@ == (StackView {
                fixed: said(fixed),
                link_up: false,
                requested: false,
                config: None,
            }),
    {
        NetStack { fixed, link_up: false, requested: false, config: None }
    }

    /// Takes note of the state of the link.
    pub fn link_changed(&mut self, state: LinkState)
        ensures
            final(self)@ == linked(old(self)@, state == LinkState::Connected),
    {
        match state {
            LinkState::Connected => {
                self.link_up = true;
            },
            _ => {
                self.link_up = false;
                self.requested = false;
                self.config = None;
            },
        }
    }

    /// Says whether the stack is configured, and with what; if it is not,
    /// whether a configuration is to be asked for now.
    pub fn await_configured(&mut self) -> (poll: ConfigPoll)
        ensures
            (final(self)@, poll@) == polled(old(self)@),
    {
        if let Some(config) = &self.config {
            return ConfigPoll::Ready(config.clone());
        }
        if !self.link_up {
            return ConfigPoll::Pending;
        }
        if let Some(fixed) = &self.fixed {
            let poll = ConfigPoll::Ready(fixed.clone());
            self.config = Some(fixed.clone());
            return poll;
        }
        if !self.requested {
            self.requested = true;
            return ConfigPoll::Acquire;
        }
        ConfigPoll::Pending
    }

    /// Takes the configuration a service has handed out, where the stack has
    /// asked for one and still lacks it; says whether it did.
    pub fn lease_acquired(&mut self, config: AddressConfig) -> (taken: bool)
        ensures
            taken == takes(old(self)@),
            final(self)@ == leased(old(self)@, config@),
    {
        if self.link_up && self.requested && self.config.is_none() {
            self.config = Some(config);
            true
        } else {
            false
        }
    }

    /// How a socket with receive and transmit buffers of the given sizes is
    /// to be set up: with the idle timeout of [`SOCKET_TIMEOUT_SECS`].
    pub fn get_tcp_socket(&self, rx_capacity: usize, tx_capacity: usize) -> (socket: SocketConfig)
        ensures
            socket == (SocketConfig { rx_capacity, tx_capacity, timeout_secs: SOCKET_TIMEOUT_SECS }),
    {
        SocketConfig { rx_capacity, tx_capacity, timeout_secs: SOCKET_TIMEOUT_SECS }
    }

    /// The endpoint to connect a socket to, given what the resolution of the
    /// host's name came to: the first address at the given port. There is
    /// none while the stack is not configured, where the resolution failed,
    /// and where it found no address.
    pub fn connect_socket(&self, resolved: Option<&[Ipv4Address]>, port: u16) -> (endpoint: Option<
        Endpoint,
    >)
        ensures
            endpoint == match resolve(resolved) {
                Some(address) => if self@.config is Some {
                    Some(Endpoint { address, port })
                } else {
                    None
                },
                None => None,
            },
    {
        if self.config.is_none() {
            return None;
        }
        match first_address(resolved) {
            Some(address) => Some(Endpoint { address, port }),
            None => None,
        }
    }
}

/// The address a name resolves to: the first that the resolution gave, and
/// none where it failed or gave no address.
pub open spec fn resolve(resolved: Option<&[Ipv4Address]>) -> Option<Ipv4Address> {
    match resolved {
        Some(addresses) => if addresses@.len() > 0 {
            Some(addresses@[0])
        } else {
            None
        },
        None => None,
    }
}

/// The address a name resolves to, given what its resolution came to.
pub fn first_address(resolved: Option<&[Ipv4Address]>) -> (address: Option<Ipv4Address>)
    ensures
        address == resolve(resolved),
{
    match resolved {
        Some(addresses) => {
            if addresses.len() > 0 {
                Some(addresses[0])
            } else {
                None
            }
        },
        None => None,
    }
}

/// What can happen to the stack.
pub enum StackOp {
    /// It learns whether the link is up.
    Link(bool),
    /// It is asked whether it is configured.
    Ask,
    /// A service hands out a configuration.
    Lease(AddressView),
}

/// The stack after `op`.
pub open spec fn stack_after(stack: StackView, op: StackOp) -> StackView {
    match op {
        StackOp::Link(up) => linked(stack, up),
        StackOp::Ask => polled(stack).0,
        StackOp::Lease(config) => leased(stack, config),
    }
}

/// The stack after `ops`, in order.
pub open spec fn stack_after_all(stack: StackView, ops: Seq<StackOp>) -> StackView
    decreases ops.len(),
{
    if ops.len() == 0 {
        stack
    } else {
        stack_after(stack_after_all(stack, ops.drop_last()), ops.last())
    }
}

/// How many times the stack, taken through `ops` in order, says that a
/// configuration is to be asked for.
pub open spec fn acquisitions(stack: StackView, ops: Seq<StackOp>) -> nat
    decreases ops.len(),
{
    if ops.len() == 0 {
        0
    } else {
        let before = ops.drop_last();
        acquisitions(stack, before) + if ops.last() is Ask && polled(
            stack_after_all(stack, before),
        ).1 is Acquire {
            1nat
        } else {
            0nat
        }
    }
}

/// Asked twice in a row once a configuration is in force, the stack gives
/// that configuration both times, asks for none, and is left as it was.
pub proof fn lemma_configured_is_idempotent(stack: StackView)
    requires
        stack.config is Some,
    ensures
        polled(stack) == (stack, Poll::Ready(stack.config.unwrap())),
        polled(polled(stack).0) == polled(stack),
{
}

/// As long as the link does not go down, a configuration in force stays in
/// force, whatever else happens to the stack, and none is asked for.
pub proof fn lemma_configuration_holds(stack: StackView, ops: Seq<StackOp>)
    requires
        stack.config is Some,
        forall|i: int| 0 <= i < ops.len() ==> #[trigger] ops[i] != StackOp::Link(false),
    ensures
        stack_after_all(stack, ops).config == stack.config,
        acquisitions(stack, ops) == 0,
    decreases ops.len(),
{
    if ops.len() > 0 {
        lemma_configuration_holds(stack, ops.drop_last());
    }
}

/// As long as the link does not go down, a configuration is asked for once
/// at most, and not at all where one was asked for before or a fixed one is
/// at hand.
pub proof fn lemma_one_acquisition_per_episode(stack: StackView, ops: Seq<StackOp>)
    requires
        forall|i: int| 0 <= i < ops.len() ==> #[trigger] ops[i] != StackOp::Link(false),
    ensures
        acquisitions(stack, ops) <= 1,
        stack.requested || stack.fixed is Some ==> acquisitions(stack, ops) == 0,
        acquisitions(stack, ops) == 1 ==> stack_after_all(stack, ops).requested,
        stack.requested ==> stack_after_all(stack, ops).requested,
        stack_after_all(stack, ops).fixed == stack.fixed,
    decreases ops.len(),
{
    if ops.len() > 0 {
        lemma_one_acquisition_per_episode(stack, ops.drop_last());
    }
}

/// A drop of the link leaves the supervisor with a link that is not up, and
/// a stack that learns of it without a configuration: asked, it has none to
/// give until the link is back.
pub proof fn lemma_drop_clears_configuration(stack: StackView)
    ensures
        spec_link_state(next_stage(Stage::Associated, LinkEvent::Dropped)) != LinkState::Connected,
        linked(stack, false).config is None,
        polled(linked(stack, false)) == (linked(stack, false), Poll::Pending),
{
}

} // verus!
