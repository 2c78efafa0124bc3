//! The bus session: what is sent over it, and what is made of what comes back.

use vstd::prelude::*;
use vstd::string::StringSliceAdditionalSpecFns;

verus! {

/// The host of the broker.
pub const BROKER_HOST: &'static str = "broker.hivemq.com";

/// The port of the broker.
pub const BROKER_PORT: u16 = 1883;

/// The topic on which readings are published.
pub const REPORT_TOPIC: &'static str = "temperature/1";

/// The name under which the node opens its session.
pub const CLIENT_ID: &'static str = "gstukelj";

/// The largest packet the session sends or takes, in bytes.
pub const MAX_PACKET_SIZE: u32 = 100;

/// The size of the read buffer and of the write buffer, in bytes.
pub const BUFFER_LEN: usize = 512;

/// The most protocol properties a session carries.
pub const MAX_PROPERTIES: usize = 5;

/// The number from which packet identifiers count up.
pub const PACKET_ID_SEED: u64 = 20000;

/// The version of the bus protocol.
#[derive(Clone, Copy, Debug, PartialEq, Eq, Structural)]
pub enum MqttVersion {
    V3,
    V5,
}

/// How hard the bus tries to deliver a message.
#[derive(Clone, Copy, Debug, PartialEq, Eq, Structural)]
pub enum QualityOfService {
    QoS0,
    QoS1,
    QoS2,
}

/// What a session is opened with.
#[derive(Clone, Copy, Debug)]
pub struct SessionConfig {
    pub version: MqttVersion,
    pub client_id: &'static str,
    pub max_subscribe_qos: QualityOfService,
    pub max_packet_size: u32,
    pub packet_id_seed: u64,
}

/// A message to publish.
#[derive(Clone, Copy, Debug)]
pub struct Publish<'a> {
    pub topic: &'a str,
    pub body: &'a [u8],
    pub qos: QualityOfService,
    pub retain: bool,
}

/// A topic to subscribe to.
#[derive(Clone, Copy, Debug)]
pub struct Subscribe<'a> {
    pub topic: &'a str,
}

/// One session with the broker, or the lack of one.
#[derive(Debug)]
pub struct MqttConnection {
    connected: bool,
}

impl View for MqttConnection {
    type V = bool;

    /// Whether the session is there.
    closed spec fn view(&self) -> bool {
        self.connected
    }
}

impl MqttConnection {
    /// What the node opens its session with: protocol version 5 under the
    /// name [`CLIENT_ID`], at least once delivery, small packets.
    pub fn config() -> (config: SessionConfig)
        ensures
            config == (SessionConfig {
                version: MqttVersion::V5,
                client_id: CLIENT_ID,
                max_subscribe_qos: QualityOfService::QoS1,
                max_packet_size: MAX_PACKET_SIZE,
                packet_id_seed: PACKET_ID_SEED,
            }),
    {
        SessionConfig {
            version: MqttVersion::V5,
            client_id: CLIENT_ID,
            max_subscribe_qos: QualityOfService::QoS1,
            max_packet_size: MAX_PACKET_SIZE,
            packet_id_seed: PACKET_ID_SEED,
        }
    }

    /// The session that a handshake leaves: there when the handshake
    /// succeeded, lacking when the broker gave a reason to refuse.
    pub fn new(handshake: Result<(), u8>) -> (session: MqttConnection)
        ensures
            session@ == (handshake is Ok),
    {
        MqttConnection { connected: handshake.is_ok() }
    }

    /// Whether the session is there.
    pub fn is_connected(&self) -> (connected: bool)
        ensures
            connected == self@,
    {
        self.connected
    }

    /// The message that publishes a report: on [`REPORT_TOPIC`], retained,
    /// delivered at least once. None where the session is lacking.
    pub fn send_temp<'a>(&self, msg: &'a str) -> (publish: Option<Publish<'a>>)
        ensures
            publish is Some == self@,
            publish is Some ==> {
                &&& publish.unwrap().topic == REPORT_TOPIC
                &&& publish.unwrap().body@ == msg.spec_bytes()
                &&& publish.unwrap().qos == QualityOfService::QoS1
                &&& publish.unwrap().retain
            },
    {
        if self.connected {
            Some(
                Publish {
                    topic: REPORT_TOPIC,
                    body: msg.as_bytes(),
                    qos: QualityOfService::QoS1,
                    retain: true,
                },
            )
        } else {
            None
        }
    }

    /// The subscription to `topic`. None where the session is lacking.
    pub fn subscribe<'a>(&self, topic: &'a str) -> (subscribe: Option<Subscribe<'a>>)
        ensures
            subscribe is Some == self@,
            subscribe is Some ==> subscribe.unwrap().topic == topic,
    {
        if self.connected {
            Some(Subscribe { topic })
        } else {
            None
        }
    }

    /// What a completed receive hands on: the message with its topic and
    /// body, or nothing where the receive failed, whatever the reason, or
    /// the session is lacking.
    pub fn recv_msg<'a>(&self, received: Result<(&'a str, &'a [u8]), u8>) -> (message: Option<
        (&'a str, &'a [u8]),
    >)
        ensures
            message == match received {
                Ok(message) => if self@ {
                    Some(message)
                } else {
                    None
                },
                Err(_) => None,
            },
    {
        match received {
            Ok(message) => {
                if self.connected {
                    Some(message)
                } else {
                    None
                }
            },
            Err(_) => None,
        }
    }
}

} // verus!
