//! The broker's own model of the protocol frames its logic reads and emits.
//!
//! Only the fields that the coordination core inspects or re-emits are kept:
//! the wire-level framing itself is the codec's business (see `codec`).

use vstd::prelude::*;

verus! {

/// The service level granted to one subscription entry of an
/// acknowledgement. The broker of this crate always grants the lowest level.
#[derive(Clone, Copy, PartialEq, Eq, Structural, Debug)]
pub enum GrantedLevel {
    QoS0,
    QoS1,
    QoS2,
    Failure,
}

impl GrantedLevel {
    /// The byte that stands for this level on the wire.
    pub open spec fn spec_byte(self) -> u8 {
        match self {
            GrantedLevel::QoS0 => 0,
            GrantedLevel::QoS1 => 1,
            GrantedLevel::QoS2 => 2,
            GrantedLevel::Failure => 0x80,
        }
    }
}

/// What a connect request tells the broker: who the client is and which
/// protocol version its frames use from now on.
pub struct ConnectPacket {
    pub client_id: String,
    pub protocol_version: u8,
}

/// The acknowledgement sent back after a successful handshake.
pub struct ConnackPacket {
    pub session_present: bool,
    pub return_code: u8,
}

/// A subscription request: one message id and the topics asked for.
pub struct SubscribePacket {
    pub message_id: u16,
    pub topics: Vec<String>,
}

/// The acknowledgement of a subscription request, one granted level per
/// requested topic, in request order.
pub struct SubackPacket {
    pub message_id: u16,
    pub granted: Vec<GrantedLevel>,
}

/// An application message published under a topic.
pub struct PublishPacket {
    pub dup: bool,
    pub qos: u8,
    pub retain: bool,
    pub topic: String,
    pub message_id: Option<u16>,
    pub payload: Vec<u8>,
}

/// Every frame kind the coordination core distinguishes. Frame kinds the
/// broker recognizes but does not handle are folded into `Unsupported`.
pub enum Packet {
    Connect(ConnectPacket),
    Connack(ConnackPacket),
    Subscribe(SubscribePacket),
    Suback(SubackPacket),
    Publish(PublishPacket),
    Pingreq,
    Pingresp,
    Unsupported,
}

} // verus!
