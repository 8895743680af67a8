//! Outbound frame encoding: the connection writer's encode step.
//!
//! The wire format itself is the packet codec's business; this module calls
//! into it and states what the codec returns. The caller takes the returned
//! bytes and writes them, in one piece, to the connection.

use vstd::prelude::*;

use crate::packets::{GrantedLevel, Packet, PublishPacket};

verus! {

/// Why a packet was not encoded.
#[derive(Debug)]
pub enum EncodeError {
    /// The codec refused the packet; the text is the codec's own message.
    Rejected(String),
    /// A frame kind the broker never writes to a connection.
    UnsupportedKind,
}

/// What one call into the codec returns: the encoded bytes, or the codec's
/// own error message.
pub type CodecResult = Result<Vec<u8>, String>;

/// The largest remaining length the codec can write as a variable-length
/// integer; frames beyond it are not representable.
pub open spec fn max_remaining_len() -> int {
    268435455
}

/// The bytes of an encoded subscribe acknowledgement, as a function of the
/// message id, the granted-level bytes and the protocol version alone.
pub uninterp spec fn suback_encoding(message_id: u16, granted: Seq<u8>, protocol_version: u8) -> Seq<u8>;

/// The bytes of an encoded publish without properties, as a function of its
/// fields and the protocol version alone.
pub uninterp spec fn publish_encoding(
    dup: bool,
    qos: u8,
    retain: bool,
    topic: Seq<char>,
    message_id: Option<u16>,
    payload: Seq<u8>,
    protocol_version: u8,
) -> Seq<u8>;

/// The remaining length of an encoded publish without properties: topic
/// length field and topic, message id when the service level asks for one,
/// a property-length byte under version 5, and the payload.
pub open spec fn publish_remaining_len(p: PublishPacket, protocol_version: u8) -> int {
    2 + p.topic@.len() + p.payload@.len() + (if p.qos > 0 {
        2int
    } else {
        0int
    }) + (if protocol_version == 5 {
        1int
    } else {
        0int
    })
}

/// Relies on mqtt_packet_3_5::ConnackPacket::encode: for any version other
/// than 5 a connect acknowledgement without properties encodes as exactly
/// its two header bytes, the session-present flag and the return code;
/// version 5 is refused because the broker sets no reason code.
#[verifier::external_body]
fn encode_connack_raw(session_present: bool, return_code: u8, protocol_version: u8) -> (r: CodecResult)
    ensures
        protocol_version != 5 ==> r is Ok && r->Ok_0@ =~= seq![
            0x20u8,
            2u8,
            (if session_present {
                1u8
            } else {
                0u8
            }),
            return_code,
        ],
        protocol_version == 5 ==> r is Err,
{
    let packet = mqtt_packet_3_5::ConnackPacket {
        return_code: Some(return_code),
        reason_code: None,
        session_present,
        properties: None,
    };
    <mqtt_packet_3_5::ConnackPacket as mqtt_packet_3_5::Packet>::encode(&packet, protocol_version)
}

/// Relies on mqtt_packet_3_5::SubackPacket::encode: under versions other
/// than 5 the bytes are a function of the message id, the granted-level
/// bytes and the version alone, and encoding succeeds while the remaining
/// length fits the codec's variable-length integer.
#[verifier::external_body]
fn encode_suback_raw(message_id: u16, granted: &Vec<GrantedLevel>, protocol_version: u8) -> (r: CodecResult)
    ensures
        (protocol_version != 5 && granted@.len() + 2 <= max_remaining_len()) ==> r is Ok
            && r->Ok_0@ == suback_encoding(
            message_id,
            granted@.map_values(|g: GrantedLevel| g.spec_byte()),
            protocol_version,
        ),
{
    let levels = granted.iter().map(|g| match g {
        GrantedLevel::QoS0 => mqtt_packet_3_5::Granted::QoS0,
        GrantedLevel::QoS1 => mqtt_packet_3_5::Granted::QoS1,
        GrantedLevel::QoS2 => mqtt_packet_3_5::Granted::QoS2,
        GrantedLevel::Failure => mqtt_packet_3_5::Granted::Failure,
    }).collect();
    let packet = mqtt_packet_3_5::SubackPacket {
        reason_code: None,
        message_id,
        properties: None,
        granted_reason_codes: Vec::new(),
        granted: levels,
    };
    <mqtt_packet_3_5::SubackPacket as mqtt_packet_3_5::Packet>::encode(&packet, protocol_version)
}

/// Relies on mqtt_packet_3_5::PublishPacket::encode: a publish without
/// properties is refused when its topic is empty or when a service level
/// above zero comes without a message id; otherwise, while the remaining
/// length fits, the bytes are a function of the fields and the version
/// alone.
#[verifier::external_body]
fn encode_publish_raw(p: &PublishPacket, protocol_version: u8) -> (r: CodecResult)
    ensures
        p.topic@.len() == 0 ==> r is Err,
        (p.qos > 0 && p.message_id is None) ==> r is Err,
        (p.topic@.len() > 0 && (p.qos == 0 || p.message_id is Some) && publish_remaining_len(
            *p,
            protocol_version,
        ) <= max_remaining_len()) ==> r is Ok && r->Ok_0@ == publish_encoding(
            p.dup,
            p.qos,
            p.retain,
            p.topic@,
            p.message_id,
            p.payload@,
            protocol_version,
        ),
{
    let packet = mqtt_packet_3_5::PublishPacket {
        dup: p.dup,
        qos: p.qos,
        retain: p.retain,
        topic: p.topic.clone(),
        message_id: p.message_id,
        payload: p.payload.clone(),
        properties: None,
    };
    <mqtt_packet_3_5::PublishPacket as mqtt_packet_3_5::Packet>::encode(&packet, protocol_version)
}

/// Relies on mqtt_packet_3_5::PingrespPacket::encode: a keep-alive pong
/// always encodes as exactly its two header bytes.
#[verifier::external_body]
fn encode_pingresp_raw(protocol_version: u8) -> (r: CodecResult)
    ensures
        r is Ok && r->Ok_0@ =~= seq![0xd0u8, 0u8],
{
    <mqtt_packet_3_5::PingrespPacket as mqtt_packet_3_5::Packet>::encode(
        &mqtt_packet_3_5::PingrespPacket {},
        protocol_version,
    )
}

/// Encodes one outbound packet with the session's negotiated protocol
/// version. Exactly the frame kinds the broker writes — connect and
/// subscribe acknowledgements, publishes, and keep-alive pongs — are
/// encodable; every other kind is answered with `UnsupportedKind`.
pub fn encode_packet(packet: &Packet, protocol_version: u8) -> (r: Result<Vec<u8>, EncodeError>)
    ensures
        packet matches Packet::Pingresp ==> (r matches Ok(b) && b@ =~= seq![0xd0u8, 0u8]),
        packet matches Packet::Connack(c) ==> {
            &&& protocol_version != 5 ==> (r matches Ok(b) && b@ =~= seq![
                0x20u8,
                2u8,
                (if c.session_present {
                    1u8
                } else {
                    0u8
                }),
                c.return_code,
            ])
            &&& protocol_version == 5 ==> (r matches Err(e) && e
                matches EncodeError::Rejected(_))
        },
        packet matches Packet::Suback(s) ==> ((protocol_version != 5 && s.granted@.len() + 2
            <= max_remaining_len()) ==> (r matches Ok(b) && b@ == suback_encoding(
            s.message_id,
            s.granted@.map_values(|g: GrantedLevel| g.spec_byte()),
            protocol_version,
        ))),
        packet matches Packet::Publish(p) ==> {
            &&& p.topic@.len() == 0 ==> (r matches Err(e) && e matches EncodeError::Rejected(_))
            &&& (p.qos > 0 && p.message_id is None) ==> (r matches Err(e) && e
                matches EncodeError::Rejected(_))
            &&& (p.topic@.len() > 0 && (p.qos == 0 || p.message_id is Some)
                && publish_remaining_len(*p, protocol_version) <= max_remaining_len()) ==> (r
                matches Ok(b) && b@ == publish_encoding(
                p.dup,
                p.qos,
                p.retain,
                p.topic@,
                p.message_id,
                p.payload@,
                protocol_version,
            ))
        },
        (packet matches Packet::Connect(_) || packet matches Packet::Subscribe(_) || packet
            matches Packet::Pingreq || packet matches Packet::Unsupported) ==> r == Err::<
            Vec<u8>,
            EncodeError,
        >(EncodeError::UnsupportedKind),
{
    match packet {
        Packet::Pingresp => {
            match encode_pingresp_raw(protocol_version) {
                Ok(b) => Ok(b),
                Err(m) => Err(EncodeError::Rejected(m)),
            }
        },
        Packet::Connack(c) => {
            match encode_connack_raw(c.session_present, c.return_code, protocol_version) {
                Ok(b) => Ok(b),
                Err(m) => Err(EncodeError::Rejected(m)),
            }
        },
        Packet::Suback(s) => {
            match encode_suback_raw(s.message_id, &s.granted, protocol_version) {
                Ok(b) => Ok(b),
                Err(m) => Err(EncodeError::Rejected(m)),
            }
        },
        Packet::Publish(p) => {
            match encode_publish_raw(p, protocol_version) {
                Ok(b) => Ok(b),
                Err(m) => Err(EncodeError::Rejected(m)),
            }
        },
        _ => Err(EncodeError::UnsupportedKind),
    }
}

} // verus!
