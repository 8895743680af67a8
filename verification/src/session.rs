//! Per-connection session decisions: the connect handshake and the
//! per-frame step of the read loop.
//!
//! The session's surroundings perform the blocking reads and writes and
//! hand each outcome in as a [`DecodeEvent`]; the functions here decide,
//! and the caller carries the decision out.

use vstd::prelude::*;

use crate::packets::{ConnackPacket, ConnectPacket, Packet, PublishPacket, SubscribePacket};

verus! {

/// What one attempt to read the next inbound frame produced: a decoded
/// frame, a frame that would not decode (with the decoder's message), or
/// the end of the stream.
pub enum DecodeEvent {
    Frame(Packet),
    Malformed(String),
    Closed,
}

/// The per-connection session record: the id under which the broker
/// addresses this connection's writer, and what the connect handshake
/// established.
pub struct Client {
    pub session_id: u64,
    pub connect_packet: ConnectPacket,
}

/// Why a connect handshake failed. Each of these is fatal to the session
/// alone: the connection is closed with no diagnostic sent to the client.
#[derive(Debug)]
pub enum HandshakeError {
    /// The first frame decoded, but was not a connect request.
    NotConnect,
    /// The first frame did not decode.
    MalformedFrame,
    /// The stream ended before any frame arrived.
    ConnectionClosed,
}

/// Decides the connect handshake from the first inbound frame: exactly a
/// connect request is accepted, and the accepted session is answered with a
/// connection-accepted acknowledgement (success code, no session present).
pub fn handshake(session_id: u64, first: DecodeEvent) -> (r: Result<
    (Client, ConnackPacket),
    HandshakeError,
>)
    ensures
        (r is Ok) <==> first matches DecodeEvent::Frame(Packet::Connect(_)),
        r matches Ok(accepted) ==> (first matches DecodeEvent::Frame(Packet::Connect(c))
            && accepted.0.session_id == session_id && accepted.0.connect_packet == c
            && accepted.1.session_present == false && accepted.1.return_code == 0),
        (first matches DecodeEvent::Frame(p) && !(p matches Packet::Connect(_))) ==> r == Err::<
            (Client, ConnackPacket),
            HandshakeError,
        >(HandshakeError::NotConnect),
        first matches DecodeEvent::Malformed(_) ==> r == Err::<
            (Client, ConnackPacket),
            HandshakeError,
        >(HandshakeError::MalformedFrame),
        first matches DecodeEvent::Closed ==> r == Err::<
            (Client, ConnackPacket),
            HandshakeError,
        >(HandshakeError::ConnectionClosed),
{
    match first {
        DecodeEvent::Frame(Packet::Connect(c)) => {
            let client = Client { session_id, connect_packet: c };
            let connack = ConnackPacket { session_present: false, return_code: 0 };
            Ok((client, connack))
        },
        DecodeEvent::Frame(_) => Err(HandshakeError::NotConnect),
        DecodeEvent::Malformed(_) => Err(HandshakeError::MalformedFrame),
        DecodeEvent::Closed => Err(HandshakeError::ConnectionClosed),
    }
}

/// What the read loop does with one read outcome.
pub enum SessionAction {
    /// Answer a keep-alive ping at once, without the registry.
    SendPingresp,
    /// Hand the published message to the registry, tagged with this session.
    ForwardPublish(PublishPacket),
    /// Hand the subscription request to the registry, tagged with this session.
    ForwardSubscribe(SubscribePacket),
    /// A recognized but unhandled frame kind: log it, change nothing.
    Ignore,
    /// A frame that would not decode: log it, keep reading.
    ReportError(String),
    /// The stream ended: end the read loop cleanly.
    Stop,
}

/// Decides the read loop's reaction to one read outcome. Pings are answered
/// directly, publishes and subscribes go to the registry, every other frame
/// kind is only logged, a decode error is non-fatal, and the end of the
/// stream stops the loop.
pub fn read_step(ev: DecodeEvent) -> (r: SessionAction)
    ensures
        ev matches DecodeEvent::Frame(Packet::Pingreq) ==> r == SessionAction::SendPingresp,
        ev matches DecodeEvent::Frame(Packet::Publish(pp)) ==> r == SessionAction::ForwardPublish(
            pp,
        ),
        ev matches DecodeEvent::Frame(Packet::Subscribe(sp)) ==> r
            == SessionAction::ForwardSubscribe(sp),
        (ev matches DecodeEvent::Frame(p) && !(p matches Packet::Pingreq) && !(p
            matches Packet::Publish(_)) && !(p matches Packet::Subscribe(_))) ==> r
            == SessionAction::Ignore,
        ev matches DecodeEvent::Malformed(m) ==> r == SessionAction::ReportError(m),
        ev matches DecodeEvent::Closed ==> r == SessionAction::Stop,
{
    match ev {
        DecodeEvent::Frame(Packet::Pingreq) => SessionAction::SendPingresp,
        DecodeEvent::Frame(Packet::Publish(pp)) => SessionAction::ForwardPublish(pp),
        DecodeEvent::Frame(Packet::Subscribe(sp)) => SessionAction::ForwardSubscribe(sp),
        DecodeEvent::Frame(_) => SessionAction::Ignore,
        DecodeEvent::Malformed(m) => SessionAction::ReportError(m),
        DecodeEvent::Closed => SessionAction::Stop,
    }
}

} // verus!
