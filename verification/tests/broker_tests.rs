use mqtt_broker_core::codec::{encode_packet, EncodeError};
use mqtt_broker_core::dispatch::delivery_targets;
use mqtt_broker_core::packets::{
    ConnackPacket, ConnectPacket, GrantedLevel, Packet, PublishPacket, SubackPacket,
    SubscribePacket,
};
use mqtt_broker_core::registry::MessageQueue;
use mqtt_broker_core::session::{handshake, read_step, DecodeEvent, HandshakeError, SessionAction};

fn connect_frame(client_id: &str, protocol_version: u8) -> DecodeEvent {
    DecodeEvent::Frame(Packet::Connect(ConnectPacket {
        client_id: client_id.to_string(),
        protocol_version,
    }))
}

fn subscribe_packet(message_id: u16, topics: &[&str]) -> SubscribePacket {
    SubscribePacket {
        message_id,
        topics: topics.iter().map(|t| t.to_string()).collect(),
    }
}

fn publish_packet(topic: &str, payload: &[u8]) -> PublishPacket {
    PublishPacket {
        dup: false,
        qos: 0,
        retain: false,
        topic: topic.to_string(),
        message_id: None,
        payload: payload.to_vec(),
    }
}

#[test]
fn connect_with_v3_is_acknowledged() {
    let r = handshake(7, connect_frame("c1", 3));
    let (client, connack) = r.expect("connect must be accepted");
    assert_eq!(client.session_id, 7);
    assert_eq!(client.connect_packet.client_id, "c1");
    assert_eq!(client.connect_packet.protocol_version, 3);
    assert!(!connack.session_present);
    assert_eq!(connack.return_code, 0);
    let bytes = encode_packet(&Packet::Connack(connack), 3).expect("connack must encode");
    assert_eq!(bytes, vec![0x20, 2, 0, 0]);
}

#[test]
fn first_frame_other_than_connect_is_fatal() {
    let r = handshake(7, DecodeEvent::Frame(Packet::Pingreq));
    assert!(matches!(r, Err(HandshakeError::NotConnect)));
}

#[test]
fn malformed_first_frame_is_fatal() {
    let r = handshake(7, DecodeEvent::Malformed("bad header".to_string()));
    assert!(matches!(r, Err(HandshakeError::MalformedFrame)));
}

#[test]
fn closed_stream_before_connect_is_fatal() {
    let r = handshake(7, DecodeEvent::Closed);
    assert!(matches!(r, Err(HandshakeError::ConnectionClosed)));
}

#[test]
fn subscribe_ack_is_addressed_to_subscriber_only() {
    let mut q = MessageQueue::new();
    assert!(q.subscribe(subscribe_packet(42, &["mytopic"]), 1));
    let job = q.get_next_job().expect("subscribe must queue an acknowledgement job");
    assert_eq!(job.job_id, 0);
    assert_eq!(job.sender, 1);
    assert!(job.subscribers.is_empty());
    match &job.packet {
        Packet::Suback(s) => {
            assert_eq!(s.message_id, 42);
            assert_eq!(s.granted, vec![GrantedLevel::QoS0]);
        },
        _ => panic!("acknowledgement job must carry a suback"),
    }
    assert_eq!(delivery_targets(&job), vec![1]);
    assert!(q.get_next_job().is_none());
}

#[test]
fn publish_is_delivered_to_the_subscriber_snapshot() {
    let mut q = MessageQueue::new();
    q.subscribe(subscribe_packet(1, &["mytopic"]), 1);
    q.get_next_job().expect("suback job");
    assert!(!q.publish(publish_packet("mytopic", b"Hello, world!"), 2));
    let job = q.get_next_job().expect("publish must queue exactly one job");
    assert_eq!(job.subscribers, vec![1]);
    assert_eq!(job.sender, 2);
    match &job.packet {
        Packet::Publish(p) => {
            assert_eq!(p.topic, "mytopic");
            assert_eq!(p.payload, b"Hello, world!".to_vec());
        },
        _ => panic!("publish job must carry the publish packet"),
    }
    let targets = delivery_targets(&job);
    assert_eq!(targets, vec![1]);
    assert_eq!(targets.iter().filter(|s| **s == 1).count(), 1);
    assert!(q.get_next_job().is_none());
}

#[test]
fn publish_without_subscribers_creates_no_job() {
    let mut q = MessageQueue::new();
    assert!(!q.publish(publish_packet("unknown", b"x"), 2));
    assert!(q.get_next_job().is_none());
}

#[test]
fn job_ids_advance_even_for_dropped_publishes() {
    let mut q = MessageQueue::new();
    q.publish(publish_packet("unknown", b"x"), 2);
    q.subscribe(subscribe_packet(9, &["t"]), 1);
    let job = q.get_next_job().expect("suback job");
    assert_eq!(job.job_id, 1);
}

#[test]
fn jobs_come_out_in_enqueue_order() {
    let mut q = MessageQueue::new();
    q.subscribe(subscribe_packet(1, &["t"]), 1);
    q.publish(publish_packet("t", b"A"), 2);
    q.publish(publish_packet("t", b"B"), 2);
    let j0 = q.get_next_job().expect("suback job");
    let j1 = q.get_next_job().expect("first publish job");
    let j2 = q.get_next_job().expect("second publish job");
    assert!(j0.job_id < j1.job_id && j1.job_id < j2.job_id);
    match (&j1.packet, &j2.packet) {
        (Packet::Publish(a), Packet::Publish(b)) => {
            assert_eq!(a.payload, b"A".to_vec());
            assert_eq!(b.payload, b"B".to_vec());
        },
        _ => panic!("publish jobs must come out in enqueue order"),
    }
    assert!(q.get_next_job().is_none());
}

#[test]
fn duplicate_subscriptions_duplicate_deliveries() {
    let mut q = MessageQueue::new();
    q.subscribe(subscribe_packet(1, &["t"]), 1);
    q.subscribe(subscribe_packet(2, &["t"]), 1);
    q.get_next_job().expect("first suback");
    q.get_next_job().expect("second suback");
    q.publish(publish_packet("t", b"m"), 2);
    let job = q.get_next_job().expect("publish job");
    assert_eq!(job.subscribers, vec![1, 1]);
    assert_eq!(delivery_targets(&job), vec![1, 1]);
}

#[test]
fn one_subscribe_request_may_name_many_topics() {
    let mut q = MessageQueue::new();
    q.subscribe(subscribe_packet(5, &["a", "b"]), 3);
    let job = q.get_next_job().expect("suback job");
    match &job.packet {
        Packet::Suback(s) => {
            assert_eq!(s.granted, vec![GrantedLevel::QoS0, GrantedLevel::QoS0]);
        },
        _ => panic!("expected a suback job"),
    }
    q.publish(publish_packet("b", b"m"), 4);
    let job = q.get_next_job().expect("publish job");
    assert_eq!(job.subscribers, vec![3]);
}

#[test]
fn read_step_answers_ping_directly() {
    let r = read_step(DecodeEvent::Frame(Packet::Pingreq));
    assert!(matches!(r, SessionAction::SendPingresp));
}

#[test]
fn read_step_forwards_publish() {
    let r = read_step(DecodeEvent::Frame(Packet::Publish(publish_packet("t", b"m"))));
    match r {
        SessionAction::ForwardPublish(p) => assert_eq!(p.topic, "t"),
        _ => panic!("a publish frame must be forwarded to the registry"),
    }
}

#[test]
fn read_step_forwards_subscribe() {
    let r = read_step(DecodeEvent::Frame(Packet::Subscribe(subscribe_packet(3, &["t"]))));
    match r {
        SessionAction::ForwardSubscribe(s) => assert_eq!(s.message_id, 3),
        _ => panic!("a subscribe frame must be forwarded to the registry"),
    }
}

#[test]
fn read_step_ignores_unsupported_frames() {
    let r = read_step(DecodeEvent::Frame(Packet::Unsupported));
    assert!(matches!(r, SessionAction::Ignore));
    let r = read_step(DecodeEvent::Frame(Packet::Connect(ConnectPacket {
        client_id: "c9".to_string(),
        protocol_version: 3,
    })));
    assert!(matches!(r, SessionAction::Ignore));
}

#[test]
fn read_step_logs_decode_errors_and_continues() {
    let r = read_step(DecodeEvent::Malformed("short frame".to_string()));
    match r {
        SessionAction::ReportError(m) => assert_eq!(m, "short frame"),
        _ => panic!("a decode error must only be reported"),
    }
}

#[test]
fn read_step_stops_on_end_of_stream() {
    let r = read_step(DecodeEvent::Closed);
    assert!(matches!(r, SessionAction::Stop));
}

#[test]
fn unrecognized_job_packet_is_delivered_to_nobody() {
    let mut q = MessageQueue::new();
    q.subscribe(subscribe_packet(1, &["t"]), 1);
    let mut job = q.get_next_job().expect("suback job");
    job.packet = Packet::Pingresp;
    assert!(delivery_targets(&job).is_empty());
}

#[test]
fn pingresp_encodes_as_two_header_bytes() {
    let bytes = encode_packet(&Packet::Pingresp, 3).expect("pingresp must encode");
    assert_eq!(bytes, vec![0xd0, 0]);
}

#[test]
fn suback_encodes_message_id_and_granted_levels() {
    let packet = Packet::Suback(SubackPacket { message_id: 42, granted: vec![GrantedLevel::QoS0] });
    let bytes = encode_packet(&packet, 3).expect("suback must encode");
    assert_eq!(bytes, vec![0x90, 3, 0, 42, 0]);
}

#[test]
fn suback_encodes_every_granted_level_byte() {
    let packet = Packet::Suback(SubackPacket {
        message_id: 0x0102,
        granted: vec![GrantedLevel::QoS0, GrantedLevel::QoS1, GrantedLevel::QoS2, GrantedLevel::Failure],
    });
    let bytes = encode_packet(&packet, 4).expect("suback must encode");
    assert_eq!(bytes, vec![0x90, 6, 1, 2, 0, 1, 2, 0x80]);
}

#[test]
fn publish_above_level_zero_encodes_its_message_id() {
    let mut p = publish_packet("t", &[9]);
    p.qos = 1;
    p.message_id = Some(7);
    let bytes = encode_packet(&Packet::Publish(p), 3).expect("publish must encode");
    assert_eq!(bytes, vec![0x32, 6, 0, 1, b't', 0, 7, 9]);
}

#[test]
fn publish_encodes_topic_and_payload() {
    let packet = Packet::Publish(publish_packet("a/b", &[1, 2, 3]));
    let bytes = encode_packet(&packet, 3).expect("publish must encode");
    assert_eq!(bytes, vec![0x30, 8, 0, 3, b'a', b'/', b'b', 1, 2, 3]);
}

#[test]
fn publish_with_empty_topic_is_rejected() {
    let packet = Packet::Publish(publish_packet("", b"m"));
    let r = encode_packet(&packet, 3);
    assert!(matches!(r, Err(EncodeError::Rejected(_))));
}

#[test]
fn publish_above_level_zero_needs_a_message_id() {
    let mut p = publish_packet("t", b"m");
    p.qos = 1;
    let r = encode_packet(&Packet::Publish(p), 3);
    assert!(matches!(r, Err(EncodeError::Rejected(_))));
}

#[test]
fn connack_under_version_5_is_rejected_without_reason_code() {
    let packet = Packet::Connack(ConnackPacket { session_present: false, return_code: 0 });
    let r = encode_packet(&packet, 5);
    assert!(matches!(r, Err(EncodeError::Rejected(_))));
}

#[test]
fn inbound_frame_kinds_are_never_written() {
    let r = encode_packet(&Packet::Pingreq, 3);
    assert!(matches!(r, Err(EncodeError::UnsupportedKind)));
    let r = encode_packet(&Packet::Subscribe(subscribe_packet(1, &["t"])), 3);
    assert!(matches!(r, Err(EncodeError::UnsupportedKind)));
}
