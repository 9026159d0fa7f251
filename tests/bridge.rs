use osc_bridge::{
    channel_address, encode_float_message, listener_step, loopback, plan_batch, send_error,
    BlendshapeData, Channel, ConnectionManager, Datagram, ForwardError, ListenerAction,
    ListenerEvent,
};
use rosc::{OscPacket, OscType};

fn channel(name: &str, weight: f32) -> Channel {
    Channel { name: name.to_string(), weight_bits: weight.to_bits() }
}

fn decode(payload: &[u8]) -> (String, Vec<OscType>) {
    let (rest, packet) = rosc::decoder::decode_udp(payload).expect("a valid OSC packet");
    assert!(rest.is_empty());
    match packet {
        OscPacket::Message(m) => (m.addr, m.args),
        OscPacket::Bundle(_) => panic!("a bundle where a message was expected"),
    }
}

fn assert_loopback(d: &Datagram, port: u16) {
    assert_eq!(d.to.octets, [127, 0, 0, 1]);
    assert_eq!(d.to.port, port);
}

#[test]
fn round_trip_jaw_open() {
    let addr = channel_address("/", "jawOpen");
    let bytes = encode_float_message(&addr, 0.42f32.to_bits());
    let (a, args) = decode(&bytes);
    assert_eq!(a, "/jawOpen");
    assert_eq!(args.len(), 1);
    match args[0] {
        OscType::Float(x) => assert_eq!(x, 0.42f32),
        _ => panic!("not a float argument"),
    }
}

#[test]
fn exact_bytes_of_short_address() {
    let bytes = encode_float_message(b"/a", 1.0f32.to_bits());
    assert_eq!(bytes, vec![47, 97, 0, 0, 44, 102, 0, 0, 0x3f, 0x80, 0, 0]);
}

#[test]
fn address_of_four_bytes_gets_four_nuls() {
    let bytes = encode_float_message(b"/abc", 0x0102_0304);
    assert_eq!(
        bytes,
        vec![47, 97, 98, 99, 0, 0, 0, 0, 44, 102, 0, 0, 1, 2, 3, 4]
    );
}

#[test]
fn encoding_matches_rosc_encoder() {
    for name in ["", "x", "jawOpen", "eyeBlinkLeft", "/avatar/parameters/mouthSmile"] {
        let value = 0.25f32;
        let ours = encode_float_message(name.as_bytes(), value.to_bits());
        let packet = OscPacket::Message(rosc::OscMessage {
            addr: name.to_string(),
            args: vec![OscType::Float(value)],
        });
        assert_eq!(ours, rosc::encoder::encode(&packet).unwrap());
    }
}

#[test]
fn channel_address_joins_prefix_and_name() {
    assert_eq!(channel_address("/", "jawOpen"), b"/jawOpen".to_vec());
    assert_eq!(
        channel_address("/avatar/parameters/", "jawOpen"),
        b"/avatar/parameters/jawOpen".to_vec()
    );
    assert_eq!(channel_address("", ""), Vec::<u8>::new());
}

#[test]
fn loopback_endpoint() {
    let e = loopback(9000);
    assert_eq!(e.octets, [127, 0, 0, 1]);
    assert_eq!(e.port, 9000);
}

#[test]
fn batch_of_two_gives_two_datagrams() {
    let batch = BlendshapeData {
        data: vec![channel("jawOpen", 0.5), channel("eyeBlinkLeft", 1.0)],
        port: 8883,
    };
    let (datagrams, failed) = plan_batch("/", &batch);
    assert!(failed.is_none());
    assert_eq!(datagrams.len(), 2);
    let mut seen = Vec::new();
    for d in &datagrams {
        assert_loopback(d, 8883);
        let (a, args) = decode(&d.payload);
        assert_eq!(args.len(), 1);
        match args[0] {
            OscType::Float(x) => seen.push((a, x)),
            _ => panic!("not a float argument"),
        }
    }
    assert_eq!(
        seen,
        vec![("/jawOpen".to_string(), 0.5f32), ("/eyeBlinkLeft".to_string(), 1.0f32)]
    );
}

#[test]
fn batch_of_n_gives_n_datagrams() {
    let names = ["a", "bb", "ccc", "dddd", "eeeee"];
    let batch = BlendshapeData {
        data: names.iter().map(|n| channel(n, 0.1)).collect(),
        port: 9000,
    };
    let (datagrams, failed) = plan_batch("/", &batch);
    assert!(failed.is_none());
    assert_eq!(datagrams.len(), names.len());
    for d in &datagrams {
        assert_loopback(d, 9000);
    }
}

#[test]
fn empty_batch_gives_no_datagram() {
    let batch = BlendshapeData { data: Vec::new(), port: 8883 };
    let (datagrams, failed) = plan_batch("/", &batch);
    assert!(failed.is_none());
    assert!(datagrams.is_empty());
}

#[test]
fn namespaced_prefix() {
    let batch = BlendshapeData { data: vec![channel("jawOpen", 0.5)], port: 9000 };
    let (datagrams, failed) = plan_batch("/avatar/parameters/", &batch);
    assert!(failed.is_none());
    let (a, _) = decode(&datagrams[0].payload);
    assert_eq!(a, "/avatar/parameters/jawOpen");
}

#[test]
fn name_with_nul_is_an_encode_error() {
    let batch = BlendshapeData {
        data: vec![channel("jawOpen", 0.5), channel("bad\0name", 0.5), channel("z", 0.5)],
        port: 8883,
    };
    let (datagrams, failed) = plan_batch("/", &batch);
    assert_eq!(datagrams.len(), 1);
    match failed {
        Some(ForwardError::Encode { channel }) => assert_eq!(channel, "bad\0name"),
        _ => panic!("expected an encode error"),
    }
}

#[test]
fn planning_twice_gives_identical_datagrams() {
    let batch = BlendshapeData {
        data: vec![channel("jawOpen", 0.5), channel("eyeBlinkLeft", 1.0)],
        port: 8883,
    };
    let (first, f1) = plan_batch("/", &batch);
    let (second, f2) = plan_batch("/", &batch);
    assert!(f1.is_none() && f2.is_none());
    assert_eq!(first.len(), second.len());
    for (a, b) in first.iter().zip(second.iter()) {
        assert_eq!(a.payload, b.payload);
        assert_eq!(a.to.octets, b.to.octets);
        assert_eq!(a.to.port, b.to.port);
    }
}

#[test]
fn send_error_names_the_channel() {
    let batch = BlendshapeData {
        data: vec![channel("jawOpen", 0.5), channel("eyeBlinkLeft", 1.0)],
        port: 8883,
    };
    match send_error(&batch, 1, "refused".to_string()) {
        ForwardError::Send { channel, cause } => {
            assert_eq!(channel, "eyeBlinkLeft");
            assert_eq!(cause, "refused");
        }
        _ => panic!("expected a send error"),
    }
}

/// Acquires `port` as a caller would, "opening" a socket named by `socket`.
fn acquire(m: &mut ConnectionManager<&'static str>, port: u16, socket: &'static str) -> &'static str {
    if m.reuse_or_release(port) {
        *m.lookup(port).unwrap()
    } else {
        m.record_connection(port, socket);
        socket
    }
}

#[test]
fn same_port_reuses_the_socket() {
    let mut m = ConnectionManager::new();
    let first = acquire(&mut m, 8883, "s0");
    for _ in 0..5 {
        assert_eq!(acquire(&mut m, 8883, "other"), first);
    }
    assert_eq!(m.connections_created(), 1);
    assert_eq!(m.current_port(), Some(8883));
}

#[test]
fn other_port_replaces_the_socket() {
    let mut m = ConnectionManager::new();
    let a = acquire(&mut m, 8883, "s0");
    let b = acquire(&mut m, 9000, "s1");
    assert_ne!(a, b);
    assert_eq!(m.connections_created(), 2);
    assert_eq!(m.current_port(), Some(9000));
    assert!(m.lookup(8883).is_none());
    assert_eq!(m.lookup(9000), Some(&"s1"));
}

#[test]
fn port_change_counts_one_creation_per_transition() {
    let mut m = ConnectionManager::new();
    acquire(&mut m, 8883, "s0");
    assert_eq!(m.connections_created(), 1);
    acquire(&mut m, 8883, "s1");
    assert_eq!(m.connections_created(), 1);
    acquire(&mut m, 9000, "s2");
    assert_eq!(m.connections_created(), 2);
    acquire(&mut m, 8883, "s3");
    assert_eq!(m.connections_created(), 3);
}

#[test]
fn serial_numbers_grow() {
    let mut m = ConnectionManager::new();
    assert!(!m.reuse_or_release(8883));
    assert_eq!(m.record_connection(8883, "s0"), 0);
    assert!(!m.reuse_or_release(9000));
    assert_eq!(m.record_connection(9000, "s1"), 1);
}

#[test]
fn failed_open_leaves_nothing_held() {
    let mut m = ConnectionManager::new();
    acquire(&mut m, 8883, "s0");
    assert!(!m.reuse_or_release(9000));
    assert_eq!(m.current_port(), None);
    assert!(m.lookup(8883).is_none());
    assert_eq!(acquire(&mut m, 9000, "s1"), "s1");
}

#[test]
fn close_is_idempotent() {
    let mut m = ConnectionManager::new();
    m.close_connection();
    assert_eq!(m.current_port(), None);
    acquire(&mut m, 8883, "s0");
    m.close_connection();
    m.close_connection();
    assert_eq!(m.current_port(), None);
    assert_eq!(m.connections_created(), 1);
    assert_eq!(acquire(&mut m, 8883, "s1"), "s1");
}

#[test]
fn listener_publishes_text() {
    match listener_step(ListenerEvent::Received(b"hello".to_vec())) {
        ListenerAction::Publish(s) => assert_eq!(s, "hello"),
        _ => panic!("expected a notification"),
    }
}

#[test]
fn listener_skips_non_utf8_and_goes_on() {
    assert!(matches!(
        listener_step(ListenerEvent::Received(vec![0xff, 0xfe, 0x80])),
        ListenerAction::Skip
    ));
    match listener_step(ListenerEvent::Received(b"next".to_vec())) {
        ListenerAction::Publish(s) => assert_eq!(s, "next"),
        _ => panic!("expected a notification"),
    }
}

#[test]
fn listener_skips_failed_receive_and_stops_on_cancel() {
    assert!(matches!(listener_step(ListenerEvent::ReceiveFailed), ListenerAction::Skip));
    assert!(matches!(listener_step(ListenerEvent::Cancelled), ListenerAction::Stop));
}

#[test]
fn listener_publishes_empty_datagram_as_empty_text() {
    match listener_step(ListenerEvent::Received(Vec::new())) {
        ListenerAction::Publish(s) => assert_eq!(s, ""),
        _ => panic!("expected a notification"),
    }
}
