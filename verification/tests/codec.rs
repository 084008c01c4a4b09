use vrc_osc::client::{received_message, Client, Datagram};
use vrc_osc::osc::{
    decode, encode, interpret, Arg, DecodeError, Message, Packet, Received, Value, MTU,
};

fn message(addr: &str, args: Vec<Arg>) -> Message {
    Message { addr: addr.to_string(), args }
}

fn received(addr: &str, args: Vec<Value>) -> Received {
    Received { addr: addr.to_string(), args }
}

fn as_received(m: &Message) -> Received {
    let mut args = Vec::new();
    for a in &m.args {
        args.push(match a {
            Arg::Int(v) => Value::Int(*v),
            Arg::Bool(v) => Value::Bool(*v),
            Arg::Str(s) => Value::Str(s.clone()),
        });
    }
    Received { addr: m.addr.clone(), args }
}

fn round_trip(m: &Message) {
    let bytes = encode(m);
    assert!(bytes.len() <= MTU);
    assert_eq!(decode(&bytes), Ok(Some(as_received(m))));
}

fn float_packet(addr: &str, x: f32) -> Vec<u8> {
    let packet = rosc::OscPacket::Message(rosc::OscMessage {
        addr: addr.to_string(),
        args: vec![rosc::OscType::Float(x)],
    });
    rosc::encoder::encode(&packet).unwrap()
}

#[test]
fn encode_gives_the_wire_form_of_an_integer_write() {
    let bytes = encode(&message("/input/Jump", vec![Arg::Int(1)]));
    assert_eq!(bytes, b"/input/Jump\0,i\0\0\0\0\0\x01".to_vec());
}

#[test]
fn encode_gives_the_wire_form_of_booleans_and_text() {
    let bytes = encode(&message(
        "/chatbox/input",
        vec![Arg::Str("hi".to_string()), Arg::Bool(true), Arg::Bool(false)],
    ));
    assert_eq!(bytes, b"/chatbox/input\0\0,sTF\0\0\0\0hi\0\0".to_vec());
}

#[test]
fn encode_writes_negative_integers_big_endian() {
    let bytes = encode(&message("/a", vec![Arg::Int(-2)]));
    assert_eq!(bytes, b"/a\0\0,i\0\0\xff\xff\xff\xfe".to_vec());
}

#[test]
fn round_trip_of_each_argument_type() {
    round_trip(&message("/input/Run", vec![Arg::Int(1)]));
    round_trip(&message("/input/Run", vec![Arg::Int(i32::MIN)]));
    round_trip(&message("/input/Run", vec![Arg::Int(i32::MAX)]));
    round_trip(&message("/input/MoveForward", vec![Arg::Bool(true)]));
    round_trip(&message("/input/MoveForward", vec![Arg::Bool(false)]));
    round_trip(&message("/chatbox/input", vec![Arg::Str("hello world".to_string())]));
    round_trip(&message("/chatbox/input", vec![Arg::Str("gr\u{fc}\u{df}e \u{1f64f}".to_string())]));
}

#[test]
fn round_trip_of_no_arguments_and_of_many() {
    round_trip(&message("/ping", vec![]));
    round_trip(&message(
        "/mixed",
        vec![
            Arg::Str("a".to_string()),
            Arg::Int(7),
            Arg::Bool(true),
            Arg::Str(String::new()),
            Arg::Bool(false),
            Arg::Int(-7),
        ],
    ));
}

#[test]
fn round_trip_of_every_padding_length() {
    for n in 0..9 {
        let text = "x".repeat(n);
        let addr = format!("/{}", text);
        round_trip(&message(&addr, vec![Arg::Str(text), Arg::Int(n as i32)]));
    }
}

#[test]
fn round_trip_of_a_message_that_fills_a_datagram() {
    let text = "m".repeat(MTU - 16);
    let m = message("/big", vec![Arg::Str(text)]);
    assert_eq!(encode(&m).len(), MTU);
    round_trip(&m);
}

#[test]
fn decode_ignores_what_follows_the_packet() {
    let mut buf = encode(&message("/input/Run", vec![Arg::Int(0)]));
    buf.resize(MTU, 0);
    assert_eq!(decode(&buf), Ok(Some(received("/input/Run", vec![Value::Int(0)]))));
}

#[test]
fn decode_refuses_malformed_bytes() {
    assert_eq!(decode(b""), Err(DecodeError::Malformed));
    assert_eq!(decode(b"abc"), Err(DecodeError::Malformed));
    assert_eq!(decode(b"nopath\0\0,i\0\0\0\0\0\x01"), Err(DecodeError::Malformed));
    assert_eq!(decode(b"/a\0\0,i\0\0\0\0"), Err(DecodeError::Malformed));
    assert_eq!(decode(&[0u8; 64]), Err(DecodeError::Malformed));
}

#[test]
fn decode_gives_nothing_for_a_bundle() {
    let bundle = rosc::OscPacket::Bundle(rosc::OscBundle {
        timetag: rosc::OscTime { seconds: 1, fractional: 2 },
        content: vec![rosc::OscPacket::Message(rosc::OscMessage {
            addr: "/input/Run".to_string(),
            args: vec![rosc::OscType::Int(1)],
        })],
    });
    let bytes = rosc::encoder::encode(&bundle).unwrap();
    assert_eq!(decode(&bytes), Ok(None));
}

#[test]
fn decode_hands_arguments_of_other_types_on_as_they_came() {
    let packet = rosc::OscPacket::Message(rosc::OscMessage {
        addr: "/avatar/parameters/Speed".to_string(),
        args: vec![
            rosc::OscType::Int(1),
            rosc::OscType::Long(5),
            rosc::OscType::Blob(vec![1, 2, 3]),
            rosc::OscType::Nil,
        ],
    });
    let bytes = rosc::encoder::encode(&packet).unwrap();
    assert_eq!(
        decode(&bytes),
        Ok(Some(received(
            "/avatar/parameters/Speed",
            vec![
                Value::Int(1),
                Value::Other(rosc::OscType::Long(5)),
                Value::Other(rosc::OscType::Blob(vec![1, 2, 3])),
                Value::Other(rosc::OscType::Nil),
            ]
        )))
    );
}

#[test]
fn encode_agrees_with_the_codec_on_the_same_message() {
    let packet = rosc::OscPacket::Message(rosc::OscMessage {
        addr: "/chatbox/input".to_string(),
        args: vec![
            rosc::OscType::String("hello".to_string()),
            rosc::OscType::Bool(true),
            rosc::OscType::Int(3),
        ],
    });
    let m = message(
        "/chatbox/input",
        vec![Arg::Str("hello".to_string()), Arg::Bool(true), Arg::Int(3)],
    );
    assert_eq!(encode(&m), rosc::encoder::encode(&packet).unwrap());
}

#[test]
fn interpret_keeps_the_order_of_the_arguments() {
    let packet = Packet::Message(
        "/p".to_string(),
        vec![
            Value::Int(1),
            Value::Float(0x3f00_0000),
            Value::Bool(true),
            Value::Str("z".to_string()),
            Value::Other(rosc::OscType::Long(9)),
        ],
    );
    assert_eq!(
        interpret(packet),
        Some(received(
            "/p",
            vec![
                Value::Int(1),
                Value::Float(0x3f00_0000),
                Value::Bool(true),
                Value::Str("z".to_string()),
                Value::Other(rosc::OscType::Long(9)),
            ]
        ))
    );
}



#[test]
fn interpret_gives_nothing_for_a_bundle_and_a_bare_message_for_no_arguments() {
    assert_eq!(interpret(Packet::Bundle), None);
    assert_eq!(interpret(Packet::Message("/p".to_string(), vec![])), Some(received("/p", vec![])));
}

#[test]
fn received_message_counts_failures_and_empty_datagrams_as_no_data() {
    let m = || received("/input/Run", vec![Value::Int(1)]);
    assert_eq!(received_message(12, Ok(Some(m()))), Some(m()));
    assert_eq!(received_message(1, Ok(Some(m()))), Some(m()));
    assert_eq!(received_message(0, Ok(Some(m()))), None);
    assert_eq!(received_message(12, Ok(None)), None);
    assert_eq!(received_message(12, Err(DecodeError::Malformed)), None);
    assert_eq!(received_message(0, Err(DecodeError::Malformed)), None);
}

#[test]
fn recv_data_never_fails_on_a_malformed_datagram() {
    let client = Client::new(9001, 9000);
    let mut buf = vec![0u8; MTU];
    buf[..7].copy_from_slice(b"garbage");
    assert_eq!(client.recv_data(&buf, 7), None);
    let all_ones = vec![0xffu8; MTU];
    assert_eq!(client.recv_data(&all_ones, MTU), None);
}

#[test]
fn recv_data_gives_nothing_for_an_empty_datagram() {
    let client = Client::new(9001, 9000);
    let mut buf = encode(&message("/input/Run", vec![Arg::Int(1)]));
    buf.resize(MTU, 0);
    assert_eq!(client.recv_data(&buf, 0), None);
}

#[test]
fn recv_data_gives_the_message_of_a_datagram() {
    let client = Client::new(9001, 9000);
    let m = message("/avatar/change", vec![Arg::Str("avtr_1".to_string())]);
    let mut buf = encode(&m);
    let len = buf.len();
    buf.resize(MTU, 0);
    assert_eq!(client.recv_data(&buf, len), Some(as_received(&m)));
}

#[test]
fn send_data_addresses_the_encoded_message_to_the_transmit_endpoint() {
    let client = Client::new(9001, 9000);
    let d = client.send_data("/input/Jump", vec![Arg::Int(1)]);
    assert_eq!(
        d,
        Datagram {
            destination: "127.0.0.1:9000".to_string(),
            payload: b"/input/Jump\0,i\0\0\0\0\0\x01".to_vec(),
        }
    );
}

#[test]
fn a_text_is_read_back_up_to_its_first_nul() {
    let bytes = encode(&message("/chatbox/input", vec![Arg::Str("ab\0cd".to_string())]));
    assert_eq!(
        decode(&bytes),
        Ok(Some(received("/chatbox/input", vec![Value::Str("ab".to_string())])))
    );
}

#[test]
fn an_address_without_a_leading_slash_is_not_read_back() {
    let bytes = encode(&message("input/Jump", vec![Arg::Int(1)]));
    assert_eq!(decode(&bytes), Err(DecodeError::Malformed));
}

#[test]
fn decode_hands_a_float_on_as_its_bits() {
    assert_eq!(
        decode(&float_packet("/avatar/parameters/VelocityZ", 0.5)),
        Ok(Some(received("/avatar/parameters/VelocityZ", vec![Value::Float(0x3f00_0000)])))
    );
    assert_eq!(
        decode(&float_packet("/v", -1.0)),
        Ok(Some(received("/v", vec![Value::Float(0xbf80_0000)])))
    );
    assert_eq!(decode(&float_packet("/v", 0.0)), Ok(Some(received("/v", vec![Value::Float(0)]))));
    assert_eq!(
        decode(&float_packet("/v", -0.0)),
        Ok(Some(received("/v", vec![Value::Float(0x8000_0000)])))
    );
    assert_eq!(
        decode(&float_packet("/v", f32::INFINITY)),
        Ok(Some(received("/v", vec![Value::Float(0x7f80_0000)])))
    );
    assert_eq!(
        decode(&b"/v\0\0,f\0\0\x7f\xc0\x12\x34".to_vec()),
        Ok(Some(received("/v", vec![Value::Float(0x7fc0_1234)])))
    );
}

#[test]
fn a_message_of_every_supported_type_is_received_with_each_argument_in_place() {
    let packet = rosc::OscPacket::Message(rosc::OscMessage {
        addr: "/a".to_string(),
        args: vec![
            rosc::OscType::Float(0.5),
            rosc::OscType::Int(-7),
            rosc::OscType::Bool(true),
            rosc::OscType::Bool(false),
            rosc::OscType::String("h\u{e9}llo".to_string()),
        ],
    });
    let client = Client::new(9001, 9000);
    let mut buf = rosc::encoder::encode(&packet).unwrap();
    let len = buf.len();
    buf.resize(MTU, 0);
    let expected = || {
        received(
            "/a",
            vec![
                Value::Float(0.5f32.to_bits()),
                Value::Int(-7),
                Value::Bool(true),
                Value::Bool(false),
                Value::Str("h\u{e9}llo".to_string()),
            ],
        )
    };
    assert_eq!(decode(&buf[..len]), Ok(Some(expected())));
    assert_eq!(client.recv_data(&buf, len), Some(expected()));
    match client.recv_data(&buf, len) {
        Some(m) => match m.args[0] {
            Value::Float(bits) => assert_eq!(f32::from_bits(bits), 0.5),
            _ => panic!("the first argument is a float"),
        },
        None => panic!("the message is received"),
    }
}

#[test]
fn what_send_data_emits_is_received_back() {
    let client = Client::new(9001, 9000);
    let args = vec![Arg::Int(-7), Arg::Bool(true), Arg::Bool(false), Arg::Str("h\u{e9}llo".to_string())];
    let d = client.send_data("/a", args.clone());
    let len = d.payload.len();
    let mut buf = d.payload;
    buf.resize(MTU, 0xaa);
    assert_eq!(client.recv_data(&buf, len), Some(as_received(&message("/a", args))));
}

#[test]
fn recv_data_reads_the_datagram_and_not_the_rest_of_the_buffer() {
    let client = Client::new(9001, 9000);
    let mut buf = b"/a\0\0,i\0\0".to_vec();
    buf.resize(MTU, 0);
    assert_eq!(client.recv_data(&buf, 8), None);
    assert_eq!(decode(&buf[..8]), Err(DecodeError::Malformed));
    assert_eq!(client.recv_data(&buf, 12), Some(received("/a", vec![Value::Int(0)])));
}

#[test]
fn recv_data_gives_every_message_that_decodes() {
    let packet = rosc::OscPacket::Message(rosc::OscMessage {
        addr: "/t".to_string(),
        args: vec![rosc::OscType::Float(1.0), rosc::OscType::Double(1.0)],
    });
    let client = Client::new(9001, 9000);
    let buf = rosc::encoder::encode(&packet).unwrap();
    assert_eq!(
        client.recv_data(&buf, buf.len()),
        Some(received(
            "/t",
            vec![Value::Float(0x3f80_0000), Value::Other(rosc::OscType::Double(1.0))]
        ))
    );
}

#[test]
fn recv_data_gives_nothing_for_a_bundle() {
    let bundle = rosc::OscPacket::Bundle(rosc::OscBundle {
        timetag: rosc::OscTime { seconds: 0, fractional: 1 },
        content: vec![],
    });
    let client = Client::new(9001, 9000);
    let buf = rosc::encoder::encode(&bundle).unwrap();
    assert_eq!(client.recv_data(&buf, buf.len()), None);
}
