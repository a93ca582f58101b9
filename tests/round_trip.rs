use osc_tester::{
    build_message, receiver_step, Argument, FloatReadings, Message, ReceiveEvent, ReceiverAction,
};
use rosc::{OscMessage, OscPacket, OscType};

fn readings(token: &str) -> FloatReadings {
    FloatReadings {
        single: token.parse::<f32>().ok().map(f32::to_bits),
        double: token.parse::<f64>().ok().map(f64::to_bits),
    }
}

fn to_osc(a: &Argument) -> OscType {
    match a {
        Argument::Int32(v) => OscType::Int(*v),
        Argument::Float32(b) => OscType::Float(f32::from_bits(*b)),
        Argument::Float64(b) => OscType::Double(f64::from_bits(*b)),
        Argument::Str(s) => OscType::String(s.clone()),
        Argument::Blob(b) => OscType::Blob(b.clone()),
        Argument::Bool(b) => OscType::Bool(*b),
        Argument::Unsupported(_) => OscType::Nil,
    }
}

fn from_osc(t: &OscType) -> (Argument, String) {
    match t {
        OscType::Int(v) => (Argument::Int32(*v), String::new()),
        OscType::Float(f) => (Argument::Float32(f.to_bits()), format!("{:?}", f)),
        OscType::Double(d) => (Argument::Float64(d.to_bits()), format!("{:?}", d)),
        OscType::String(s) => (Argument::Str(s.clone()), String::new()),
        OscType::Blob(b) => (Argument::Blob(b.clone()), String::new()),
        OscType::Bool(b) => (Argument::Bool(*b), String::new()),
        other => (Argument::Unsupported(format!("{:?}", other)), String::new()),
    }
}

fn send_and_receive(addr: &str, tokens: &[&str]) -> (Message, Vec<String>) {
    let tokens: Vec<String> = tokens.iter().map(|t| t.to_string()).collect();
    let rs: Vec<FloatReadings> = tokens.iter().map(|t| readings(t)).collect();
    let sent = build_message(addr, &tokens, &rs);
    let packet = OscPacket::Message(OscMessage {
        addr: sent.addr.clone(),
        args: sent.args.iter().map(to_osc).collect(),
    });
    let bytes = rosc::encoder::encode(&packet).unwrap();
    match rosc::decoder::decode_udp(&bytes).unwrap().1 {
        OscPacket::Message(m) => {
            let (args, floats): (Vec<Argument>, Vec<String>) = m.args.iter().map(from_osc).unzip();
            (Message { addr: m.addr, args }, floats)
        }
        OscPacket::Bundle(_) => panic!("a message was sent"),
    }
}

#[test]
fn inferred_message_survives_encoding() {
    let tokens = ["1", "2.0", "hoge", "true", "1e40", "-3.5", ""];
    let (received, _) = send_and_receive("/hoge", &tokens);
    let owned: Vec<String> = tokens.iter().map(|t| t.to_string()).collect();
    let rs: Vec<FloatReadings> = owned.iter().map(|t| readings(t)).collect();
    assert_eq!(received, build_message("/hoge", &owned, &rs));
}

#[test]
fn empty_message_survives_encoding() {
    let (received, floats) = send_and_receive("/ping", &[]);
    assert_eq!(received, Message { addr: "/ping".to_string(), args: Vec::new() });
    assert!(floats.is_empty());
}

#[test]
fn sent_values_print_on_the_receiving_side() {
    let (received, float_texts) = send_and_receive("/hoge", &["1", "2.0", "hoge"]);
    let event = ReceiveEvent::Message { message: received, float_texts };
    match receiver_step("2024-01-02 03:04:05.123456", &event) {
        ReceiverAction::Print(line) => {
            assert!(line.contains("/hoge"));
            assert!(line.contains("1 2.0 hoge"));
            assert!(line.contains("ifs"));
            assert_eq!(line, "[2024-01-02 03:04:05.123456] /hoge 1 2.0 hoge (type tags: ifs)");
        }
        ReceiverAction::Stop(s) => panic!("unexpected stop: {}", s),
    }
}
