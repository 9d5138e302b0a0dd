use sockets::protocol::{deserialize, serialize, Message, WsMessage};

#[test]
fn binary_frame_carries_message() {
    let m = deserialize(WsMessage::Binary(vec![123, 125]));
    assert_eq!(m, Some(Message::Message(vec![123, 125])));
}

#[test]
fn text_frame_carries_utf8_bytes() {
    let m = deserialize(WsMessage::Text("{\"a\":\"é\"}".to_string()));
    assert_eq!(m, Some(Message::Message("{\"a\":\"é\"}".as_bytes().to_vec())));
}

#[test]
fn keepalive_frames() {
    assert_eq!(deserialize(WsMessage::Ping(vec![9, 9])), Some(Message::Ping));
    assert_eq!(deserialize(WsMessage::Pong(vec![])), Some(Message::Pong));
}

#[test]
fn close_frame_ends_stream() {
    assert_eq!(deserialize(WsMessage::Close), None);
}

#[test]
fn serialize_frames() {
    match serialize(Message::Message(vec![1, 2, 3])) {
        WsMessage::Binary(b) => assert_eq!(b, vec![1, 2, 3]),
        other => panic!("unexpected frame {:?}", other),
    }
    match serialize(Message::Ping) {
        WsMessage::Ping(b) => assert_eq!(b, vec![1]),
        other => panic!("unexpected frame {:?}", other),
    }
    match serialize(Message::Pong) {
        WsMessage::Pong(b) => assert_eq!(b, vec![1]),
        other => panic!("unexpected frame {:?}", other),
    }
}

#[test]
fn framing_roundtrip() {
    let msgs = vec![Message::Message(b"{\"type\":\"Unauthorized\"}".to_vec()), Message::Message(vec![]), Message::Ping, Message::Pong];
    for m in msgs {
        assert_eq!(deserialize(serialize(m.clone())), Some(m));
    }
}
