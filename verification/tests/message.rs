use sockets::message::{
    ClientMessage, ExposeResponse, ServerMessage, StreamId, StreamKind, StreamSide, TunnelId,
    TunnelledStreamId,
};

#[test]
fn tunnel_id_text_is_hyphenated_uuid() {
    let id = TunnelId::from_u128(0x67e5504410b1426f9247bb680e5fe0c8);
    assert_eq!(id.to_string(), "67e55044-10b1-426f-9247-bb680e5fe0c8");
    assert_eq!(id.as_u128(), 0x67e5504410b1426f9247bb680e5fe0c8);
}

#[test]
fn stream_id_text_is_hyphenated_uuid() {
    let id = StreamId::from_u128(0x00000000_0000_0000_0000_00000000000a);
    assert_eq!(id.to_string(), "00000000-0000-0000-0000-00000000000a");
    let max = StreamId::from_u128(u128::MAX);
    assert_eq!(max.to_string(), "ffffffff-ffff-ffff-ffff-ffffffffffff");
}

#[test]
fn random_ids_are_version_4() {
    for _ in 0..32 {
        let t = TunnelId::rand().as_u128();
        assert_eq!((t >> 76) & 0xf, 4);
        assert_eq!((t >> 62) & 0x3, 2);
        let s = StreamId::rand().as_u128();
        assert_eq!((s >> 76) & 0xf, 4);
        assert_eq!((s >> 62) & 0x3, 2);
    }
    assert_ne!(TunnelId::rand(), TunnelId::rand());
}

#[test]
fn message_values_compare_and_clone() {
    let id = TunnelledStreamId { tunnel_id: TunnelId::from_u128(1), stream_id: StreamId::from_u128(2) };
    let msg = ClientMessage::ExposeRequest { local_id: 123, kind: StreamKind::Tcp };
    assert_eq!(msg.clone(), msg);
    let data = ClientMessage::Data { id, bytes: vec![1, 2] };
    assert_eq!(data.clone(), data);
    assert_ne!(data, ClientMessage::StreamClosed { id, side: StreamSide::Read });
    let resp = ServerMessage::ExposeResponse(Ok(ExposeResponse {
        local_id: 123,
        url: "tcp.test.com:52131".to_string(),
        tunnel_id: TunnelId::rand(),
    }));
    assert_eq!(resp.clone(), resp);
    let refused = ClientMessage::NewStreamResponse { id, result: Err("refused".to_string()) };
    assert_eq!(refused.clone(), refused);
}

#[test]
fn id_text_reads_back_as_the_id() {
    for v in [0u128, 1, 0x67e5504410b1426f9247bb680e5fe0c8, u128::MAX, TunnelId::rand().as_u128()] {
        let text = TunnelId::from_u128(v).to_string();
        let digits: String = text.chars().filter(|c| *c != '-').collect();
        assert_eq!(digits.len(), 32);
        assert_eq!(u128::from_str_radix(&digits, 16).unwrap(), v);
        assert_eq!(StreamId::from_u128(v).to_string(), text);
    }
}

#[test]
fn server_message_clone_keeps_fields() {
    let id = TunnelledStreamId { tunnel_id: TunnelId::from_u128(3), stream_id: StreamId::from_u128(4) };
    let data = ServerMessage::Data { id, bytes: vec![7, 8, 9] };
    match data.clone() {
        ServerMessage::Data { id: i, bytes } => {
            assert_eq!(i, id);
            assert_eq!(bytes, vec![7, 8, 9]);
        }
        other => panic!("unexpected clone {:?}", other),
    }
    let refused = ServerMessage::ExposeResponse(Err("no".to_string()));
    assert_eq!(refused.clone(), refused);
}
