use vstd::prelude::*;

verus! {

/// A websocket message as the transport hands it over, holding what the
/// framing logic reads of it.
#[derive(Debug, Clone)]
pub enum WsMessage {
    Text(String),
    Binary(Vec<u8>),
    Ping(Vec<u8>),
    Pong(Vec<u8>),
    Close,
    Frame,
}

/// The mathematical model of a [`WsMessage`].
pub enum WsFrame {
    Text(Seq<char>),
    Binary(Seq<u8>),
    Ping(Seq<u8>),
    Pong(Seq<u8>),
    Close,
    Frame,
}

impl View for WsMessage {
    type V = WsFrame;

    open spec fn view(&self) -> WsFrame {
        match self {
            WsMessage::Text(t) => WsFrame::Text(t@),
            WsMessage::Binary(b) => WsFrame::Binary(b@),
            WsMessage::Ping(b) => WsFrame::Ping(b@),
            WsMessage::Pong(b) => WsFrame::Pong(b@),
            WsMessage::Close => WsFrame::Close,
            WsMessage::Frame => WsFrame::Frame,
        }
    }
}

/// A protocol message: an application message or a keep-alive.
#[derive(Debug, PartialEq, Clone)]
pub enum Message<T> {
    Message(T),
    Ping,
    Pong,
}

impl<T: View> View for Message<T> {
    type V = Message<T::V>;

    open spec fn view(&self) -> Message<T::V> {
        match self {
            Message::Message(m) => Message::Message(m@),
            Message::Ping => Message::Ping,
            Message::Pong => Message::Pong,
        }
    }
}

/// The payload that keep-alive frames carry.
pub open spec fn keepalive_payload() -> Seq<u8> {
    seq![1u8]
}

/// The websocket frame that carries a protocol message whose application
/// message is already encoded as the bytes `m`: application messages travel
/// as binary frames, keep-alives as ping and pong frames.
pub open spec fn spec_serialize(m: Message<Seq<u8>>) -> WsFrame {
    match m {
        Message::Message(bytes) => WsFrame::Binary(bytes),
        Message::Ping => WsFrame::Ping(keepalive_payload()),
        Message::Pong => WsFrame::Pong(keepalive_payload()),
    }
}

/// What a received websocket frame means: binary and text frames carry an
/// encoded application message (a text frame its UTF-8 bytes), ping and pong
/// frames are keep-alives, and a close frame ends the stream (`None`).
pub open spec fn spec_deserialize(f: WsFrame) -> Option<Message<Seq<u8>>> {
    match f {
        WsFrame::Binary(bytes) => Some(Message::Message(bytes)),
        WsFrame::Text(text) => Some(Message::Message(vstd::utf8::encode_utf8(text))),
        WsFrame::Ping(_) => Some(Message::Ping),
        WsFrame::Pong(_) => Some(Message::Pong),
        WsFrame::Close => None,
        WsFrame::Frame => None,
    }
}

/// Reads a received websocket message. Raw frames are never handed over by
/// the transport when reading messages, so they are not accepted here.
pub fn deserialize(msg: WsMessage) -> (r: Option<Message<Vec<u8>>>)
    requires
        !(msg is Frame),
    ensures
        match r {
            Some(m) => spec_deserialize(msg@) == Some(m@),
            None => spec_deserialize(msg@) is None,
        },
        r is None <==> msg is Close,
        msg matches WsMessage::Binary(b) ==> (r matches Some(Message::Message(p)) && p@ == b@),
        msg matches WsMessage::Text(t) ==> (r matches Some(Message::Message(p)) && p@
            == vstd::utf8::encode_utf8(t@)),
        msg is Ping ==> r == Some(Message::<Vec<u8>>::Ping),
        msg is Pong ==> r == Some(Message::<Vec<u8>>::Pong),
{
    match msg {
        WsMessage::Binary(b) => Some(Message::Message(b)),
        WsMessage::Text(txt) => {
            let bytes = vstd::slice::slice_to_vec(txt.as_str().as_bytes());
            Some(Message::Message(bytes))
        },
        WsMessage::Ping(_) => Some(Message::Ping),
        WsMessage::Pong(_) => Some(Message::Pong),
        WsMessage::Close => None,
        WsMessage::Frame => None,
    }
}

fn keepalive_bytes() -> (r: Vec<u8>)
    ensures
        r@ == keepalive_payload(),
{
    let r = vec![1u8];
    assert(r@ =~= keepalive_payload());
    r
}

/// Frames a protocol message whose application message is already encoded.
pub fn serialize(msg: Message<Vec<u8>>) -> (r: WsMessage)
    ensures
        r@ == spec_serialize(msg@),
        msg matches Message::Message(b) ==> (r matches WsMessage::Binary(c) && c@ == b@),
        msg is Ping ==> (r matches WsMessage::Ping(p) && p@ == seq![1u8]),
        msg is Pong ==> (r matches WsMessage::Pong(p) && p@ == seq![1u8]),
{
    match msg {
        Message::Message(bytes) => WsMessage::Binary(bytes),
        Message::Ping => WsMessage::Ping(keepalive_bytes()),
        Message::Pong => WsMessage::Pong(keepalive_bytes()),
    }
}

/// Reading a frame gives back the message it was framed from: framing and
/// reading are inverse for every protocol message.
pub proof fn lemma_deserialize_serialize_roundtrip(m: Message<Seq<u8>>)
    ensures
        spec_deserialize(spec_serialize(m)) == Some(m),
{
}

/// Every frame produced by framing is one that reading accepts (it is never
/// a raw frame), so a framed message can always be read back.
pub proof fn lemma_serialize_never_raw_frame(m: Message<Seq<u8>>)
    ensures
        !(spec_serialize(m) is Frame),
        !(spec_serialize(m) is Close),
{
}

/// A text frame reads as the UTF-8 bytes of its text, for every text: the
/// same message that a binary frame with those bytes carries.
pub proof fn lemma_text_frame_reads_as_its_utf8_bytes(text: Seq<char>)
    ensures
        spec_deserialize(WsFrame::Text(text)) == Some(
            Message::Message(vstd::utf8::encode_utf8(text)),
        ),
        spec_deserialize(WsFrame::Text(text)) == spec_deserialize(
            WsFrame::Binary(vstd::utf8::encode_utf8(text)),
        ),
{
}

/// A binary frame reads as a message carrying exactly its bytes.
pub proof fn lemma_binary_frame_reads_as_its_bytes(bytes: Seq<u8>)
    ensures
        spec_deserialize(WsFrame::Binary(bytes)) == Some(Message::Message(bytes)),
{
}

/// Ping and pong frames are keep-alives whatever their payload, the empty
/// payload included.
pub proof fn lemma_keepalive_frames_ignore_payload(payload: Seq<u8>)
    ensures
        spec_deserialize(WsFrame::Ping(payload)) == Some(Message::<Seq<u8>>::Ping),
        spec_deserialize(WsFrame::Pong(payload)) == Some(Message::<Seq<u8>>::Pong),
{
}

/// Of the frames that reading accepts, exactly the close frame ends the
/// stream: every other frame reads as a message or a keep-alive.
pub proof fn lemma_only_close_ends_stream(f: WsFrame)
    requires
        !(f is Frame),
    ensures
        spec_deserialize(f) is None <==> f is Close,
{
}

/// Keep-alives are framed with the payload `[1]` and application messages as
/// binary frames carrying exactly their bytes.
pub proof fn lemma_serialize_frames(bytes: Seq<u8>)
    ensures
        spec_serialize(Message::Message(bytes)) == WsFrame::Binary(bytes),
        spec_serialize(Message::<Seq<u8>>::Ping) == WsFrame::Ping(seq![1u8]),
        spec_serialize(Message::<Seq<u8>>::Pong) == WsFrame::Pong(seq![1u8]),
{
}

} // verus!
