use vstd::arithmetic::div_mod::{lemma_div_denominator, lemma_fundamental_div_mod};
use vstd::arithmetic::power2::{lemma2_to64, lemma_pow2_adds, lemma_pow2_pos, pow2};
use vstd::prelude::*;

verus! {

/// The kind of local listener that is exposed.
#[derive(PartialEq, Eq, Structural, Debug, Copy, Clone)]
pub enum StreamKind {
    /// A raw TCP listener.
    Tcp,
}

/// A direction of a tunnelled stream.
#[derive(PartialEq, Eq, Structural, Debug, Copy, Clone)]
pub enum StreamSide {
    Read,
    Write,
}

/// The character by which a hexadecimal digit `n` (0 to 15) is written in
/// lower case.
pub open spec fn hex_char(n: int) -> char {
    if n < 10 {
        (48 + n) as char
    } else {
        (87 + n) as char
    }
}

/// The index, among the 32 hexadecimal digits of a UUID, of the digit that
/// stands at position `i` of its hyphenated text.
pub open spec fn uuid_digit_index(i: int) -> int {
    if i < 8 {
        i
    } else if i < 13 {
        i - 1
    } else if i < 18 {
        i - 2
    } else if i < 23 {
        i - 3
    } else {
        i - 4
    }
}

/// The `d`-th hexadecimal digit (from the most significant one) of `v`.
pub open spec fn uuid_nibble(v: u128, d: int) -> int {
    ((v as int) / (vstd::arithmetic::power2::pow2((4 * (31 - d)) as nat) as int)) % 16
}

/// The hyphenated lower-case text of the UUID whose 128-bit value is `v`,
/// such as `67e55044-10b1-426f-9247-bb680e5fe0c8`.
pub open spec fn uuid_hyphenated(v: u128) -> Seq<char> {
    Seq::new(
        36,
        |i: int|
            if i == 8 || i == 13 || i == 18 || i == 23 {
                '-'
            } else {
                hex_char(uuid_nibble(v, uuid_digit_index(i)))
            },
    )
}

/// Whether `v` is a random (version 4, RFC 4122 variant) UUID: its version
/// digit is 4 and its two variant bits are `10`.
pub open spec fn is_random_uuid(v: u128) -> bool {
    &&& ((v as int) / (vstd::arithmetic::power2::pow2(76) as int)) % 16 == 4
    &&& ((v as int) / (vstd::arithmetic::power2::pow2(62) as int)) % 4 == 2
}

/// Calls `uuid::Uuid::new_v4` and hands out the UUID's 128-bit value.
/// The contract claims of it only the version and variant bits that it sets
/// on every outcome; the remaining bits are random. uuid panics where the
/// system's random source fails, which nothing here can rule out.
#[verifier::external_body]
fn random_uuid() -> (v: u128)
    ensures
        is_random_uuid(v),
{
    uuid::Uuid::new_v4().as_u128()
}

/// Calls `uuid::Uuid::from_u128` and formats the UUID with its `Display`
/// impl. The contract claims that the text is the hyphenated lower-case
/// form of the 128-bit value, as uuid's `format_hyphenated` writes it.
#[verifier::external_body]
fn uuid_text(v: u128) -> (s: String)
    ensures
        s@ == uuid_hyphenated(v),
{
    uuid::Uuid::from_u128(v).to_string()
}

/// The identifier of an exposed tunnel: a UUID, held by its 128-bit value.
#[derive(PartialEq, Eq, Structural, Debug, Copy, Clone, Hash)]
pub struct TunnelId(u128);

impl View for TunnelId {
    type V = u128;

    closed spec fn view(&self) -> u128 {
        self.0
    }
}

impl TunnelId {
    /// A fresh random identifier.
    pub fn rand() -> (r: Self)
        ensures
            is_random_uuid(r@),
    {
        TunnelId(random_uuid())
    }

    /// The identifier with the UUID value `v`.
    pub fn from_u128(v: u128) -> (r: Self)
        ensures
            r@ == v,
    {
        TunnelId(v)
    }

    /// The UUID value of the identifier.
    pub fn as_u128(&self) -> (v: u128)
        ensures
            v == self@,
    {
        self.0
    }

    /// The text by which the identifier is shown: its hyphenated UUID.
    pub fn to_string(&self) -> (s: String)
        ensures
            s@ == uuid_hyphenated(self@),
    {
        uuid_text(self.0)
    }
}

/// The identifier of one stream inside a tunnel: a UUID, held by its
/// 128-bit value.
#[derive(PartialEq, Eq, Structural, Debug, Copy, Clone, Hash)]
pub struct StreamId(u128);

impl View for StreamId {
    type V = u128;

    closed spec fn view(&self) -> u128 {
        self.0
    }
}

impl StreamId {
    /// A fresh random identifier.
    pub fn rand() -> (r: Self)
        ensures
            is_random_uuid(r@),
    {
        StreamId(random_uuid())
    }

    /// The identifier with the UUID value `v`.
    pub fn from_u128(v: u128) -> (r: Self)
        ensures
            r@ == v,
    {
        StreamId(v)
    }

    /// The UUID value of the identifier.
    pub fn as_u128(&self) -> (v: u128)
        ensures
            v == self@,
    {
        self.0
    }

    /// The text by which the identifier is shown: its hyphenated UUID.
    pub fn to_string(&self) -> (s: String)
        ensures
            s@ == uuid_hyphenated(self@),
    {
        uuid_text(self.0)
    }
}

/// The identifier of a stream together with the tunnel it runs through.
#[derive(PartialEq, Eq, Structural, Debug, Copy, Clone, Hash)]
pub struct TunnelledStreamId {
    pub tunnel_id: TunnelId,
    pub stream_id: StreamId,
}

/// The answer to an expose request once the tunnel is established.
#[derive(PartialEq, Eq, Debug, Clone)]
pub struct ExposeResponse {
    pub local_id: u32,
    pub tunnel_id: TunnelId,
    pub url: String,
}

/// Messages that a client sends to the server.
#[derive(PartialEq, Debug)]
pub enum ClientMessage {
    AuthenticateRequest { api_key: String },
    /// Sent when a TCP listener is successfully tunneled to the server side.
    ExposeRequest { local_id: u32, kind: StreamKind },
    /// Sent when a TCP listener is successfully removed from the server side.
    UnexposeRequest { tunnel_id: TunnelId },
    /// Sent when a new tunneled connection has been established.
    NewStreamResponse { id: TunnelledStreamId, result: Result<(), String> },
    /// Sent when data was read from a local connection.
    Data { id: TunnelledStreamId, bytes: Vec<u8> },
    /// Sent when the local connection has closed.
    StreamClosed { id: TunnelledStreamId, side: StreamSide },
}

/// Messages that the server sends to a client.
#[derive(PartialEq, Debug)]
pub enum ServerMessage {
    Unauthorized,
    /// Sent after a tunnel has been established.
    ExposeResponse(Result<ExposeResponse, String>),
    /// Sent after a tunnel has been removed.
    UnexposeResponse { tunnel_id: TunnelId },
    /// Sent when a new remote stream wants to connect to an exposed connection.
    NewStreamRequest(TunnelledStreamId),
    /// Carries the data received from the remote stream.
    Data { id: TunnelledStreamId, bytes: Vec<u8> },
    /// Sent when the remote stream has terminated.
    StreamClosed { id: TunnelledStreamId, side: StreamSide },
}

/// Whether `a` and `b` are the same client message: the same variant with
/// equal fields (strings and byte vectors by their contents).
pub open spec fn same_client_message(a: ClientMessage, b: ClientMessage) -> bool {
    match (a, b) {
        (
            ClientMessage::AuthenticateRequest { api_key: k1 },
            ClientMessage::AuthenticateRequest { api_key: k2 },
        ) => k1@ == k2@,
        (
            ClientMessage::ExposeRequest { local_id: l1, kind: k1 },
            ClientMessage::ExposeRequest { local_id: l2, kind: k2 },
        ) => l1 == l2 && k1 == k2,
        (
            ClientMessage::UnexposeRequest { tunnel_id: t1 },
            ClientMessage::UnexposeRequest { tunnel_id: t2 },
        ) => t1 == t2,
        (
            ClientMessage::NewStreamResponse { id: i1, result: r1 },
            ClientMessage::NewStreamResponse { id: i2, result: r2 },
        ) => i1 == i2 && match (r1, r2) {
            (Ok(()), Ok(())) => true,
            (Err(e1), Err(e2)) => e1@ == e2@,
            _ => false,
        },
        (ClientMessage::Data { id: i1, bytes: b1 }, ClientMessage::Data { id: i2, bytes: b2 }) => i1
            == i2 && b1@ == b2@,
        (
            ClientMessage::StreamClosed { id: i1, side: s1 },
            ClientMessage::StreamClosed { id: i2, side: s2 },
        ) => i1 == i2 && s1 == s2,
        _ => false,
    }
}

/// Whether `a` and `b` are the same expose response, the URL by its text.
pub open spec fn same_expose_response(a: ExposeResponse, b: ExposeResponse) -> bool {
    a.local_id == b.local_id && a.tunnel_id == b.tunnel_id && a.url@ == b.url@
}

/// Whether `a` and `b` are the same server message: the same variant with
/// equal fields (strings and byte vectors by their contents).
pub open spec fn same_server_message(a: ServerMessage, b: ServerMessage) -> bool {
    match (a, b) {
        (ServerMessage::Unauthorized, ServerMessage::Unauthorized) => true,
        (ServerMessage::ExposeResponse(r1), ServerMessage::ExposeResponse(r2)) => match (r1, r2) {
            (Ok(x1), Ok(x2)) => same_expose_response(x1, x2),
            (Err(e1), Err(e2)) => e1@ == e2@,
            _ => false,
        },
        (
            ServerMessage::UnexposeResponse { tunnel_id: t1 },
            ServerMessage::UnexposeResponse { tunnel_id: t2 },
        ) => t1 == t2,
        (ServerMessage::NewStreamRequest(i1), ServerMessage::NewStreamRequest(i2)) => i1 == i2,
        (ServerMessage::Data { id: i1, bytes: b1 }, ServerMessage::Data { id: i2, bytes: b2 }) => i1
            == i2 && b1@ == b2@,
        (
            ServerMessage::StreamClosed { id: i1, side: s1 },
            ServerMessage::StreamClosed { id: i2, side: s2 },
        ) => i1 == i2 && s1 == s2,
        _ => false,
    }
}

fn clone_bytes(bytes: &Vec<u8>) -> (r: Vec<u8>)
    ensures
        r@ == bytes@,
{
    let r = bytes.clone();
    assert(r@ =~= bytes@);
    r
}

impl Clone for ClientMessage {
    fn clone(&self) -> (r: Self)
        ensures
            same_client_message(*self, r),
    {
        match self {
            ClientMessage::AuthenticateRequest { api_key } => ClientMessage::AuthenticateRequest {
                api_key: api_key.clone(),
            },
            ClientMessage::ExposeRequest { local_id, kind } => ClientMessage::ExposeRequest {
                local_id: *local_id,
                kind: *kind,
            },
            ClientMessage::UnexposeRequest { tunnel_id } => ClientMessage::UnexposeRequest {
                tunnel_id: *tunnel_id,
            },
            ClientMessage::NewStreamResponse { id, result } => ClientMessage::NewStreamResponse {
                id: *id,
                result: match result {
                    Ok(()) => Ok(()),
                    Err(e) => Err(e.clone()),
                },
            },
            ClientMessage::Data { id, bytes } => ClientMessage::Data { id: *id, bytes: clone_bytes(bytes) },
            ClientMessage::StreamClosed { id, side } => ClientMessage::StreamClosed {
                id: *id,
                side: *side,
            },
        }
    }
}

impl Clone for ServerMessage {
    fn clone(&self) -> (r: Self)
        ensures
            same_server_message(*self, r),
    {
        match self {
            ServerMessage::Unauthorized => ServerMessage::Unauthorized,
            ServerMessage::ExposeResponse(result) => ServerMessage::ExposeResponse(
                match result {
                    Ok(resp) => Ok(
                        ExposeResponse {
                            local_id: resp.local_id,
                            tunnel_id: resp.tunnel_id,
                            url: resp.url.clone(),
                        },
                    ),
                    Err(e) => Err(e.clone()),
                },
            ),
            ServerMessage::UnexposeResponse { tunnel_id } => ServerMessage::UnexposeResponse {
                tunnel_id: *tunnel_id,
            },
            ServerMessage::NewStreamRequest(id) => ServerMessage::NewStreamRequest(*id),
            ServerMessage::Data { id, bytes } => ServerMessage::Data { id: *id, bytes: clone_bytes(bytes) },
            ServerMessage::StreamClosed { id, side } => ServerMessage::StreamClosed {
                id: *id,
                side: *side,
            },
        }
    }
}

/// The hyphenated text of a UUID has 36 characters, with hyphens exactly at
/// positions 8, 13, 18 and 23 and lower-case hexadecimal digits elsewhere.
pub proof fn lemma_uuid_text_shape(v: u128)
    ensures
        uuid_hyphenated(v).len() == 36,
        uuid_hyphenated(v)[8] == '-' && uuid_hyphenated(v)[13] == '-',
        uuid_hyphenated(v)[18] == '-' && uuid_hyphenated(v)[23] == '-',
{
}

/// The value of a lower-case hexadecimal digit character.
pub open spec fn hex_value(c: char) -> int {
    if '0' <= c && c <= '9' {
        c as int - 48
    } else {
        c as int - 87
    }
}

/// The position, in the hyphenated text of a UUID, of its `d`-th
/// hexadecimal digit (skipping the hyphens at 8, 13, 18 and 23).
pub open spec fn uuid_text_position(d: int) -> int {
    if d < 8 {
        d
    } else if d < 12 {
        d + 1
    } else if d < 16 {
        d + 2
    } else if d < 20 {
        d + 3
    } else {
        d + 4
    }
}

/// The number that the first `k` hexadecimal digits of the hyphenated UUID
/// text `s` spell, most significant digit first.
pub open spec fn uuid_text_prefix_value(s: Seq<char>, k: nat) -> int
    decreases k,
{
    if k == 0 {
        0
    } else {
        uuid_text_prefix_value(s, (k - 1) as nat) * 16 + hex_value(s[uuid_text_position(k - 1)])
    }
}

/// The UUID value that a hyphenated UUID text spells: its 32 hexadecimal
/// digits read as one number.
pub open spec fn parse_uuid_text(s: Seq<char>) -> int {
    uuid_text_prefix_value(s, 32)
}

proof fn lemma_hex_value_of_hex_char(n: int)
    requires
        0 <= n < 16,
    ensures
        hex_value(hex_char(n)) == n,
{
}

proof fn lemma_pow2_four_step(j: nat)
    ensures
        pow2(4 * (j + 1)) == pow2(4 * j) * 16,
{
    lemma_pow2_adds(4 * j, 4);
    lemma2_to64();
    assert(4 * j + 4 == 4 * (j + 1));
}

proof fn lemma_uuid_text_prefix(v: u128, k: nat)
    requires
        k <= 32,
    ensures
        uuid_text_prefix_value(uuid_hyphenated(v), k) == (v as int) / (pow2((4 * (32 - k)) as nat) as int),
    decreases k,
{
    let p = pow2((4 * (32 - k)) as nat) as int;
    lemma_pow2_pos((4 * (32 - k)) as nat);
    if k == 0 {
        lemma2_to64();
        lemma_pow2_adds(64, 64);
        assert(p == 0x10000000000000000 * 0x10000000000000000);
        assert((v as int) < p);
        assert((v as int) / p == 0) by (nonlinear_arith)
            requires
                0 <= (v as int) < p,
        ;
    } else {
        lemma_uuid_text_prefix(v, (k - 1) as nat);
        let d = k - 1;
        let i = uuid_text_position(d);
        assert(uuid_digit_index(i) == d);
        assert(0 <= i < 36 && i != 8 && i != 13 && i != 18 && i != 23);
        let x = (v as int) / p;
        assert(uuid_hyphenated(v)[i] == hex_char(uuid_nibble(v, d)));
        assert(uuid_nibble(v, d) == x % 16) by {
            assert((4 * (31 - d)) as nat == (4 * (32 - k)) as nat);
        }
        lemma_hex_value_of_hex_char(x % 16);
        lemma_pow2_four_step((32 - k) as nat);
        assert((4 * (32 - (k - 1))) as nat == 4 * ((32 - k) as nat + 1));
        lemma_div_denominator(v as int, p, 16);
        assert((v as int) / (pow2((4 * (32 - (k - 1))) as nat) as int) == x / 16);
        lemma_fundamental_div_mod(x, 16);
    }
}

/// The text of an identifier reads back as the identifier: spelling the 32
/// hexadecimal digits of a UUID's hyphenated text gives its value again, so
/// distinct identifiers are shown by distinct texts.
pub proof fn lemma_uuid_text_parses_back(v: u128)
    ensures
        parse_uuid_text(uuid_hyphenated(v)) == v as int,
{
    lemma_uuid_text_prefix(v, 32);
    assert((4 * (32 - 32nat)) as nat == 0nat);
    assert(pow2(0) == 1) by {
        lemma2_to64();
    }
    assert((v as int) / 1 == v as int);
}

} // verus!
