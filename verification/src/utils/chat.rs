//! The chat request/response protocol: its name, its messages and the codec
//! that frames them.
use crate::utils::frame::{decode_frame, encode_frame, frame, frame_decoding, FrameError};
use vstd::prelude::*;

verus! {

/// The request/response protocol spoken between chat peers.
#[derive(Clone, Copy, Debug)]
pub struct ChatProtocol;

/// The name under which the chat protocol is negotiated.
pub open spec fn chat_protocol_name() -> Seq<char> {
    "/p2p/chat/request/1.0.0"@
}

impl ChatProtocol {
    /// The name under which the chat protocol is negotiated.
    pub fn protocol_name(&self) -> (name: &'static str)
        ensures
            name@ == chat_protocol_name(),
    {
        "/p2p/chat/request/1.0.0"
    }
}

/// A chat request: the raw bytes sent to a peer.
#[derive(Clone, Debug)]
pub struct ChatRequest(pub Vec<u8>);

/// A chat response: the raw bytes a peer answers with.
#[derive(Clone, Debug)]
pub struct ChatResponse(pub Vec<u8>);

impl View for ChatRequest {
    type V = Seq<u8>;

    open spec fn view(&self) -> Seq<u8> {
        self.0@
    }
}

impl View for ChatResponse {
    type V = Seq<u8>;

    open spec fn view(&self) -> Seq<u8> {
        self.0@
    }
}

/// Frames chat requests and responses on a substream: each message is its
/// length as a four-byte big-endian number, then its bytes. A message read
/// with a zero length is refused, for requests and responses alike.
#[derive(Clone, Copy, Debug)]
pub struct ChatCodec;

impl ChatCodec {
    /// Reads one request from the start of `buf`: the request and the number
    /// of bytes it took. Fails with `UnexpectedEof` where `buf` ends before
    /// the length field or the payload, and with `EmptyMessage` where the
    /// length field is zero.
    pub fn read_request(&mut self, _protocol: &ChatProtocol, buf: &[u8]) -> (res: Result<
        (ChatRequest, usize),
        FrameError,
    >)
        ensures
            *final(self) == *old(self),
            match frame_decoding(buf@) {
                Ok((payload, used)) => res matches Ok((request, n)) && request@ == payload && n
                    == used,
                Err(e) => res == Err::<(ChatRequest, usize), FrameError>(e),
            },
            res matches Ok((request, n)) ==> buf@.len() >= 4 && n == 4 + buf@[0] * 0x100_0000
                + buf@[1] * 0x1_0000 + buf@[2] * 0x100 + buf@[3] && request@ == buf@.subrange(
                4,
                n as int,
            ),
    {
        match decode_frame(buf) {
            Ok((payload, n)) => Ok((ChatRequest(payload), n)),
            Err(e) => Err(e),
        }
    }

    /// The bytes that carry `request`: its length field, then its payload.
    pub fn write_request(&mut self, _protocol: &ChatProtocol, request: ChatRequest) -> (bytes:
        Vec<u8>)
        ensures
            *final(self) == *old(self),
            bytes@ == frame(request@),
            bytes@.len() == 4 + request@.len(),
            bytes@.subrange(4, bytes@.len() as int) == request@,
            bytes@[0] * 0x100_0000 + bytes@[1] * 0x1_0000 + bytes@[2] * 0x100 + bytes@[3]
                == request@.len() % 0x1_0000_0000,
    {
        encode_frame(request.0.as_slice())
    }

    /// Reads one response from the start of `buf`: the response and the
    /// number of bytes it took. Fails with `UnexpectedEof` where `buf` ends
    /// before the length field or the payload, and with `EmptyMessage` where
    /// the length field is zero.
    pub fn read_response(&mut self, _protocol: &ChatProtocol, buf: &[u8]) -> (res: Result<
        (ChatResponse, usize),
        FrameError,
    >)
        ensures
            *final(self) == *old(self),
            match frame_decoding(buf@) {
                Ok((payload, used)) => res matches Ok((response, n)) && response@ == payload && n
                    == used,
                Err(e) => res == Err::<(ChatResponse, usize), FrameError>(e),
            },
            res matches Ok((response, n)) ==> buf@.len() >= 4 && n == 4 + buf@[0] * 0x100_0000
                + buf@[1] * 0x1_0000 + buf@[2] * 0x100 + buf@[3] && response@ == buf@.subrange(
                4,
                n as int,
            ),
    {
        match decode_frame(buf) {
            Ok((payload, n)) => Ok((ChatResponse(payload), n)),
            Err(e) => Err(e),
        }
    }

    /// The bytes that carry `response`: its length field, then its payload.
    pub fn write_response(&mut self, _protocol: &ChatProtocol, response: ChatResponse) -> (bytes:
        Vec<u8>)
        ensures
            *final(self) == *old(self),
            bytes@ == frame(response@),
            bytes@.len() == 4 + response@.len(),
            bytes@.subrange(4, bytes@.len() as int) == response@,
            bytes@[0] * 0x100_0000 + bytes@[1] * 0x1_0000 + bytes@[2] * 0x100 + bytes@[3]
                == response@.len() % 0x1_0000_0000,
    {
        encode_frame(response.0.as_slice())
    }
}

/// A message exchanged between chat peers.
#[derive(Clone, Copy, Debug, PartialEq, Eq, Structural)]
pub enum Message {
    Ping(PingMessage),
    Pong(PongMessage),
    Chat(ChatMessage),
    Request(RequestMessage),
    Response(ResponseMessage),
}

/// A ping, identified by its number.
#[derive(Clone, Copy, Debug, PartialEq, Eq, Structural)]
pub struct PingMessage {
    id: u64,
}

/// A pong, identified by its number.
#[derive(Clone, Copy, Debug, PartialEq, Eq, Structural)]
pub struct PongMessage {
    id: u64,
}

/// A chat message, identified by its number.
#[derive(Clone, Copy, Debug, PartialEq, Eq, Structural)]
pub struct ChatMessage {
    id: u64,
}

/// A request message, identified by its number.
#[derive(Clone, Copy, Debug, PartialEq, Eq, Structural)]
pub struct RequestMessage {
    id: u64,
}

/// A response message, identified by its number.
#[derive(Clone, Copy, Debug, PartialEq, Eq, Structural)]
pub struct ResponseMessage {
    id: u64,
}

impl View for PingMessage {
    type V = u64;

    /// The number that identifies the message.
    closed spec fn view(&self) -> u64 {
        self.id
    }
}

impl PingMessage {
    /// The ping numbered `id`.
    pub fn new(id: u64) -> (m: Self)
        ensures
            m@ == id,
    {
        PingMessage { id }
    }

    /// The number of this ping.
    pub fn id(&self) -> (id: u64)
        ensures
            id == self@,
    {
        self.id
    }
}

impl View for PongMessage {
    type V = u64;

    /// The number that identifies the message.
    closed spec fn view(&self) -> u64 {
        self.id
    }
}

impl PongMessage {
    /// The pong numbered `id`.
    pub fn new(id: u64) -> (m: Self)
        ensures
            m@ == id,
    {
        PongMessage { id }
    }

    /// The number of this pong.
    pub fn id(&self) -> (id: u64)
        ensures
            id == self@,
    {
        self.id
    }
}

impl View for ChatMessage {
    type V = u64;

    /// The number that identifies the message.
    closed spec fn view(&self) -> u64 {
        self.id
    }
}

impl ChatMessage {
    /// The chat message numbered `id`.
    pub fn new(id: u64) -> (m: Self)
        ensures
            m@ == id,
    {
        ChatMessage { id }
    }

    /// The number of this chat message.
    pub fn id(&self) -> (id: u64)
        ensures
            id == self@,
    {
        self.id
    }
}

impl View for RequestMessage {
    type V = u64;

    /// The number that identifies the message.
    closed spec fn view(&self) -> u64 {
        self.id
    }
}

impl RequestMessage {
    /// The request message numbered `id`.
    pub fn new(id: u64) -> (m: Self)
        ensures
            m@ == id,
    {
        RequestMessage { id }
    }

    /// The number of this request message.
    pub fn id(&self) -> (id: u64)
        ensures
            id == self@,
    {
        self.id
    }
}

impl View for ResponseMessage {
    type V = u64;

    /// The number that identifies the message.
    closed spec fn view(&self) -> u64 {
        self.id
    }
}

impl ResponseMessage {
    /// The response message numbered `id`.
    pub fn new(id: u64) -> (m: Self)
        ensures
            m@ == id,
    {
        ResponseMessage { id }
    }

    /// The number of this response message.
    pub fn id(&self) -> (id: u64)
        ensures
            id == self@,
    {
        self.id
    }
}

} // verus!
