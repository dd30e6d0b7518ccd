//! How the node answers what happens on the chat request/response protocol.
use crate::utils::chat::{ChatRequest, ChatResponse};
use vstd::prelude::*;

verus! {

/// What the request/response protocol reports about chat traffic.
pub enum ChatEvent {
    /// A peer sent a request, which awaits an answer.
    Request(ChatRequest),
    /// A peer answered a request of ours.
    Response(ChatResponse),
    /// Anything else: a failed request, a sent response and the like.
    Other,
}

/// What the node does about a chat event.
pub enum ChatAction {
    /// Answer the pending request with this response.
    Respond(ChatResponse),
    /// Nothing to send.
    Ignore,
}

/// The bytes of the answer to every chat request: the ASCII text "PONG".
pub open spec fn pong_bytes() -> Seq<u8> {
    seq![0x50u8, 0x4fu8, 0x4eu8, 0x47u8]
}

/// The answer to a chat request: "PONG".
pub fn pong_response() -> (response: ChatResponse)
    ensures
        response@ == pong_bytes(),
{
    let bytes: Vec<u8> = vec![0x50u8, 0x4fu8, 0x4eu8, 0x47u8];
    assert(bytes@ =~= pong_bytes());
    ChatResponse(bytes)
}

/// Decides what to do about a chat event: every request, whatever it holds,
/// is answered with "PONG"; responses and other events call for nothing.
pub fn handle_chat_event(event: ChatEvent) -> (action: ChatAction)
    ensures
        event is Request ==> (action matches ChatAction::Respond(response) && response@
            == pong_bytes()),
        !(event is Request) ==> action is Ignore,
{
    match event {
        ChatEvent::Request(_request) => ChatAction::Respond(pong_response()),
        ChatEvent::Response(_response) => ChatAction::Ignore,
        ChatEvent::Other => ChatAction::Ignore,
    }
}

} // verus!
