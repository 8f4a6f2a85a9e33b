//! What comes of asking the daemon.
use crate::protocol;
use crate::protocol::ServerResponse;
use crate::text;
use vstd::prelude::*;

verus! {

/// What came of a request.
#[derive(Debug)]
pub enum Exchange {
    /// The daemon does not listen.
    NotConnected,
    /// The request could not be put into words, and why.
    Unserializable(String),
    /// The request could not be sent.
    NotSent,
    /// The answer could not be read, and why.
    ReadFailed(String),
    /// The answer is empty.
    Empty,
    /// The answer cannot be understood, and why.
    Unparsable(String),
    /// The daemon answered.
    Answered(ServerResponse),
}

/// What an [`Exchange`] is taken for: whatever fails is an error of its own.
pub open spec fn taken_for(exchange: Exchange) -> protocol::ResponseView {
    match exchange {
        Exchange::NotConnected => protocol::ResponseView::Error("Daemon not running!"@),
        Exchange::Unserializable(e) => protocol::ResponseView::Error(
            "Serialization error: "@ + e@,
        ),
        Exchange::NotSent => protocol::ResponseView::Error("Failed to send request"@),
        Exchange::ReadFailed(e) => protocol::ResponseView::Error("Read error: "@ + e@),
        Exchange::Empty => protocol::ResponseView::Error("Empty response"@),
        Exchange::Unparsable(e) => protocol::ResponseView::Error("Parse error: "@ + e@),
        Exchange::Answered(r) => r@,
    }
}

/// The answer to a request, whatever came of it.
pub fn send_req(exchange: Exchange) -> (r: ServerResponse)
    ensures
        r@ == taken_for(exchange),
{
    match exchange {
        Exchange::NotConnected => ServerResponse::Error("Daemon not running!".to_owned()),
        Exchange::Unserializable(e) => ServerResponse::Error(
            text::cat2("Serialization error: ", &e),
        ),
        Exchange::NotSent => ServerResponse::Error("Failed to send request".to_owned()),
        Exchange::ReadFailed(e) => ServerResponse::Error(text::cat2("Read error: ", &e)),
        Exchange::Empty => ServerResponse::Error("Empty response".to_owned()),
        Exchange::Unparsable(e) => ServerResponse::Error(text::cat2("Parse error: ", &e)),
        Exchange::Answered(r) => r,
    }
}

} // verus!
