//! The conversation with one client.
use vstd::prelude::*;

verus! {

/// What was read from a client.
#[derive(Debug, Clone, Copy, PartialEq, Eq, Structural)]
pub enum Received {
    /// The client has closed the conversation.
    End,
    /// Reading failed.
    Failed,
    /// Something that is no request.
    Unparsable,
    /// A request.
    Request,
}

/// What came of sending an answer.
#[derive(Debug, Clone, Copy, PartialEq, Eq, Structural)]
pub enum Sent {
    /// It was sent.
    Written,
    /// The client did not take it.
    Failed,
    /// It could not be put into words.
    Unserializable,
}

/// What is done next in a conversation.
#[derive(Debug, Clone, Copy, PartialEq, Eq, Structural)]
pub enum Talk {
    /// The conversation ends.
    Close,
    /// The next request is read.
    Read,
    /// The request is answered.
    Answer,
}

/// What a reading is taken for.
pub open spec fn taken_as(count: usize, parsed: bool) -> Received {
    if count == 0 {
        Received::End
    } else if parsed {
        Received::Request
    } else {
        Received::Unparsable
    }
}

/// What follows what was read.
pub open spec fn follows_read(what: Received) -> Talk {
    match what {
        Received::End | Received::Failed => Talk::Close,
        Received::Unparsable => Talk::Read,
        Received::Request => Talk::Answer,
    }
}

/// What follows an answer.
pub open spec fn follows_answer(what: Sent) -> Talk {
    if what == Sent::Written {
        Talk::Read
    } else {
        Talk::Close
    }
}

/// Every request is answered, and nothing else is. The conversation ends exactly where the client has
/// closed it, reading failed or an answer did not reach the client; otherwise the next request is
/// read.
pub proof fn law_every_request_is_answered(count: usize, parsed: bool, what: Received, sent: Sent)
    ensures
        follows_read(taken_as(count, parsed)) is Answer <==> count > 0 && parsed,
        follows_read(taken_as(count, parsed)) is Close <==> count == 0,
        follows_read(what) is Answer <==> what is Request,
        follows_read(what) is Close <==> what is End || what is Failed,
        follows_answer(sent) is Read <==> sent is Written,
        follows_answer(sent) is Close <==> !(sent is Written),
{
}

/// What a reading of some bytes, or of none, is taken for.
pub fn received(count: usize, parsed: bool) -> (r: Received)
    ensures
        r == (if count == 0 {
            Received::End
        } else if parsed {
            Received::Request
        } else {
            Received::Unparsable
        }),
        r == taken_as(count, parsed),
{
    if count == 0 {
        Received::End
    } else if parsed {
        Received::Request
    } else {
        Received::Unparsable
    }
}

/// Decides what follows what was read. What is no request is passed over.
pub fn after_read(what: Received) -> (r: Talk)
    ensures
        r == (match what {
            Received::End | Received::Failed => Talk::Close,
            Received::Unparsable => Talk::Read,
            Received::Request => Talk::Answer,
        }),
        r == follows_read(what),
{
    match what {
        Received::End | Received::Failed => Talk::Close,
        Received::Unparsable => Talk::Read,
        Received::Request => Talk::Answer,
    }
}

/// Decides what follows an answer.
pub fn after_answer(what: Sent) -> (r: Talk)
    ensures
        r == (if what == Sent::Written {
            Talk::Read
        } else {
            Talk::Close
        }),
        r == follows_answer(what),
{
    match what {
        Sent::Written => Talk::Read,
        Sent::Failed | Sent::Unserializable => Talk::Close,
    }
}

} // verus!
