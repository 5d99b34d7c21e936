//! What the two feed handlers share: the kinds of message a venue sends,
//! the outcome of handling one, and the ways a message can be unusable.

use crate::json::text_of;
use crate::types::Orderbook;
use vstd::prelude::*;
use vstd::string::StringExecFns;

verus! {

/// Why a message could not be handled.
#[derive(Debug, Clone, Copy, PartialEq, Eq, Structural)]
pub enum FeedError {
    /// The message is not a JSON document.
    InvalidJson,
    /// A venue-A book message names no ticker.
    MissingTicker,
    /// A venue-B book message names no outcome token.
    MissingToken,
}

impl FeedError {
    /// The error in words.
    pub open spec fn message(self) -> Seq<char> {
        match self {
            FeedError::InvalidJson => "Failed to parse JSON"@,
            FeedError::MissingTicker => "Missing ticker"@,
            FeedError::MissingToken => "Missing market/token_id"@,
        }
    }

    /// The error as text.
    pub fn to_string(&self) -> (text: String)
        ensures
            text@ == self.message(),
    {
        match self {
            FeedError::InvalidJson => String::from_str("Failed to parse JSON"),
            FeedError::MissingTicker => String::from_str("Missing ticker"),
            FeedError::MissingToken => String::from_str("Missing market/token_id"),
        }
    }
}

/// The kinds of message a venue sends.
#[derive(Debug, Clone, Copy, PartialEq, Eq, Structural)]
pub enum MessageKind {
    /// A best-ask update of one market.
    Book,
    /// The venue confirms a subscription.
    Subscribed,
    /// The venue reports an error.
    Error,
    /// Anything else, a message without a kind included.
    Unknown,
}

/// The kind that a message's tag stands for on a venue whose book updates
/// are tagged `book_tag`.
pub open spec fn kind_of(tag: Option<Seq<char>>, book_tag: Seq<char>) -> MessageKind {
    match tag {
        None => MessageKind::Unknown,
        Some(t) => if t == book_tag {
            MessageKind::Book
        } else if t == "subscribed"@ {
            MessageKind::Subscribed
        } else if t == "error"@ {
            MessageKind::Error
        } else {
            MessageKind::Unknown
        },
    }
}

/// Classifies a message by its tag.
pub fn message_kind(tag: Option<&str>, book_tag: &str) -> (kind: MessageKind)
    ensures
        kind == kind_of(text_of(tag), book_tag@),
{
    match tag {
        None => MessageKind::Unknown,
        Some(t) => {
            if t.eq(book_tag) {
                MessageKind::Book
            } else if t.eq("subscribed") {
                MessageKind::Subscribed
            } else if t.eq("error") {
                MessageKind::Error
            } else {
                MessageKind::Unknown
            }
        },
    }
}

/// The kinds of frame a feed connection delivers.
#[derive(Debug, Clone, Copy, PartialEq, Eq, Structural)]
pub enum FrameKind {
    /// A text frame: one message of the venue.
    Text,
    /// A ping.
    Ping,
    /// The venue closes the connection.
    Close,
    /// The connection failed.
    Failure,
    /// Any other frame.
    Other,
}

/// What a feed does with a frame.
#[derive(Debug, Clone, Copy, PartialEq, Eq, Structural)]
pub enum FrameAction {
    /// Handle the message; a message that cannot be handled is reported
    /// and the feed goes on.
    Handle,
    /// Answer with a pong that carries the ping's payload.
    Pong,
    /// Leave the connection; it is opened again after the fixed delay.
    Stop,
    /// Go on to the next frame.
    Skip,
}

/// What a feed does with a frame of the given kind: a message is
/// handled, a ping answered, a close or a failure ends the connection,
/// and anything else is passed over.
pub open spec fn frame_action(kind: FrameKind) -> FrameAction {
    match kind {
        FrameKind::Text => FrameAction::Handle,
        FrameKind::Ping => FrameAction::Pong,
        FrameKind::Close | FrameKind::Failure => FrameAction::Stop,
        FrameKind::Other => FrameAction::Skip,
    }
}

/// Decides what a feed does with a frame.
pub fn on_frame(kind: FrameKind) -> (action: FrameAction)
    ensures
        action == frame_action(kind),
{
    match kind {
        FrameKind::Text => FrameAction::Handle,
        FrameKind::Ping => FrameAction::Pong,
        FrameKind::Close => FrameAction::Stop,
        FrameKind::Failure => FrameAction::Stop,
        FrameKind::Other => FrameAction::Skip,
    }
}

/// What handling a message came to.
#[derive(Debug, Clone, Copy, PartialEq, Eq, Structural)]
pub enum FeedEvent {
    /// The book of market `market` on the feed's venue was replaced by
    /// `book`.
    BookUpdated { market: usize, book: Orderbook },
    /// The update's routing key names no tracked market; it was dropped.
    Untracked,
    /// The venue confirmed a subscription.
    Subscribed,
    /// The venue reported an error.
    VenueError,
    /// A message of a kind that is not handled.
    Unknown,
}

} // verus!
