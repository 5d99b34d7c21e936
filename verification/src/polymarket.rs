//! Venue-B feed: best-ask updates keyed by outcome token.
//!
//! A book message names one outcome token and lists that outcome's asks,
//! best first, with price and size written as decimal text in dollars.
//! The handler finds the token and the best ask's two texts; once they
//! are turned into cents, the update is applied to the side of the book
//! that the token stands for. An ask without a usable price is written as
//! "no price".

use crate::feed::{kind_of, message_kind, FeedError, FeedEvent, MessageKind};
use crate::json::{
    json_view, member, parse_document, parsed_json, text_member, text_of, JsonValue,
};
use crate::shared::{load_book, store_book};
use crate::store::{token_routes_to, tracks_token, MarketStateStore};
use crate::types::{Orderbook, PriceCents, SizeCents, MAX_PRICE, NO_PRICE};
use serde_json::Value;
use vstd::prelude::*;

verus! {

/// The best ask of one outcome token as the venue wrote it: price and
/// size are the decimal texts of the first ask, where it has them.
#[derive(Debug, Clone)]
pub struct BookQuote {
    pub token_id: String,
    pub price: Option<String>,
    pub size: Option<String>,
}

/// What a venue-B message asks for.
#[derive(Debug, Clone)]
pub enum PolymarketMessage {
    /// A best-ask update, still to be applied.
    Book(BookQuote),
    /// The venue confirmed a subscription.
    Subscribed,
    /// The venue reported an error.
    VenueError,
    /// A message of a kind that is not handled.
    Unknown,
}

/// The view of an optional owned text.
pub open spec fn owned_text_of(text: Option<String>) -> Option<Seq<char>> {
    match text {
        Some(characters) => Some(characters@),
        None => None,
    }
}

/// An owned copy of an optional text.
fn to_owned_text(text: Option<&str>) -> (owned: Option<String>)
    ensures
        owned_text_of(owned) == text_of(text),
{
    match text {
        Some(characters) => Some(characters.to_owned()),
        None => None,
    }
}

/// `quote` is what a book message with the given token and best-ask
/// texts comes to: an error without a token, else the three texts.
pub open spec fn is_book_quote(
    quote: Result<BookQuote, FeedError>,
    token: Option<Seq<char>>,
    price: Option<Seq<char>>,
    size: Option<Seq<char>>,
) -> bool {
    match token {
        None => quote matches Err(e) && e == FeedError::MissingToken,
        Some(t) => quote matches Ok(q) && q.token_id@ == t && owned_text_of(q.price) == price
            && owned_text_of(q.size) == size,
    }
}

/// Puts together the quote of a book message from what the message
/// holds. A message without a token is an error.
pub fn book_quote(token: Option<&str>, price: Option<&str>, size: Option<&str>) -> (quote: Result<
    BookQuote,
    FeedError,
>)
    ensures
        is_book_quote(quote, text_of(token), text_of(price), text_of(size)),
{
    match token {
        Some(t) => Ok(
            BookQuote { token_id: t.to_owned(), price: to_owned_text(price), size: to_owned_text(size) },
        ),
        None => Err(FeedError::MissingToken),
    }
}

/// The first of a message's asks, if `asks` is a list that has one.
pub open spec fn best_ask(msg: JsonValue) -> Option<JsonValue> {
    match msg.member("asks"@) {
        Some(asks) => match asks.elements() {
            Some(items) => if items.len() > 0 {
                Some(items[0])
            } else {
                None
            },
            None => None,
        },
        None => None,
    }
}

/// The text member `key` of a message's first ask.
pub open spec fn best_ask_text(msg: JsonValue, key: Seq<char>) -> Option<Seq<char>> {
    match best_ask(msg) {
        Some(order) => order.text_member(key),
        None => None,
    }
}

/// `quote` is what the venue-B book message `msg` comes to: the quote
/// made of the message's token and of the price and size of its first
/// ask.
pub open spec fn is_book_reading(quote: Result<BookQuote, FeedError>, msg: JsonValue) -> bool {
    is_book_quote(
        quote,
        msg.text_member("market"@),
        best_ask_text(msg, "price"@),
        best_ask_text(msg, "size"@),
    )
}

/// Reads the quote off a venue-B book message: the token, and price and
/// size of the first ask.
pub fn handle_book_update(msg: &Value) -> (quote: Result<BookQuote, FeedError>)
    ensures
        is_book_reading(quote, json_view(*msg)),
{
    let token = text_member(msg, "market");
    let asks = match member(msg, "asks") {
        Some(asks) => asks.as_array(),
        None => None,
    };
    let best = match asks {
        Some(asks) => if asks.len() > 0 {
            Some(&asks[0])
        } else {
            None
        },
        None => None,
    };
    let (price, size) = match best {
        Some(order) => (text_member(order, "price"), text_member(order, "size")),
        None => (None, None),
    };
    book_quote(token, price, size)
}

/// `outcome` is what a venue-B message comes to, given the document that
/// its text writes: an error for text that is not JSON; the quote for a
/// message tagged `book`; for every other message only its kind.
pub open spec fn is_polymarket_reading(
    outcome: Result<PolymarketMessage, FeedError>,
    document: Option<JsonValue>,
) -> bool {
    match document {
        None => outcome matches Err(e) && e == FeedError::InvalidJson,
        Some(msg) => match kind_of(msg.text_member("event_type"@), "book"@) {
            MessageKind::Book => match outcome {
                Ok(PolymarketMessage::Book(quote)) => is_book_reading(Ok(quote), msg),
                Ok(_) => false,
                Err(e) => is_book_reading(Err(e), msg),
            },
            MessageKind::Subscribed => outcome matches Ok(PolymarketMessage::Subscribed),
            MessageKind::Error => outcome matches Ok(PolymarketMessage::VenueError),
            MessageKind::Unknown => outcome matches Ok(PolymarketMessage::Unknown),
        },
    }
}

/// Handles one incoming venue-B message: says what kind it is and, for a
/// book update, what it quotes. Text that is not JSON is an error, and
/// so is a book update without a token.
pub fn handle_polymarket_message(text: &str) -> (outcome: Result<PolymarketMessage, FeedError>)
    ensures
        is_polymarket_reading(outcome, parsed_json(text@)),
{
    let msg = match parse_document(text) {
        Ok(msg) => msg,
        Err(_) => return Err(FeedError::InvalidJson),
    };
    let tag = text_member(&msg, "event_type");
    match message_kind(tag, "book") {
        MessageKind::Book => match handle_book_update(&msg) {
            Ok(quote) => Ok(PolymarketMessage::Book(quote)),
            Err(e) => Err(e),
        },
        MessageKind::Subscribed => Ok(PolymarketMessage::Subscribed),
        MessageKind::Error => Ok(PolymarketMessage::VenueError),
        MessageKind::Unknown => Ok(PolymarketMessage::Unknown),
    }
}

/// The price that a best ask is written with: no price where the quote
/// had no usable price, and never above the highest valid quote.
pub open spec fn quoted_price(price: Option<PriceCents>) -> PriceCents {
    match price {
        Some(cents) => if cents > MAX_PRICE {
            MAX_PRICE
        } else {
            cents
        },
        None => NO_PRICE,
    }
}

/// The size that a best ask is written with: no depth where the quote
/// had no usable size.
pub open spec fn quoted_size(size: Option<SizeCents>) -> SizeCents {
    match size {
        Some(cents) => cents,
        None => 0,
    }
}

/// `book` is some book after a best-ask update of one outcome: that
/// outcome holds the given price and size.
pub open spec fn is_side_update(
    book: Orderbook,
    is_yes: bool,
    price: PriceCents,
    size: SizeCents,
) -> bool {
    exists|before: Orderbook| book == #[trigger] before.spec_with_side(is_yes, price, size)
}

/// Applies a best-ask update of one outcome token to the store: in the
/// venue-B book of the first market that has the token, the price and
/// size of the token's outcome are replaced and the other outcome is
/// left as it was. A quote without a usable price is written as "no
/// price", so that no stale price stays on that side, and a price above
/// 99 cents is written as 99. A token that stands for both outcomes of
/// its market counts as YES. An update for a token that no market has is
/// dropped.
///
/// The book is read under one acquisition of its lock and written under
/// another. Nothing is lost by that as long as this venue's feed is the
/// only writer of the book, which is how the books are meant to be used:
/// no other write can fall between the two.
pub fn apply_book_update(
    markets: &MarketStateStore,
    token_id: &str,
    price: Option<PriceCents>,
    size: Option<SizeCents>,
) -> (event: FeedEvent)
    ensures
        match event {
            FeedEvent::BookUpdated { market, book } => {
                let is_yes = markets@[market as int].poly_yes_token == token_id@;
                &&& token_routes_to(markets@, token_id@, market as int)
                &&& is_side_update(book, is_yes, quoted_price(price), quoted_size(size))
                &&& is_yes ==> book.yes_ask == quoted_price(price) && book.yes_ask <= MAX_PRICE
                    && book.yes_size == quoted_size(size)
                &&& !is_yes ==> book.no_ask == quoted_price(price) && book.no_ask <= MAX_PRICE
                    && book.no_size == quoted_size(size)
            },
            FeedEvent::Untracked => !tracks_token(markets@, token_id@),
            _ => false,
        },
{
    let market = match markets.route_token(token_id) {
        Some(i) => i,
        None => return FeedEvent::Untracked,
    };
    let state = markets.get(market);
    let is_yes = state.pair.poly_yes_token.as_str().eq(token_id);
    let written_price = match price {
        Some(cents) => if cents > MAX_PRICE {
            MAX_PRICE
        } else {
            cents
        },
        None => NO_PRICE,
    };
    let written_size = match size {
        Some(cents) => cents,
        None => 0,
    };
    let before = load_book(&state.poly);
    let book = before.with_side(is_yes, written_price, written_size);
    store_book(&state.poly, book);
    FeedEvent::BookUpdated { market, book }
}

} // verus!
