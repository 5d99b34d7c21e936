//! Venue-A feed: orderbook updates keyed by market ticker.
//!
//! A book message carries the best ask and its size for both outcomes, in
//! cents. A price that is missing, not an integer or not a valid quote
//! counts as "no price", so that the store only ever holds the sentinel
//! or a quote of 1 to 99 cents.

use crate::feed::{kind_of, message_kind, FeedError, FeedEvent, MessageKind};
use crate::json::{
    integer_member, json_view, parse_document, parsed_json, text_member, text_of, JsonValue,
};
use crate::shared::store_book;
use crate::store::{ticker_routes_to, tracks_ticker, MarketStateStore};
use crate::types::{MarketPairView, Orderbook, PriceCents, SizeCents, MAX_PRICE, NO_PRICE};
use serde_json::Value;
use vstd::prelude::*;

verus! {

/// The price that a number on the wire stands for: the number itself if
/// it is a valid quote of 1 to 99 cents, and no price for a missing
/// number and for any other number.
pub open spec fn wire_price(number: Option<i64>) -> PriceCents {
    match number {
        Some(n) => if 1 <= n <= MAX_PRICE {
            n as PriceCents
        } else {
            NO_PRICE
        },
        None => NO_PRICE,
    }
}

/// The size that a number on the wire stands for: no depth for a missing
/// or negative number, and the largest size that can be held for a number
/// beyond it.
pub open spec fn wire_size(number: Option<i64>) -> SizeCents {
    match number {
        Some(n) => if n < 0 {
            0
        } else if n > SizeCents::MAX {
            SizeCents::MAX
        } else {
            n as SizeCents
        },
        None => 0,
    }
}

/// Reads a price off the wire.
pub fn price_from_wire(number: Option<i64>) -> (price: PriceCents)
    ensures
        price == wire_price(number),
        price <= MAX_PRICE,
{
    match number {
        Some(n) => if 1 <= n && n <= MAX_PRICE as i64 {
            n as PriceCents
        } else {
            NO_PRICE
        },
        None => NO_PRICE,
    }
}

/// Reads a size off the wire.
pub fn size_from_wire(number: Option<i64>) -> (size: SizeCents)
    ensures
        size == wire_size(number),
{
    match number {
        Some(n) => if n < 0 {
            0
        } else if n > SizeCents::MAX as i64 {
            SizeCents::MAX
        } else {
            n as SizeCents
        },
        None => 0,
    }
}

/// The book that a venue-A update carries.
pub open spec fn delta_book(
    yes_ask: Option<i64>,
    no_ask: Option<i64>,
    yes_size: Option<i64>,
    no_size: Option<i64>,
) -> Orderbook {
    Orderbook {
        yes_ask: wire_price(yes_ask),
        no_ask: wire_price(no_ask),
        yes_size: wire_size(yes_size),
        no_size: wire_size(no_size),
    }
}

/// Whatever an update carries, the asks of its book are the sentinel or
/// valid quotes.
pub proof fn lemma_delta_book_is_valid(
    yes_ask: Option<i64>,
    no_ask: Option<i64>,
    yes_size: Option<i64>,
    no_size: Option<i64>,
)
    ensures
        delta_book(yes_ask, no_ask, yes_size, no_size).prices_valid(),
{
}

/// `outcome` is what a venue-A update with the given fields comes to for
/// the markets `pairs`: an error without a ticker; dropped when no market
/// is listed under the ticker; else the update's book, for the first
/// market listed under the ticker.
pub open spec fn is_delta_outcome(
    outcome: Result<FeedEvent, FeedError>,
    pairs: Seq<MarketPairView>,
    ticker: Option<Seq<char>>,
    yes_ask: Option<i64>,
    no_ask: Option<i64>,
    yes_size: Option<i64>,
    no_size: Option<i64>,
) -> bool {
    match ticker {
        None => outcome matches Err(e) && e == FeedError::MissingTicker,
        Some(t) => match outcome {
            Ok(FeedEvent::BookUpdated { market, book }) => ticker_routes_to(pairs, t, market as int)
                && book == delta_book(yes_ask, no_ask, yes_size, no_size),
            Ok(FeedEvent::Untracked) => !tracks_ticker(pairs, t),
            _ => false,
        },
    }
}

/// Applies a venue-A update to the store: the book of the first market
/// listed under the ticker is replaced by the update's book. An update
/// without a ticker is an error; one for a ticker that no market is
/// listed under is dropped.
pub fn apply_orderbook_delta(
    markets: &MarketStateStore,
    ticker: Option<&str>,
    yes_ask: Option<i64>,
    no_ask: Option<i64>,
    yes_size: Option<i64>,
    no_size: Option<i64>,
) -> (outcome: Result<FeedEvent, FeedError>)
    ensures
        is_delta_outcome(outcome, markets@, text_of(ticker), yes_ask, no_ask, yes_size, no_size),
        outcome matches Ok(FeedEvent::BookUpdated { market, book }) ==> book.prices_valid(),
{
    let ticker = match ticker {
        Some(t) => t,
        None => return Err(FeedError::MissingTicker),
    };
    let market = match markets.route_ticker(ticker) {
        Some(i) => i,
        None => return Ok(FeedEvent::Untracked),
    };
    let book = Orderbook {
        yes_ask: price_from_wire(yes_ask),
        no_ask: price_from_wire(no_ask),
        yes_size: size_from_wire(yes_size),
        no_size: size_from_wire(no_size),
    };
    store_book(&markets.get(market).kalshi, book);
    Ok(FeedEvent::BookUpdated { market, book })
}

/// `outcome` is what the venue-A book message `msg` comes to: the update
/// made of the message's ticker, asks and ask sizes.
pub open spec fn is_delta_reading(
    outcome: Result<FeedEvent, FeedError>,
    pairs: Seq<MarketPairView>,
    msg: JsonValue,
) -> bool {
    is_delta_outcome(
        outcome,
        pairs,
        msg.text_member("ticker"@),
        msg.integer_member("yes_ask"@),
        msg.integer_member("no_ask"@),
        msg.integer_member("yes_ask_size"@),
        msg.integer_member("no_ask_size"@),
    )
}

/// Handles a venue-A orderbook update: reads the ticker, the two asks and
/// their sizes off the message and applies them to the store.
pub fn handle_orderbook_delta(msg: &Value, markets: &MarketStateStore) -> (outcome: Result<
    FeedEvent,
    FeedError,
>)
    ensures
        is_delta_reading(outcome, markets@, json_view(*msg)),
        outcome matches Ok(FeedEvent::BookUpdated { market, book }) ==> book.prices_valid(),
{
    let ticker = text_member(msg, "ticker");
    let yes_ask = integer_member(msg, "yes_ask");
    let no_ask = integer_member(msg, "no_ask");
    let yes_size = integer_member(msg, "yes_ask_size");
    let no_size = integer_member(msg, "no_ask_size");
    apply_orderbook_delta(markets, ticker, yes_ask, no_ask, yes_size, no_size)
}

/// `outcome` is what a venue-A message comes to, given the document that
/// its text writes: an error for text that is not JSON; the update for a
/// message tagged `orderbook_delta`; for every other message only its
/// kind.
pub open spec fn is_kalshi_outcome(
    outcome: Result<FeedEvent, FeedError>,
    pairs: Seq<MarketPairView>,
    document: Option<JsonValue>,
) -> bool {
    match document {
        None => outcome matches Err(e) && e == FeedError::InvalidJson,
        Some(msg) => match kind_of(msg.text_member("type"@), "orderbook_delta"@) {
            MessageKind::Book => is_delta_reading(outcome, pairs, msg),
            MessageKind::Subscribed => outcome matches Ok(event) && event == FeedEvent::Subscribed,
            MessageKind::Error => outcome matches Ok(event) && event == FeedEvent::VenueError,
            MessageKind::Unknown => outcome matches Ok(event) && event == FeedEvent::Unknown,
        },
    }
}

/// Handles one incoming venue-A message. A book update is applied to the
/// store; a subscription confirmation, a venue error and any other kind
/// of message are only reported. Text that is not JSON is an error, and
/// so is a book update without a ticker.
pub fn handle_kalshi_message(text: &str, markets: &MarketStateStore) -> (outcome: Result<
    FeedEvent,
    FeedError,
>)
    ensures
        is_kalshi_outcome(outcome, markets@, parsed_json(text@)),
        outcome matches Ok(FeedEvent::BookUpdated { market, book }) ==> book.prices_valid(),
{
    let msg = match parse_document(text) {
        Ok(msg) => msg,
        Err(_) => return Err(FeedError::InvalidJson),
    };
    let tag = text_member(&msg, "type");
    match message_kind(tag, "orderbook_delta") {
        MessageKind::Book => handle_orderbook_delta(&msg, markets),
        MessageKind::Subscribed => Ok(FeedEvent::Subscribed),
        MessageKind::Error => Ok(FeedEvent::VenueError),
        MessageKind::Unknown => Ok(FeedEvent::Unknown),
    }
}

/// The store and the message determine the outcome: two outcomes of the
/// same message are the same.
pub proof fn lemma_kalshi_outcome_is_determined(
    first: Result<FeedEvent, FeedError>,
    second: Result<FeedEvent, FeedError>,
    pairs: Seq<MarketPairView>,
    document: Option<JsonValue>,
)
    requires
        is_kalshi_outcome(first, pairs, document),
        is_kalshi_outcome(second, pairs, document),
    ensures
        first == second,
{
}

} // verus!
