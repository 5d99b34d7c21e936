use prediction_market_arbitrage_mvp::feed::{message_kind, FeedError, FeedEvent, MessageKind};
use prediction_market_arbitrage_mvp::kalshi::{
    apply_orderbook_delta, handle_kalshi_message, handle_orderbook_delta, price_from_wire,
    size_from_wire,
};
use prediction_market_arbitrage_mvp::store::MarketStateStore;
use prediction_market_arbitrage_mvp::types::{MarketPair, MarketType, Orderbook};

fn pair(id: &str) -> MarketPair {
    MarketPair {
        id: id.to_string(),
        description: format!("Market {}", id),
        market_type: MarketType::Moneyline,
        kalshi_ticker: format!("KX-{}", id),
        poly_slug: format!("slug-{}", id),
        poly_yes_token: format!("{}-yes", id),
        poly_no_token: format!("{}-no", id),
    }
}

fn store() -> MarketStateStore {
    let mut store = MarketStateStore::new();
    store.insert(pair("a"));
    store.insert(pair("b"));
    store
}

fn kalshi_book(store: &MarketStateStore, index: usize) -> Orderbook {
    store.get(index).books().0
}

#[test]
fn a_wire_price_is_a_valid_quote_or_no_price() {
    assert_eq!(price_from_wire(None), 0);
    assert_eq!(price_from_wire(Some(0)), 0);
    assert_eq!(price_from_wire(Some(1)), 1);
    assert_eq!(price_from_wire(Some(45)), 45);
    assert_eq!(price_from_wire(Some(99)), 99);
    assert_eq!(price_from_wire(Some(100)), 0);
    assert_eq!(price_from_wire(Some(150)), 0);
    assert_eq!(price_from_wire(Some(65535)), 0);
    assert_eq!(price_from_wire(Some(65536 + 40)), 0);
    assert_eq!(price_from_wire(Some(-1)), 0);
    assert_eq!(price_from_wire(Some(i64::MAX)), 0);
    assert_eq!(price_from_wire(Some(i64::MIN)), 0);
    for n in -300i64..=300 {
        let expected = if (1..=99).contains(&n) { n as u16 } else { 0 };
        assert_eq!(price_from_wire(Some(n)), expected);
    }
}

#[test]
fn a_wire_size_is_kept_within_its_range() {
    assert_eq!(size_from_wire(None), 0);
    assert_eq!(size_from_wire(Some(0)), 0);
    assert_eq!(size_from_wire(Some(45)), 45);
    assert_eq!(size_from_wire(Some(1200)), 1200);
    assert_eq!(size_from_wire(Some(65535)), 65535);
    assert_eq!(size_from_wire(Some(65536)), 65535);
    assert_eq!(size_from_wire(Some(65536 + 40)), 65535);
    assert_eq!(size_from_wire(Some(i64::MAX)), 65535);
    assert_eq!(size_from_wire(Some(-1)), 0);
    assert_eq!(size_from_wire(Some(i64::MIN)), 0);
}

#[test]
fn a_price_that_is_no_valid_quote_is_stored_as_no_price() {
    let store = store();
    let text = r#"{"type":"orderbook_delta","ticker":"KX-a","yes_ask":150,"no_ask":-1,"yes_ask_size":70000,"no_ask_size":-5}"#;
    let book = Orderbook { yes_ask: 0, no_ask: 0, yes_size: 65535, no_size: 0 };
    assert_eq!(
        handle_kalshi_message(text, &store),
        Ok(FeedEvent::BookUpdated { market: 0, book })
    );
    assert_eq!(kalshi_book(&store, 0), book);
    let text = r#"{"type":"orderbook_delta","ticker":"KX-a","yes_ask":100,"no_ask":99,"yes_ask_size":1,"no_ask_size":2}"#;
    let book = Orderbook { yes_ask: 0, no_ask: 99, yes_size: 1, no_size: 2 };
    assert_eq!(
        handle_kalshi_message(text, &store),
        Ok(FeedEvent::BookUpdated { market: 0, book })
    );
    assert_eq!(kalshi_book(&store, 0), book);
}

#[test]
fn messages_are_classified_by_their_tag() {
    assert_eq!(message_kind(Some("orderbook_delta"), "orderbook_delta"), MessageKind::Book);
    assert_eq!(message_kind(Some("book"), "book"), MessageKind::Book);
    assert_eq!(message_kind(Some("book"), "orderbook_delta"), MessageKind::Unknown);
    assert_eq!(message_kind(Some("subscribed"), "book"), MessageKind::Subscribed);
    assert_eq!(message_kind(Some("error"), "book"), MessageKind::Error);
    assert_eq!(message_kind(Some("unknown"), "book"), MessageKind::Unknown);
    assert_eq!(message_kind(Some("Book"), "book"), MessageKind::Unknown);
    assert_eq!(message_kind(Some(""), "book"), MessageKind::Unknown);
    assert_eq!(message_kind(None, "book"), MessageKind::Unknown);
    assert_eq!(message_kind(Some("subscribed"), "subscribed"), MessageKind::Book);
}

#[test]
fn a_delta_replaces_the_whole_venue_a_book() {
    let store = store();
    let text = r#"{"type":"orderbook_delta","ticker":"KX-b","yes_ask":41,"no_ask":58,"yes_ask_size":1200,"no_ask_size":900}"#;
    let book = Orderbook { yes_ask: 41, no_ask: 58, yes_size: 1200, no_size: 900 };
    assert_eq!(
        handle_kalshi_message(text, &store),
        Ok(FeedEvent::BookUpdated { market: 1, book })
    );
    assert_eq!(kalshi_book(&store, 1), book);
    assert_eq!(kalshi_book(&store, 0), Orderbook::default());
    assert_eq!(store.get(1).books().1, Orderbook::default());
}

#[test]
fn missing_fields_of_a_delta_mean_no_price() {
    let store = store();
    let first = r#"{"type":"orderbook_delta","ticker":"KX-a","yes_ask":41,"no_ask":58,"yes_ask_size":1,"no_ask_size":2}"#;
    assert!(handle_kalshi_message(first, &store).is_ok());
    let partial = r#"{"type":"orderbook_delta","ticker":"KX-a","yes_ask":44,"no_ask":"58","yes_ask_size":1.5}"#;
    let book = Orderbook { yes_ask: 44, no_ask: 0, yes_size: 0, no_size: 0 };
    assert_eq!(
        handle_kalshi_message(partial, &store),
        Ok(FeedEvent::BookUpdated { market: 0, book })
    );
    assert_eq!(kalshi_book(&store, 0), book);
}

#[test]
fn a_delta_for_an_unknown_ticker_is_dropped() {
    let store = store();
    let text = r#"{"type":"orderbook_delta","ticker":"KX-z","yes_ask":41,"no_ask":58}"#;
    assert_eq!(handle_kalshi_message(text, &store), Ok(FeedEvent::Untracked));
    assert_eq!(kalshi_book(&store, 0), Orderbook::default());
    assert_eq!(kalshi_book(&store, 1), Orderbook::default());
}

#[test]
fn a_delta_without_a_ticker_is_an_error() {
    let store = store();
    let text = r#"{"type":"orderbook_delta","yes_ask":41,"no_ask":58}"#;
    assert_eq!(handle_kalshi_message(text, &store), Err(FeedError::MissingTicker));
    let text = r#"{"type":"orderbook_delta","ticker":7,"yes_ask":41,"no_ask":58}"#;
    assert_eq!(handle_kalshi_message(text, &store), Err(FeedError::MissingTicker));
    assert_eq!(kalshi_book(&store, 0), Orderbook::default());
}

#[test]
fn text_that_is_not_json_is_an_error() {
    let store = store();
    assert_eq!(handle_kalshi_message("", &store), Err(FeedError::InvalidJson));
    assert_eq!(handle_kalshi_message("not json", &store), Err(FeedError::InvalidJson));
    assert_eq!(handle_kalshi_message("{\"type\":", &store), Err(FeedError::InvalidJson));
}

#[test]
fn other_kinds_of_message_change_nothing() {
    let store = store();
    assert_eq!(handle_kalshi_message(r#"{"type":"subscribed"}"#, &store), Ok(FeedEvent::Subscribed));
    assert_eq!(
        handle_kalshi_message(r#"{"type":"error","msg":"bad"}"#, &store),
        Ok(FeedEvent::VenueError)
    );
    assert_eq!(handle_kalshi_message(r#"{"type":"ticker"}"#, &store), Ok(FeedEvent::Unknown));
    assert_eq!(handle_kalshi_message(r#"{"ticker":"KX-a"}"#, &store), Ok(FeedEvent::Unknown));
    assert_eq!(handle_kalshi_message(r#"{"type":5}"#, &store), Ok(FeedEvent::Unknown));
    assert_eq!(handle_kalshi_message("[1,2]", &store), Ok(FeedEvent::Unknown));
    assert_eq!(handle_kalshi_message("null", &store), Ok(FeedEvent::Unknown));
    assert_eq!(kalshi_book(&store, 0), Orderbook::default());
}

#[test]
fn handle_orderbook_delta_reads_the_message_fields() {
    let store = store();
    let msg = serde_json::from_str::<serde_json::Value>(
        r#"{"ticker":"KX-a","yes_ask":10,"no_ask":20,"yes_ask_size":30,"no_ask_size":40}"#,
    )
    .unwrap();
    let book = Orderbook { yes_ask: 10, no_ask: 20, yes_size: 30, no_size: 40 };
    assert_eq!(
        handle_orderbook_delta(&msg, &store),
        Ok(FeedEvent::BookUpdated { market: 0, book })
    );
    assert_eq!(kalshi_book(&store, 0), book);
    let msg = serde_json::from_str::<serde_json::Value>(r#"["ticker","KX-a"]"#).unwrap();
    assert_eq!(handle_orderbook_delta(&msg, &store), Err(FeedError::MissingTicker));
}

#[test]
fn numbers_beyond_sixty_four_bits_or_with_a_fraction_mean_no_price() {
    let store = store();
    let text = r#"{"type":"orderbook_delta","ticker":"KX-a","yes_ask":18446744073709551615,"no_ask":58.0,"yes_ask_size":9223372036854775807,"no_ask_size":-1}"#;
    let book = Orderbook { yes_ask: 0, no_ask: 0, yes_size: 65535, no_size: 0 };
    assert_eq!(
        handle_kalshi_message(text, &store),
        Ok(FeedEvent::BookUpdated { market: 0, book })
    );
}

#[test]
fn apply_orderbook_delta_decides_on_plain_values() {
    let store = store();
    assert_eq!(
        apply_orderbook_delta(&store, None, Some(1), Some(2), Some(3), Some(4)),
        Err(FeedError::MissingTicker)
    );
    assert_eq!(
        apply_orderbook_delta(&store, Some("nope"), Some(1), Some(2), Some(3), Some(4)),
        Ok(FeedEvent::Untracked)
    );
    let book = Orderbook { yes_ask: 1, no_ask: 0, yes_size: 3, no_size: 65535 };
    assert_eq!(
        apply_orderbook_delta(&store, Some("KX-b"), Some(1), None, Some(3), Some(65536 + 40)),
        Ok(FeedEvent::BookUpdated { market: 1, book })
    );
    assert_eq!(kalshi_book(&store, 1), book);
}

#[test]
fn feed_errors_in_words() {
    assert_eq!(FeedError::InvalidJson.to_string(), "Failed to parse JSON");
    assert_eq!(FeedError::MissingTicker.to_string(), "Missing ticker");
    assert_eq!(FeedError::MissingToken.to_string(), "Missing market/token_id");
}
