use prediction_market_arbitrage_mvp::feed::{FeedError, FeedEvent};
use prediction_market_arbitrage_mvp::polymarket::{
    apply_book_update, book_quote, handle_book_update, handle_polymarket_message,
    PolymarketMessage,
};
use prediction_market_arbitrage_mvp::store::MarketStateStore;
use prediction_market_arbitrage_mvp::types::{MarketPair, MarketType, Orderbook};

fn pair(id: &str) -> MarketPair {
    MarketPair {
        id: id.to_string(),
        description: format!("Market {}", id),
        market_type: MarketType::Moneyline,
        kalshi_ticker: format!("KX-{}", id),
        poly_slug: format!("slug-{}", id),
        poly_yes_token: format!("{}-yes", id),
        poly_no_token: format!("{}-no", id),
    }
}

fn store() -> MarketStateStore {
    let mut store = MarketStateStore::new();
    store.insert(pair("a"));
    store.insert(pair("b"));
    store
}

fn poly_book(store: &MarketStateStore, index: usize) -> Orderbook {
    store.get(index).books().1
}

fn quote_of(text: &str) -> (String, Option<String>, Option<String>) {
    match handle_polymarket_message(text) {
        Ok(PolymarketMessage::Book(quote)) => (quote.token_id, quote.price, quote.size),
        other => panic!("not a book message: {:?}", other),
    }
}

#[test]
fn a_book_message_quotes_the_first_ask() {
    let text = r#"{"event_type":"book","market":"a-yes","asks":[{"price":"0.45","size":"120.5"},{"price":"0.46","size":"10"}]}"#;
    assert_eq!(
        quote_of(text),
        ("a-yes".to_string(), Some("0.45".to_string()), Some("120.5".to_string()))
    );
}

#[test]
fn a_book_message_without_usable_asks_quotes_nothing() {
    let no_asks = r#"{"event_type":"book","market":"a-yes"}"#;
    assert_eq!(quote_of(no_asks), ("a-yes".to_string(), None, None));
    let empty = r#"{"event_type":"book","market":"a-yes","asks":[]}"#;
    assert_eq!(quote_of(empty), ("a-yes".to_string(), None, None));
    let not_a_list = r#"{"event_type":"book","market":"a-yes","asks":{"price":"0.45"}}"#;
    assert_eq!(quote_of(not_a_list), ("a-yes".to_string(), None, None));
    let numbers = r#"{"event_type":"book","market":"a-yes","asks":[{"price":0.45,"size":"7"}]}"#;
    assert_eq!(quote_of(numbers), ("a-yes".to_string(), None, Some("7".to_string())));
    let price_only = r#"{"event_type":"book","market":"a-yes","asks":[{"price":"0.45"}]}"#;
    assert_eq!(quote_of(price_only), ("a-yes".to_string(), Some("0.45".to_string()), None));
}

#[test]
fn a_book_message_without_a_token_is_an_error() {
    let text = r#"{"event_type":"book","asks":[{"price":"0.45","size":"1"}]}"#;
    assert!(matches!(handle_polymarket_message(text), Err(FeedError::MissingToken)));
    let text = r#"{"event_type":"book","market":12}"#;
    assert!(matches!(handle_polymarket_message(text), Err(FeedError::MissingToken)));
}

#[test]
fn text_that_is_not_json_is_rejected() {
    assert!(matches!(handle_polymarket_message(""), Err(FeedError::InvalidJson)));
    assert!(matches!(handle_polymarket_message("{"), Err(FeedError::InvalidJson)));
    assert!(matches!(handle_polymarket_message("book"), Err(FeedError::InvalidJson)));
}

#[test]
fn other_kinds_of_message_are_only_reported() {
    assert!(matches!(
        handle_polymarket_message(r#"{"event_type":"subscribed"}"#),
        Ok(PolymarketMessage::Subscribed)
    ));
    assert!(matches!(
        handle_polymarket_message(r#"{"event_type":"error"}"#),
        Ok(PolymarketMessage::VenueError)
    ));
    assert!(matches!(
        handle_polymarket_message(r#"{"event_type":"price_change"}"#),
        Ok(PolymarketMessage::Unknown)
    ));
    assert!(matches!(
        handle_polymarket_message(r#"{"type":"book","market":"a-yes"}"#),
        Ok(PolymarketMessage::Unknown)
    ));
    assert!(matches!(handle_polymarket_message("7"), Ok(PolymarketMessage::Unknown)));
}

#[test]
fn handle_book_update_reads_token_price_and_size() {
    let msg = serde_json::from_str::<serde_json::Value>(
        r#"{"market":"b-no","asks":[{"price":"0.07","size":"3"}]}"#,
    )
    .unwrap();
    let quote = handle_book_update(&msg).unwrap();
    assert_eq!(quote.token_id, "b-no");
    assert_eq!(quote.price, Some("0.07".to_string()));
    assert_eq!(quote.size, Some("3".to_string()));
    let msg = serde_json::from_str::<serde_json::Value>(r#"{"asks":[]}"#).unwrap();
    assert!(matches!(handle_book_update(&msg), Err(FeedError::MissingToken)));
}

#[test]
fn book_quote_needs_a_token() {
    let quote = book_quote(Some("t"), Some("0.5"), None).unwrap();
    assert_eq!(quote.token_id, "t");
    assert_eq!(quote.price, Some("0.5".to_string()));
    assert_eq!(quote.size, None);
    assert!(matches!(book_quote(None, Some("0.5"), Some("1")), Err(FeedError::MissingToken)));
}

#[test]
fn a_yes_token_updates_the_yes_side_only() {
    let store = store();
    *store.get(1).poly.write().unwrap() =
        Orderbook { yes_ask: 1, no_ask: 2, yes_size: 3, no_size: 4 };
    let book = Orderbook { yes_ask: 45, no_ask: 2, yes_size: 700, no_size: 4 };
    assert_eq!(
        apply_book_update(&store, "b-yes", Some(45), Some(700)),
        FeedEvent::BookUpdated { market: 1, book }
    );
    assert_eq!(poly_book(&store, 1), book);
    assert_eq!(poly_book(&store, 0), Orderbook::default());
    assert_eq!(store.get(1).books().0, Orderbook::default());
}

#[test]
fn a_no_token_updates_the_no_side_only() {
    let store = store();
    *store.get(0).poly.write().unwrap() =
        Orderbook { yes_ask: 1, no_ask: 2, yes_size: 3, no_size: 4 };
    let book = Orderbook { yes_ask: 1, no_ask: 55, yes_size: 3, no_size: 0 };
    assert_eq!(
        apply_book_update(&store, "a-no", Some(55), Some(0)),
        FeedEvent::BookUpdated { market: 0, book }
    );
    assert_eq!(poly_book(&store, 0), book);
}

#[test]
fn both_sides_fill_in_over_two_updates() {
    let store = store();
    apply_book_update(&store, "a-yes", Some(40), Some(100));
    apply_book_update(&store, "a-no", Some(58), Some(200));
    assert_eq!(
        poly_book(&store, 0),
        Orderbook { yes_ask: 40, no_ask: 58, yes_size: 100, no_size: 200 }
    );
}

#[test]
fn an_update_without_a_usable_price_leaves_no_stale_price() {
    let store = store();
    apply_book_update(&store, "a-yes", Some(40), Some(100));
    apply_book_update(&store, "a-no", Some(58), Some(200));
    let book = Orderbook { yes_ask: 0, no_ask: 58, yes_size: 0, no_size: 200 };
    assert_eq!(
        apply_book_update(&store, "a-yes", None, None),
        FeedEvent::BookUpdated { market: 0, book }
    );
    assert_eq!(poly_book(&store, 0), book);
    let book = Orderbook { yes_ask: 0, no_ask: 0, yes_size: 0, no_size: 7 };
    assert_eq!(
        apply_book_update(&store, "a-no", None, Some(7)),
        FeedEvent::BookUpdated { market: 0, book }
    );
    let book = Orderbook { yes_ask: 12, no_ask: 0, yes_size: 0, no_size: 7 };
    assert_eq!(
        apply_book_update(&store, "a-yes", Some(12), None),
        FeedEvent::BookUpdated { market: 0, book }
    );
    assert_eq!(poly_book(&store, 0), book);
}

#[test]
fn a_written_ask_is_at_most_ninety_nine_cents() {
    let store = store();
    for (price, written) in [(0u16, 0u16), (1, 1), (99, 99), (100, 99), (150, 99), (u16::MAX, 99)] {
        match apply_book_update(&store, "b-no", Some(price), Some(u16::MAX)) {
            FeedEvent::BookUpdated { market, book } => {
                assert_eq!(market, 1);
                assert_eq!(book.no_ask, written);
                assert_eq!(book.no_size, u16::MAX);
            }
            other => panic!("not an update: {:?}", other),
        }
        assert_eq!(poly_book(&store, 1).no_ask, written);
    }
}

#[test]
fn an_update_for_an_unknown_token_is_dropped() {
    let store = store();
    assert_eq!(apply_book_update(&store, "z-yes", Some(45), Some(700)), FeedEvent::Untracked);
    assert_eq!(apply_book_update(&store, "KX-a", Some(45), Some(700)), FeedEvent::Untracked);
    assert_eq!(poly_book(&store, 0), Orderbook::default());
    assert_eq!(poly_book(&store, 1), Orderbook::default());
}

#[test]
fn a_token_shared_by_both_outcomes_counts_as_yes() {
    let mut store = MarketStateStore::new();
    let mut twin = pair("t");
    twin.poly_no_token = twin.poly_yes_token.clone();
    store.insert(twin);
    let book = Orderbook { yes_ask: 9, no_ask: 0, yes_size: 8, no_size: 0 };
    assert_eq!(
        apply_book_update(&store, "t-yes", Some(9), Some(8)),
        FeedEvent::BookUpdated { market: 0, book }
    );
}
