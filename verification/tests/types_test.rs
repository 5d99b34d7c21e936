use prediction_market_arbitrage_mvp::types::{
    kalshi_fee_cents, ArbType, MarketPair, MarketState, MarketType, Orderbook, NO_PRICE,
};

fn sample_pair() -> MarketPair {
    MarketPair {
        id: "m1".to_string(),
        description: "Sample market".to_string(),
        market_type: MarketType::Spread,
        kalshi_ticker: "KX-M1".to_string(),
        poly_slug: "sample-market".to_string(),
        poly_yes_token: "0xyes".to_string(),
        poly_no_token: "0xno".to_string(),
    }
}

#[test]
fn test_kalshi_fee_cents() {
    // At 50 cents: ceil(7 * 50 * 50 / 10000) = ceil(1.75) = 2
    assert_eq!(kalshi_fee_cents(50), 2);
    // At 10 cents: ceil(7 * 10 * 90 / 10000) = ceil(0.63) = 1
    assert_eq!(kalshi_fee_cents(10), 1);
    // At 0 and 100: no fee
    assert_eq!(kalshi_fee_cents(0), 0);
    assert_eq!(kalshi_fee_cents(100), 0);
}

#[test]
fn fee_is_at_least_one_cent_on_every_quoted_price() {
    for p in 1u16..=99 {
        assert!(kalshi_fee_cents(p) >= 1, "fee({}) is below one cent", p);
        assert!(kalshi_fee_cents(p) <= 2, "fee({}) is above two cents", p);
    }
}

#[test]
fn fee_matches_the_real_valued_formula_on_every_price() {
    for cents in 0u16..=300 {
        let expected = if cents == 0 || cents >= 100 {
            0
        } else {
            let p = cents as f64 / 100.0;
            ((0.07 * p * (1.0 - p) * 100.0).ceil() as u16).max(1)
        };
        assert_eq!(kalshi_fee_cents(cents), expected, "fee({})", cents);
    }
    assert_eq!(kalshi_fee_cents(u16::MAX), 0);
}

#[test]
fn fee_at_selected_prices() {
    assert_eq!(kalshi_fee_cents(1), 1);
    assert_eq!(kalshi_fee_cents(14), 1);
    assert_eq!(kalshi_fee_cents(17), 1);
    assert_eq!(kalshi_fee_cents(18), 2);
    assert_eq!(kalshi_fee_cents(40), 2);
    assert_eq!(kalshi_fee_cents(60), 2);
    assert_eq!(kalshi_fee_cents(82), 2);
    assert_eq!(kalshi_fee_cents(83), 1);
    assert_eq!(kalshi_fee_cents(99), 1);
}

#[test]
fn fee_is_symmetric_around_fifty() {
    for p in 1u16..=99 {
        assert_eq!(kalshi_fee_cents(p), kalshi_fee_cents(100 - p));
    }
}

#[test]
fn sentinel_is_zero() {
    assert_eq!(NO_PRICE, 0);
}

#[test]
fn market_type_labels() {
    assert_eq!(MarketType::Moneyline.to_string(), "moneyline");
    assert_eq!(MarketType::Spread.to_string(), "spread");
    assert_eq!(MarketType::Total.to_string(), "total");
}

#[test]
fn arb_type_labels() {
    assert_eq!(ArbType::PolyYesKalshiNo.to_string(), "Poly YES + Kalshi NO");
    assert_eq!(ArbType::KalshiYesPolyNo.to_string(), "Kalshi YES + Poly NO");
    assert_eq!(ArbType::PolyOnly.to_string(), "Poly YES + Poly NO");
    assert_eq!(ArbType::KalshiOnly.to_string(), "Kalshi YES + Kalshi NO");
}

#[test]
fn default_orderbook_is_zeroed() {
    let book = Orderbook::default();
    assert_eq!(book, Orderbook { yes_ask: 0, no_ask: 0, yes_size: 0, no_size: 0 });
}

#[test]
fn with_side_replaces_one_outcome_only() {
    let book = Orderbook { yes_ask: 41, no_ask: 58, yes_size: 100, no_size: 200 };
    assert_eq!(
        book.with_side(true, 45, 700),
        Orderbook { yes_ask: 45, no_ask: 58, yes_size: 700, no_size: 200 }
    );
    assert_eq!(
        book.with_side(false, 45, 700),
        Orderbook { yes_ask: 41, no_ask: 45, yes_size: 100, no_size: 700 }
    );
}

#[test]
fn new_market_state_keeps_pair_and_starts_with_empty_books() {
    let state = MarketState::new(sample_pair());
    assert_eq!(state.pair.id, "m1");
    assert_eq!(state.pair.description, "Sample market");
    assert_eq!(state.pair.market_type, MarketType::Spread);
    assert_eq!(state.pair.kalshi_ticker, "KX-M1");
    assert_eq!(state.pair.poly_slug, "sample-market");
    assert_eq!(state.pair.poly_yes_token, "0xyes");
    assert_eq!(state.pair.poly_no_token, "0xno");
    let (kalshi, poly) = state.books();
    assert_eq!(kalshi, Orderbook::default());
    assert_eq!(poly, Orderbook::default());
}

#[test]
fn books_reads_what_the_locks_hold() {
    let state = MarketState::new(sample_pair());
    *state.kalshi.write().unwrap() = Orderbook { yes_ask: 1, no_ask: 2, yes_size: 3, no_size: 4 };
    *state.poly.write().unwrap() = Orderbook { yes_ask: 5, no_ask: 6, yes_size: 7, no_size: 8 };
    let (kalshi, poly) = state.books();
    assert_eq!(kalshi, Orderbook { yes_ask: 1, no_ask: 2, yes_size: 3, no_size: 4 });
    assert_eq!(poly, Orderbook { yes_ask: 5, no_ask: 6, yes_size: 7, no_size: 8 });
}

#[test]
fn the_two_books_of_a_market_are_independent() {
    let state = MarketState::new(sample_pair());
    *state.kalshi.write().unwrap() = Orderbook { yes_ask: 9, no_ask: 9, yes_size: 9, no_size: 9 };
    let (_, poly) = state.books();
    assert_eq!(poly, Orderbook::default());
}

#[test]
fn a_cloned_market_state_shares_its_books() {
    let state = MarketState::new(sample_pair());
    let copy = state.clone();
    *state.poly.write().unwrap() = Orderbook { yes_ask: 33, no_ask: 0, yes_size: 1, no_size: 0 };
    let (_, poly) = copy.books();
    assert_eq!(poly.yes_ask, 33);
}
