//! Core type definitions: prices, orderbooks, markets, opportunities and
//! the venue fee curve.

use crate::shared::load_book;
use std::sync::Arc;
use std::sync::RwLock;
use vstd::prelude::*;
use vstd::string::StringExecFns;

verus! {

/// Price in cents (1-99 for $0.01-$0.99); 0 means no price is available.
pub type PriceCents = u16;

/// Size in cents (dollar amount times 100).
pub type SizeCents = u16;

/// Sentinel value for "no quote yet".
pub const NO_PRICE: PriceCents = 0;

/// The highest valid quote: one cent below the payout.
pub const MAX_PRICE: PriceCents = 99;

/// Market category.
#[derive(Debug, Clone, Copy, PartialEq, Eq, Structural)]
pub enum MarketType {
    Moneyline,
    Spread,
    Total,
}

impl MarketType {
    /// The lower-case name of the category.
    pub open spec fn label(self) -> Seq<char> {
        match self {
            MarketType::Moneyline => "moneyline"@,
            MarketType::Spread => "spread"@,
            MarketType::Total => "total"@,
        }
    }

    /// The category as text.
    pub fn to_string(&self) -> (text: String)
        ensures
            text@ == self.label(),
    {
        match self {
            MarketType::Moneyline => String::from_str("moneyline"),
            MarketType::Spread => String::from_str("spread"),
            MarketType::Total => String::from_str("total"),
        }
    }
}

/// A matched trading pair between the two venues: identity and routing
/// keys, fixed once the market is registered.
#[derive(Debug, Clone)]
pub struct MarketPair {
    pub id: String,
    pub description: String,
    pub market_type: MarketType,
    pub kalshi_ticker: String,
    pub poly_slug: String,
    pub poly_yes_token: String,
    pub poly_no_token: String,
}

/// What a `MarketPair` holds, as mathematical text.
pub struct MarketPairView {
    pub id: Seq<char>,
    pub description: Seq<char>,
    pub market_type: MarketType,
    pub kalshi_ticker: Seq<char>,
    pub poly_slug: Seq<char>,
    pub poly_yes_token: Seq<char>,
    pub poly_no_token: Seq<char>,
}

impl View for MarketPair {
    type V = MarketPairView;

    open spec fn view(&self) -> MarketPairView {
        MarketPairView {
            id: self.id@,
            description: self.description@,
            market_type: self.market_type,
            kalshi_ticker: self.kalshi_ticker@,
            poly_slug: self.poly_slug@,
            poly_yes_token: self.poly_yes_token@,
            poly_no_token: self.poly_no_token@,
        }
    }
}

impl MarketPairView {
    /// Does `token` name one of this market's two outcome tokens?
    pub open spec fn has_token(self, token: Seq<char>) -> bool {
        self.poly_yes_token == token || self.poly_no_token == token
    }
}

/// Best ask price and size of the YES and the NO outcome on one venue.
#[derive(Debug, Clone, Copy, PartialEq, Eq, Structural)]
pub struct Orderbook {
    pub yes_ask: PriceCents,
    pub no_ask: PriceCents,
    pub yes_size: SizeCents,
    pub no_size: SizeCents,
}

impl Orderbook {
    /// The book of a market that has not been quoted yet.
    pub open spec fn empty() -> Orderbook {
        Orderbook { yes_ask: 0, no_ask: 0, yes_size: 0, no_size: 0 }
    }

    /// Both asks are the sentinel or a valid quote.
    pub open spec fn prices_valid(self) -> bool {
        self.yes_ask <= MAX_PRICE && self.no_ask <= MAX_PRICE
    }

    /// This book after a best-ask update of one outcome: that outcome's
    /// price and size are replaced, the other outcome is untouched.
    pub open spec fn spec_with_side(self, is_yes: bool, price: PriceCents, size: SizeCents) -> Orderbook {
        if is_yes {
            Orderbook { yes_ask: price, yes_size: size, ..self }
        } else {
            Orderbook { no_ask: price, no_size: size, ..self }
        }
    }

    /// Applies a best-ask update of one outcome.
    pub fn with_side(self, is_yes: bool, price: PriceCents, size: SizeCents) -> (book: Orderbook)
        ensures
            book == self.spec_with_side(is_yes, price, size),
    {
        if is_yes {
            Orderbook { yes_ask: price, no_ask: self.no_ask, yes_size: size, no_size: self.no_size }
        } else {
            Orderbook { yes_ask: self.yes_ask, no_ask: price, yes_size: self.yes_size, no_size: size }
        }
    }
}

impl Default for Orderbook {
    fn default() -> (book: Orderbook)
        ensures
            book == Orderbook::empty(),
    {
        Orderbook { yes_ask: 0, no_ask: 0, yes_size: 0, no_size: 0 }
    }
}

/// A market together with its two independently locked orderbooks, one
/// per venue. Each book is written by that venue's feed alone.
#[derive(Debug, Clone)]
pub struct MarketState {
    pub pair: MarketPair,
    pub kalshi: Arc<RwLock<Orderbook>>,
    pub poly: Arc<RwLock<Orderbook>>,
}

impl MarketState {
    /// Registers a market; both books start out empty.
    pub fn new(pair: MarketPair) -> (state: Self)
        ensures
            state.pair == pair,
    {
        Self {
            pair,
            kalshi: Arc::new(RwLock::new(Orderbook::default())),
            poly: Arc::new(RwLock::new(Orderbook::default())),
        }
    }

    /// The current content of both books, first venue A's, then venue B's.
    /// The two reads are not atomic with respect to each other.
    pub fn books(&self) -> (Orderbook, Orderbook) {
        let kalshi = load_book(&self.kalshi);
        let poly = load_book(&self.poly);
        (kalshi, poly)
    }
}

/// The four ways to hold YES and NO of one market at once.
#[derive(Debug, Clone, Copy, PartialEq, Eq, Structural)]
pub enum ArbType {
    /// Buy Polymarket YES + Buy Kalshi NO
    PolyYesKalshiNo,
    /// Buy Kalshi YES + Buy Polymarket NO
    KalshiYesPolyNo,
    /// Buy Polymarket YES + Buy Polymarket NO (rare)
    PolyOnly,
    /// Buy Kalshi YES + Buy Kalshi NO (rare)
    KalshiOnly,
}

impl ArbType {
    /// The position of the combination in the evaluation order.
    pub open spec fn rank(self) -> int {
        match self {
            ArbType::PolyYesKalshiNo => 0,
            ArbType::KalshiYesPolyNo => 1,
            ArbType::PolyOnly => 2,
            ArbType::KalshiOnly => 3,
        }
    }

    /// The two legs of the combination, in words.
    pub open spec fn label(self) -> Seq<char> {
        match self {
            ArbType::PolyYesKalshiNo => "Poly YES + Kalshi NO"@,
            ArbType::KalshiYesPolyNo => "Kalshi YES + Poly NO"@,
            ArbType::PolyOnly => "Poly YES + Poly NO"@,
            ArbType::KalshiOnly => "Kalshi YES + Kalshi NO"@,
        }
    }

    /// The combination as text.
    pub fn to_string(&self) -> (text: String)
        ensures
            text@ == self.label(),
    {
        match self {
            ArbType::PolyYesKalshiNo => String::from_str("Poly YES + Kalshi NO"),
            ArbType::KalshiYesPolyNo => String::from_str("Kalshi YES + Poly NO"),
            ArbType::PolyOnly => String::from_str("Poly YES + Poly NO"),
            ArbType::KalshiOnly => String::from_str("Kalshi YES + Kalshi NO"),
        }
    }
}

/// An instant in UTC: whole seconds since the Unix epoch and the
/// nanoseconds past that second.
#[derive(Debug, Clone, Copy, PartialEq, Eq, Structural)]
pub struct Timestamp {
    pub secs: i64,
    pub nanos: u32,
}

/// A detected opportunity: the winning combination of one market in one
/// detection cycle.
#[derive(Debug, Clone)]
pub struct ArbOpportunity {
    pub market_id: String,
    pub description: String,
    pub arb_type: ArbType,
    pub yes_price: PriceCents,
    pub no_price: PriceCents,
    pub total_cost: PriceCents,
    pub fee: PriceCents,
    pub profit: i16,
    pub timestamp: Timestamp,
}

/// The fee charged on one leg bought at `price` cents: nothing outside the
/// open interval (0, 100), otherwise seven percent of `p * (1 - p)` with
/// `p = price / 100`, rounded up to whole cents and never below one cent.
pub open spec fn fee_cents(price: int) -> int {
    if price <= 0 || price >= 100 {
        0
    } else {
        let rounded_up = (7 * (price * (100 - price)) + 9999) / 10000;
        if rounded_up < 1 {
            1
        } else {
            rounded_up
        }
    }
}

/// Trading fee in cents for a leg bought at `price_cents`.
pub fn kalshi_fee_cents(price_cents: PriceCents) -> (fee: PriceCents)
    ensures
        fee as int == fee_cents(price_cents as int),
{
    if price_cents == 0 || price_cents >= 100 {
        return 0;
    }
    let p: u32 = price_cents as u32;
    assert(p * (100 - p) <= 2500) by (nonlinear_arith)
        requires
            1 <= p < 100,
    ;
    let spread: u32 = p * (100 - p);
    let rounded_up: u32 = (7 * spread + 9999) / 10000;
    if rounded_up < 1 {
        1
    } else {
        rounded_up as u16
    }
}

/// The fee is at most two cents, and at least one cent on every quoted
/// price.
pub proof fn lemma_fee_bounds(price: int)
    ensures
        0 <= fee_cents(price) <= 2,
        1 <= price <= 99 ==> fee_cents(price) >= 1,
{
    if 0 < price < 100 {
        assert(0 < price * (100 - price) <= 2500) by (nonlinear_arith)
            requires
                0 < price < 100,
        ;
    }
}

/// The fee is the ceiling of the exact charge: the least number of whole
/// cents that covers seven percent of `p * (1 - p)` dollars.
pub proof fn lemma_fee_is_ceiling(price: int)
    requires
        1 <= price <= 99,
    ensures
        10000 * (fee_cents(price) - 1) < 7 * (price * (100 - price)) <= 10000 * fee_cents(price),
{
    assert(0 < price * (100 - price) <= 2500) by (nonlinear_arith)
        requires
            0 < price < 100,
    ;
}

/// The fee is the same at a price and at its complement.
pub proof fn lemma_fee_is_symmetric(price: int)
    ensures
        fee_cents(price) == fee_cents(100 - price),
{
    assert(price * (100 - price) == (100 - price) * (100 - (100 - price))) by (nonlinear_arith);
}

} // verus!
