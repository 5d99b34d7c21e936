//! The store of tracked markets.
//!
//! Markets are registered at startup and never removed. Feeds find the
//! market an update belongs to by a venue routing key; the detector walks
//! all markets. A market's identifier occurs once in the store.

use crate::types::{MarketPair, MarketPairView, MarketState};
use vstd::prelude::*;

verus! {

/// Some market among `pairs` is listed under `ticker` on venue A.
pub open spec fn tracks_ticker(pairs: Seq<MarketPairView>, ticker: Seq<char>) -> bool {
    exists|i: int| 0 <= i < pairs.len() && (#[trigger] pairs[i]).kalshi_ticker == ticker
}

/// Market `i` is the first one listed under `ticker` on venue A.
pub open spec fn ticker_routes_to(pairs: Seq<MarketPairView>, ticker: Seq<char>, i: int) -> bool {
    &&& 0 <= i < pairs.len()
    &&& pairs[i].kalshi_ticker == ticker
    &&& forall|j: int| 0 <= j < i ==> (#[trigger] pairs[j]).kalshi_ticker != ticker
}

/// Some market among `pairs` has `token` as one of its venue-B outcome
/// tokens.
pub open spec fn tracks_token(pairs: Seq<MarketPairView>, token: Seq<char>) -> bool {
    exists|i: int| 0 <= i < pairs.len() && (#[trigger] pairs[i]).has_token(token)
}

/// Market `i` is the first one with `token` as one of its venue-B outcome
/// tokens.
pub open spec fn token_routes_to(pairs: Seq<MarketPairView>, token: Seq<char>, i: int) -> bool {
    &&& 0 <= i < pairs.len()
    &&& pairs[i].has_token(token)
    &&& forall|j: int| 0 <= j < i ==> !(#[trigger] pairs[j]).has_token(token)
}

/// Some market among `pairs` has the identifier `id`.
pub open spec fn tracks_id(pairs: Seq<MarketPairView>, id: Seq<char>) -> bool {
    exists|i: int| 0 <= i < pairs.len() && (#[trigger] pairs[i]).id == id
}

/// No two markets among `pairs` share an identifier.
pub open spec fn ids_distinct(pairs: Seq<MarketPairView>) -> bool {
    forall|i: int, j: int|
        0 <= i < pairs.len() && 0 <= j < pairs.len() && i != j ==> (#[trigger] pairs[i]).id != (
        #[trigger] pairs[j]).id
}

/// The pairs of a sequence of markets, in order.
pub open spec fn pairs_of(markets: Seq<MarketState>) -> Seq<MarketPairView> {
    Seq::new(markets.len(), |i: int| markets[i].pair@)
}

/// All tracked markets, in the order of their registration.
#[derive(Debug)]
pub struct MarketStateStore {
    markets: Vec<MarketState>,
}

impl View for MarketStateStore {
    type V = Seq<MarketPairView>;

    open spec fn view(&self) -> Seq<MarketPairView> {
        pairs_of(self.entries())
    }
}

impl MarketStateStore {
    #[verifier::type_invariant]
    spec fn well_formed(self) -> bool {
        ids_distinct(pairs_of(self.markets@))
    }

    /// The markets themselves, in order.
    pub closed spec fn entries(&self) -> Seq<MarketState> {
        self.markets@
    }

    /// A store without markets.
    pub fn new() -> (store: Self)
        ensures
            store@ == Seq::<MarketPairView>::empty(),
    {
        let store = MarketStateStore { markets: Vec::new() };
        assert(store@ =~= Seq::<MarketPairView>::empty());
        store
    }

    /// The number of tracked markets.
    pub fn len(&self) -> (n: usize)
        ensures
            n == self@.len(),
    {
        self.markets.len()
    }

    /// All markets, for scanning.
    pub fn get_all(&self) -> (all: &Vec<MarketState>)
        ensures
            all@ == self.entries(),
            ids_distinct(self@),
    {
        proof {
            use_type_invariant(self);
        }
        &self.markets
    }

    /// The index of the market with identifier `id`.
    fn index_of_id(markets: &Vec<MarketState>, id: &str) -> (found: Option<usize>)
        ensures
            match found {
                Some(i) => i < markets@.len() && markets@[i as int].pair.id@ == id@,
                None => !tracks_id(pairs_of(markets@), id@),
            },
    {
        let mut i: usize = 0;
        while i < markets.len()
            invariant
                i <= markets@.len(),
                forall|j: int| 0 <= j < i ==> (#[trigger] pairs_of(markets@)[j]).id != id@,
            decreases markets@.len() - i,
        {
            if markets[i].pair.id.as_str().eq(id) {
                return Some(i);
            }
            i += 1;
        }
        None
    }

    /// Registers a market with two empty books. A market that was
    /// registered under the same identifier is replaced in its place.
    pub fn insert(&mut self, pair: MarketPair)
        ensures
            tracks_id(old(self)@, pair.id@) ==> exists|i: int|
                0 <= i < old(self)@.len() && (#[trigger] old(self)@[i]).id == pair.id@
                    && final(self)@ == old(self)@.update(i, pair@),
            !tracks_id(old(self)@, pair.id@) ==> final(self)@ == old(self)@.push(pair@),
            ids_distinct(final(self)@),
    {
        proof {
            use_type_invariant(&*self);
        }
        let mut markets: Vec<MarketState> = Vec::new();
        std::mem::swap(&mut self.markets, &mut markets);
        assert(pairs_of(self.markets@) =~= Seq::<MarketPairView>::empty());
        let ghost before = pairs_of(markets@);
        let ghost added = pair@;
        match Self::index_of_id(&markets, pair.id.as_str()) {
            Some(i) => {
                markets[i] = MarketState::new(pair);
                assert(pairs_of(markets@) =~= before.update(i as int, added));
                assert(before[i as int].id == added.id);
            },
            None => {
                markets.push(MarketState::new(pair));
                assert(pairs_of(markets@) =~= before.push(added));
            },
        }
        std::mem::swap(&mut self.markets, &mut markets);
    }

    /// The index of the first market listed under `ticker` on venue A.
    pub fn route_ticker(&self, ticker: &str) -> (found: Option<usize>)
        ensures
            match found {
                Some(i) => ticker_routes_to(self@, ticker@, i as int),
                None => !tracks_ticker(self@, ticker@),
            },
    {
        let mut i: usize = 0;
        while i < self.markets.len()
            invariant
                i <= self.markets@.len(),
                forall|j: int| 0 <= j < i ==> (#[trigger] self@[j]).kalshi_ticker != ticker@,
            decreases self.markets@.len() - i,
        {
            if self.markets[i].pair.kalshi_ticker.as_str().eq(ticker) {
                return Some(i);
            }
            i += 1;
        }
        None
    }

    /// The index of the first market with `token` as one of its venue-B
    /// outcome tokens.
    pub fn route_token(&self, token: &str) -> (found: Option<usize>)
        ensures
            match found {
                Some(i) => token_routes_to(self@, token@, i as int),
                None => !tracks_token(self@, token@),
            },
    {
        let mut i: usize = 0;
        while i < self.markets.len()
            invariant
                i <= self.markets@.len(),
                forall|j: int| 0 <= j < i ==> !(#[trigger] self@[j]).has_token(token@),
            decreases self.markets@.len() - i,
        {
            let pair = &self.markets[i].pair;
            if pair.poly_yes_token.as_str().eq(token) || pair.poly_no_token.as_str().eq(token) {
                return Some(i);
            }
            i += 1;
        }
        None
    }

    /// The market at `index`.
    pub fn get(&self, index: usize) -> (market: &MarketState)
        requires
            index < self@.len(),
        ensures
            *market == self.entries()[index as int],
            market.pair@ == self@[index as int],
    {
        &self.markets[index]
    }

    /// The first market listed under `ticker` on venue A, if any.
    pub fn find_by_kalshi_ticker(&self, ticker: &str) -> (found: Option<&MarketState>)
        ensures
            match found {
                Some(market) => exists|i: int|
                    #[trigger] ticker_routes_to(self@, ticker@, i) && *market
                        == self.entries()[i],
                None => !tracks_ticker(self@, ticker@),
            },
    {
        match self.route_ticker(ticker) {
            Some(i) => Some(self.get(i)),
            None => None,
        }
    }

    /// The first market with `token` as one of its venue-B outcome tokens,
    /// if any.
    pub fn find_by_poly_token(&self, token: &str) -> (found: Option<&MarketState>)
        ensures
            match found {
                Some(market) => exists|i: int|
                    #[trigger] token_routes_to(self@, token@, i) && *market == self.entries()[i],
                None => !tracks_token(self@, token@),
            },
    {
        match self.route_token(token) {
            Some(i) => Some(self.get(i)),
            None => None,
        }
    }

    /// The venue-A tickers of all markets, in order: what a feed
    /// subscribes to.
    pub fn kalshi_tickers(&self) -> (tickers: Vec<String>)
        ensures
            tickers@.len() == self@.len(),
            forall|i: int| 0 <= i < self@.len() ==> (#[trigger] tickers@[i])@ == self@[i].kalshi_ticker,
    {
        let mut tickers: Vec<String> = Vec::new();
        let mut i: usize = 0;
        while i < self.markets.len()
            invariant
                i <= self.markets@.len(),
                tickers@.len() == i,
                forall|j: int| 0 <= j < i ==> (#[trigger] tickers@[j])@ == self@[j].kalshi_ticker,
            decreases self.markets@.len() - i,
        {
            tickers.push(self.markets[i].pair.kalshi_ticker.clone());
            i += 1;
        }
        tickers
    }

    /// The venue-B outcome tokens of all markets: for each market in
    /// order its YES token, then its NO token.
    pub fn poly_tokens(&self) -> (tokens: Vec<String>)
        ensures
            tokens@.len() == 2 * self@.len(),
            forall|i: int|
                0 <= i < self@.len() ==> (#[trigger] tokens@[2 * i])@ == self@[i].poly_yes_token,
            forall|i: int|
                0 <= i < self@.len() ==> (#[trigger] tokens@[2 * i + 1])@
                    == self@[i].poly_no_token,
    {
        let mut tokens: Vec<String> = Vec::new();
        let mut i: usize = 0;
        while i < self.markets.len()
            invariant
                i <= self.markets@.len(),
                tokens@.len() == 2 * i,
                forall|j: int|
                    0 <= j < i ==> (#[trigger] tokens@[2 * j])@ == self@[j].poly_yes_token,
                forall|j: int|
                    0 <= j < i ==> (#[trigger] tokens@[2 * j + 1])@ == self@[j].poly_no_token,
            decreases self.markets@.len() - i,
        {
            tokens.push(self.markets[i].pair.poly_yes_token.clone());
            tokens.push(self.markets[i].pair.poly_no_token.clone());
            i += 1;
        }
        tokens
    }
}

} // verus!
