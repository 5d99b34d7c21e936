//! Arbitrage detection and simulated execution.
//!
//! For one market the detector looks at the best asks on both venues and
//! weighs the four ways of buying YES and NO together. A combination is an
//! opportunity when it costs less than the guaranteed payout; the cheapest
//! one wins, the earlier one on a tie.

use crate::config::ARB_THRESHOLD_CENTS;
use crate::position_tracker::{PositionTracker, TrackerState};
use crate::store::MarketStateStore;
use crate::types::{
    fee_cents, kalshi_fee_cents, lemma_fee_bounds, ArbOpportunity, ArbType, MarketPair,
    MarketPairView, MarketState, Orderbook, PriceCents, Timestamp, NO_PRICE,
};
use vstd::prelude::*;

verus! {

/// All four relevant prices are quoted.
pub open spec fn quotes_complete(kalshi: Orderbook, poly: Orderbook) -> bool {
    kalshi.yes_ask != NO_PRICE && kalshi.no_ask != NO_PRICE && poly.yes_ask != NO_PRICE
        && poly.no_ask != NO_PRICE
}

/// The ask paid for the YES leg of a combination.
pub open spec fn yes_leg(kind: ArbType, kalshi: Orderbook, poly: Orderbook) -> int {
    match kind {
        ArbType::PolyYesKalshiNo | ArbType::PolyOnly => poly.yes_ask as int,
        ArbType::KalshiYesPolyNo | ArbType::KalshiOnly => kalshi.yes_ask as int,
    }
}

/// The ask paid for the NO leg of a combination.
pub open spec fn no_leg(kind: ArbType, kalshi: Orderbook, poly: Orderbook) -> int {
    match kind {
        ArbType::PolyYesKalshiNo | ArbType::KalshiOnly => kalshi.no_ask as int,
        ArbType::KalshiYesPolyNo | ArbType::PolyOnly => poly.no_ask as int,
    }
}

/// The fee of a combination: the sum of the fees of its legs bought on the
/// fee-charging venue. A leg bought on the other venue is free.
pub open spec fn combination_fee(kind: ArbType, kalshi: Orderbook, poly: Orderbook) -> int {
    match kind {
        ArbType::PolyYesKalshiNo => fee_cents(kalshi.no_ask as int),
        ArbType::KalshiYesPolyNo => fee_cents(kalshi.yes_ask as int),
        ArbType::PolyOnly => 0,
        ArbType::KalshiOnly => fee_cents(kalshi.yes_ask as int) + fee_cents(kalshi.no_ask as int),
    }
}

/// What a combination costs: both legs and the fee.
pub open spec fn total_cost(kind: ArbType, kalshi: Orderbook, poly: Orderbook) -> int {
    yes_leg(kind, kalshi, poly) + no_leg(kind, kalshi, poly) + combination_fee(kind, kalshi, poly)
}

/// A combination is a candidate when it costs less than the payout.
pub open spec fn qualifies(kind: ArbType, kalshi: Orderbook, poly: Orderbook) -> bool {
    total_cost(kind, kalshi, poly) < ARB_THRESHOLD_CENTS
}

/// What a combination earns: the payout less its cost.
pub open spec fn profit(kind: ArbType, kalshi: Orderbook, poly: Orderbook) -> int {
    ARB_THRESHOLD_CENTS - total_cost(kind, kalshi, poly)
}

/// `kind` beats `other`: it earns more, or as much and is evaluated no
/// later.
pub open spec fn beats(kind: ArbType, other: ArbType, kalshi: Orderbook, poly: Orderbook) -> bool {
    profit(kind, kalshi, poly) > profit(other, kalshi, poly) || (profit(kind, kalshi, poly)
        == profit(other, kalshi, poly) && kind.rank() <= other.rank())
}

/// `kind` is the winner among the combinations evaluated before position
/// `upto`: a candidate that beats every candidate among them.
pub open spec fn wins_among(kind: ArbType, kalshi: Orderbook, poly: Orderbook, upto: int) -> bool {
    &&& kind.rank() < upto
    &&& qualifies(kind, kalshi, poly)
    &&& forall|other: ArbType|
        other.rank() < upto && #[trigger] qualifies(other, kalshi, poly) ==> beats(
            kind,
            other,
            kalshi,
            poly,
        )
}

/// `kind` is the winner of the market: a candidate that beats every other
/// candidate.
pub open spec fn is_winner(kind: ArbType, kalshi: Orderbook, poly: Orderbook) -> bool {
    wins_among(kind, kalshi, poly, 4)
}

impl ArbOpportunity {
    /// This opportunity reports combination `self.arb_type` of the market
    /// `pair` at the given quotes, found at `timestamp`.
    pub open spec fn reports(
        self,
        pair: MarketPairView,
        kalshi: Orderbook,
        poly: Orderbook,
        timestamp: Timestamp,
    ) -> bool {
        &&& self.market_id@ == pair.id
        &&& self.description@ == pair.description
        &&& self.yes_price as int == yes_leg(self.arb_type, kalshi, poly)
        &&& self.no_price as int == no_leg(self.arb_type, kalshi, poly)
        &&& self.fee as int == combination_fee(self.arb_type, kalshi, poly)
        &&& self.total_cost as int == total_cost(self.arb_type, kalshi, poly)
        &&& self.profit as int == profit(self.arb_type, kalshi, poly)
        &&& self.timestamp == timestamp
    }
}

/// `found` is what detection yields for the market `pair` at the given
/// quotes: nothing while a price is missing or no combination is a
/// candidate, else the report of the winner.
pub open spec fn is_detection_of(
    found: Option<ArbOpportunity>,
    pair: MarketPairView,
    kalshi: Orderbook,
    poly: Orderbook,
    timestamp: Timestamp,
) -> bool {
    match found {
        Some(arb) => {
            &&& quotes_complete(kalshi, poly)
            &&& is_winner(arb.arb_type, kalshi, poly)
            &&& arb.reports(pair, kalshi, poly, timestamp)
        },
        None => !quotes_complete(kalshi, poly) || forall|kind: ArbType|
            !#[trigger] qualifies(kind, kalshi, poly),
    }
}

/// One evaluated combination.
struct Candidate {
    kind: ArbType,
    yes_price: PriceCents,
    no_price: PriceCents,
    fee: PriceCents,
}

impl Candidate {
    spec fn prices(self, kalshi: Orderbook, poly: Orderbook) -> bool {
        &&& self.yes_price as int == yes_leg(self.kind, kalshi, poly)
        &&& self.no_price as int == no_leg(self.kind, kalshi, poly)
        &&& self.fee as int == combination_fee(self.kind, kalshi, poly)
    }
}

/// The best of the combinations evaluated so far and the next one.
fn keep_better(
    best: Option<Candidate>,
    next: Candidate,
    Ghost(kalshi): Ghost<Orderbook>,
    Ghost(poly): Ghost<Orderbook>,
) -> (kept: Option<Candidate>)
    requires
        next.prices(kalshi, poly),
        match best {
            Some(b) => b.prices(kalshi, poly) && wins_among(b.kind, kalshi, poly, next.kind.rank()),
            None => forall|kind: ArbType|
                kind.rank() < next.kind.rank() ==> !#[trigger] qualifies(kind, kalshi, poly),
        },
    ensures
        match kept {
            Some(b) => b.prices(kalshi, poly) && wins_among(
                b.kind,
                kalshi,
                poly,
                next.kind.rank() + 1,
            ),
            None => forall|kind: ArbType|
                kind.rank() < next.kind.rank() + 1 ==> !#[trigger] qualifies(kind, kalshi, poly),
        },
{
    let next_cost: u32 = next.yes_price as u32 + next.no_price as u32 + next.fee as u32;
    if next_cost >= ARB_THRESHOLD_CENTS as u32 {
        return best;
    }
    match best {
        None => Some(next),
        Some(b) => {
            let best_cost: u32 = b.yes_price as u32 + b.no_price as u32 + b.fee as u32;
            if next_cost < best_cost {
                Some(next)
            } else {
                Some(b)
            }
        },
    }
}

/// The opportunity, if any, that the given quotes of one market offer.
pub fn best_opportunity(
    pair: &MarketPair,
    kalshi: Orderbook,
    poly: Orderbook,
    timestamp: Timestamp,
) -> (found: Option<ArbOpportunity>)
    ensures
        is_detection_of(found, pair@, kalshi, poly, timestamp),
        !quotes_complete(kalshi, poly) ==> found is None,
        (forall|kind: ArbType| !#[trigger] qualifies(kind, kalshi, poly)) ==> found is None,
        quotes_complete(kalshi, poly) && (exists|kind: ArbType| #[trigger]
            qualifies(kind, kalshi, poly)) ==> found is Some,
{
    let k_yes = kalshi.yes_ask;
    let k_no = kalshi.no_ask;
    let p_yes = poly.yes_ask;
    let p_no = poly.no_ask;

    if k_yes == NO_PRICE || k_no == NO_PRICE || p_yes == NO_PRICE || p_no == NO_PRICE {
        return None;
    }
    let fee_yes = kalshi_fee_cents(k_yes);
    let fee_no = kalshi_fee_cents(k_no);
    assert(fee_yes <= 2 && fee_no <= 2) by {
        lemma_fee_bounds(k_yes as int);
        lemma_fee_bounds(k_no as int);
    }

    let best = keep_better(
        None,
        Candidate { kind: ArbType::PolyYesKalshiNo, yes_price: p_yes, no_price: k_no, fee: fee_no },
        Ghost(kalshi),
        Ghost(poly),
    );
    let best = keep_better(
        best,
        Candidate { kind: ArbType::KalshiYesPolyNo, yes_price: k_yes, no_price: p_no, fee: fee_yes },
        Ghost(kalshi),
        Ghost(poly),
    );
    let best = keep_better(
        best,
        Candidate { kind: ArbType::PolyOnly, yes_price: p_yes, no_price: p_no, fee: 0 },
        Ghost(kalshi),
        Ghost(poly),
    );
    let best = keep_better(
        best,
        Candidate {
            kind: ArbType::KalshiOnly,
            yes_price: k_yes,
            no_price: k_no,
            fee: fee_yes + fee_no,
        },
        Ghost(kalshi),
        Ghost(poly),
    );

    match best {
        None => None,
        Some(b) => {
            let total: PriceCents = b.yes_price + b.no_price + b.fee;
            Some(
                ArbOpportunity {
                    market_id: pair.id.clone(),
                    description: pair.description.clone(),
                    arb_type: b.kind,
                    yes_price: b.yes_price,
                    no_price: b.no_price,
                    total_cost: total,
                    fee: b.fee,
                    profit: ARB_THRESHOLD_CENTS as i16 - total as i16,
                    timestamp,
                },
            )
        },
    }
}

/// `arb` is what detection yields for the market `pair` at some quotes and
/// some time.
pub open spec fn detected_for(arb: ArbOpportunity, pair: MarketPairView) -> bool {
    exists|kalshi: Orderbook, poly: Orderbook, timestamp: Timestamp|
        is_detection_of(Some(arb), pair, kalshi, poly, timestamp)
}

/// Detects the arbitrage opportunity of a single market at its current
/// quotes. Whatever the books hold when they are read, the result is the
/// detection for exactly those quotes.
pub fn detect_arbitrage(market: &MarketState) -> (found: Option<ArbOpportunity>)
    ensures
        found matches Some(arb) ==> detected_for(arb, market.pair@),
{
    let (kalshi, poly) = market.books();
    let now = Timestamp::now();
    let found = best_opportunity(&market.pair, kalshi, poly, now);
    proof {
        if found is Some {
            assert(is_detection_of(found, market.pair@, kalshi, poly, now));
        }
    }
    found
}

/// `found` lists opportunities of one detection cycle over `pairs` on
/// one side of the position limit: each was detected for the market at
/// the matching index of `sources`, each of these markets may be traded
/// exactly if `allowed`, and the indices rise, so that markets come in
/// store order and each at most once.
pub open spec fn is_cycle_part(
    found: Seq<ArbOpportunity>,
    sources: Seq<int>,
    pairs: Seq<MarketPairView>,
    tracker: TrackerState,
    max_size: int,
    allowed: bool,
) -> bool {
    &&& sources.len() == found.len()
    &&& forall|j: int|
        0 <= j < found.len() ==> {
            &&& 0 <= #[trigger] sources[j] < pairs.len()
            &&& (j > 0 ==> sources[j - 1] < sources[j])
            &&& detected_for(found[j], pairs[sources[j]])
            &&& tracker.can_trade(pairs[sources[j]].id, max_size) == allowed
        }
}

/// What becomes of the detection of one market in a cycle.
#[derive(Debug, Clone)]
pub enum Admission {
    /// Nothing was detected.
    Nothing,
    /// The opportunity is forwarded.
    Admitted(ArbOpportunity),
    /// The opportunity is dropped: the market's position has reached the
    /// limit.
    Dropped(ArbOpportunity),
}

/// Decides what becomes of the detection of the market `market_id`: an
/// opportunity is admitted while the market's position is below
/// `max_size`, and dropped otherwise, whatever it would earn.
pub fn sort_detection(
    found: Option<ArbOpportunity>,
    market_id: &str,
    position_tracker: &PositionTracker,
    max_size: u16,
) -> (admission: Admission)
    ensures
        match found {
            None => admission is Nothing,
            Some(arb) => if position_tracker@.can_trade(market_id@, max_size as int) {
                admission == Admission::Admitted(arb)
            } else {
                admission == Admission::Dropped(arb)
            },
        },
{
    match found {
        None => Admission::Nothing,
        Some(arb) => {
            if position_tracker.can_trade(market_id, max_size) {
                Admission::Admitted(arb)
            } else {
                Admission::Dropped(arb)
            }
        },
    }
}

/// The opportunities among the detections of a cycle that lie on one side
/// of the position limit, in store order: `detections[i]` is what was
/// detected for market `i`, and it is listed if that market may be traded
/// exactly if `allowed`.
pub open spec fn cycle_side(
    detections: Seq<Option<ArbOpportunity>>,
    pairs: Seq<MarketPairView>,
    tracker: TrackerState,
    max_size: int,
    allowed: bool,
) -> Seq<ArbOpportunity>
    decreases detections.len(),
{
    if detections.len() == 0 {
        Seq::empty()
    } else {
        let earlier = cycle_side(detections.drop_last(), pairs, tracker, max_size, allowed);
        let market = detections.len() - 1;
        match detections.last() {
            Some(arb) => if tracker.can_trade(pairs[market].id, max_size) == allowed {
                earlier.push(arb)
            } else {
                earlier
            },
            None => earlier,
        }
    }
}

/// `detections` are detections of the markets `pairs`, one per market:
/// each opportunity among them was detected for the market at its index.
pub open spec fn are_detections(
    detections: Seq<Option<ArbOpportunity>>,
    pairs: Seq<MarketPairView>,
) -> bool {
    &&& detections.len() == pairs.len()
    &&& forall|i: int|
        0 <= i < detections.len() ==> (#[trigger] detections[i] matches Some(arb) ==> detected_for(
            arb,
            pairs[i],
        ))
}

/// What one detection cycle found: the opportunities to forward, and
/// those dropped because their market's position has reached the limit.
#[derive(Debug, Clone)]
pub struct CycleOutcome {
    pub admitted: Vec<ArbOpportunity>,
    pub dropped: Vec<ArbOpportunity>,
}

/// Checks all markets once for arbitrage opportunities. Every market is
/// detected once, in store order. What is detected for a market is
/// admitted while the market's position is below `max_size`, and dropped
/// otherwise: the two lists hold exactly the detected opportunities, each
/// on its side of the limit, in store order.
pub fn check_arbitrage_opportunities(
    markets: &MarketStateStore,
    position_tracker: &PositionTracker,
    max_size: u16,
) -> (outcome: CycleOutcome)
    ensures
        exists|detections: Seq<Option<ArbOpportunity>>|
            {
                &&& #[trigger] are_detections(detections, markets@)
                &&& outcome.admitted@ == cycle_side(
                    detections,
                    markets@,
                    position_tracker@,
                    max_size as int,
                    true,
                )
                &&& outcome.dropped@ == cycle_side(
                    detections,
                    markets@,
                    position_tracker@,
                    max_size as int,
                    false,
                )
            },
        exists|sources: Seq<int>|
            is_cycle_part(
                outcome.admitted@,
                sources,
                markets@,
                position_tracker@,
                max_size as int,
                true,
            ),
        exists|sources: Seq<int>|
            is_cycle_part(
                outcome.dropped@,
                sources,
                markets@,
                position_tracker@,
                max_size as int,
                false,
            ),
        outcome.admitted@.len() + outcome.dropped@.len() <= markets@.len(),
{
    let all = markets.get_all();
    let mut admitted: Vec<ArbOpportunity> = Vec::new();
    let mut dropped: Vec<ArbOpportunity> = Vec::new();
    let ghost tracker = position_tracker@;
    let ghost limit = max_size as int;
    let ghost mut detections: Seq<Option<ArbOpportunity>> = Seq::empty();
    let ghost mut admitted_from: Seq<int> = Seq::empty();
    let ghost mut dropped_from: Seq<int> = Seq::empty();
    let mut i: usize = 0;
    while i < all.len()
        invariant
            i <= all@.len(),
            all@ == markets.entries(),
            tracker == position_tracker@,
            limit == max_size as int,
            detections.len() == i,
            forall|j: int|
                0 <= j < i ==> (#[trigger] detections[j] matches Some(arb) ==> detected_for(
                    arb,
                    markets@[j],
                )),
            admitted@ == cycle_side(detections, markets@, tracker, limit, true),
            dropped@ == cycle_side(detections, markets@, tracker, limit, false),
            is_cycle_part(admitted@, admitted_from, markets@, tracker, limit, true),
            is_cycle_part(dropped@, dropped_from, markets@, tracker, limit, false),
            forall|j: int| 0 <= j < admitted_from.len() ==> #[trigger] admitted_from[j] < i,
            forall|j: int| 0 <= j < dropped_from.len() ==> #[trigger] dropped_from[j] < i,
            admitted@.len() + dropped@.len() <= i,
        decreases all@.len() - i,
    {
        let market = &all[i];
        let found = detect_arbitrage(market);
        proof {
            let grown = detections.push(found);
            assert(grown.drop_last() =~= detections);
            assert(grown.last() == found);
            detections = grown;
        }
        match sort_detection(found, market.pair.id.as_str(), position_tracker, max_size) {
            Admission::Admitted(arb) => {
                admitted.push(arb);
                proof {
                    admitted_from = admitted_from.push(i as int);
                }
            },
            Admission::Dropped(arb) => {
                dropped.push(arb);
                proof {
                    dropped_from = dropped_from.push(i as int);
                }
            },
            Admission::Nothing => {},
        }
        i += 1;
    }
    let outcome = CycleOutcome { admitted, dropped };
    proof {
        assert(are_detections(detections, markets@));
        assert(is_cycle_part(outcome.admitted@, admitted_from, markets@, tracker, limit, true));
        assert(is_cycle_part(outcome.dropped@, dropped_from, markets@, tracker, limit, false));
    }
    outcome
}

/// Executes one opportunity. In simulation the trade is recorded in the
/// tracker with the opportunity's profit; live trading places no order and
/// leaves the tracker as it is.
pub fn execute_arbitrage(arb: &ArbOpportunity, position_tracker: &mut PositionTracker, dry_run: bool)
    ensures
        dry_run ==> final(position_tracker)@ == old(position_tracker)@.record_capped(
            arb.market_id@,
            arb.profit as int,
        ),
        dry_run && old(position_tracker)@.has_room(arb.market_id@, arb.profit as int)
            ==> final(position_tracker)@ == old(position_tracker)@.record(
            arb.market_id@,
            arb.profit as int,
        ),
        !dry_run ==> final(position_tracker)@ == old(position_tracker)@,
{
    if dry_run {
        position_tracker.record_trade(arb.market_id.as_str(), arb.profit);
    }
}

/// A market has at most one winner.
pub proof fn lemma_winner_is_unique(first: ArbType, second: ArbType, kalshi: Orderbook, poly: Orderbook)
    requires
        is_winner(first, kalshi, poly),
        is_winner(second, kalshi, poly),
    ensures
        first == second,
{
    assert(beats(first, second, kalshi, poly));
    assert(beats(second, first, kalshi, poly));
}

/// A market with a candidate has a winner.
pub proof fn lemma_winner_exists(kalshi: Orderbook, poly: Orderbook)
    requires
        exists|kind: ArbType| #[trigger] qualifies(kind, kalshi, poly),
    ensures
        exists|kind: ArbType| #[trigger] is_winner(kind, kalshi, poly),
{
    let a = ArbType::PolyYesKalshiNo;
    let b = ArbType::KalshiYesPolyNo;
    let c = ArbType::PolyOnly;
    let d = ArbType::KalshiOnly;
    if is_winner(a, kalshi, poly) {
    } else if is_winner(b, kalshi, poly) {
    } else if is_winner(c, kalshi, poly) {
    } else {
        assert(is_winner(d, kalshi, poly));
    }
}

/// While one of the four prices is missing, detection yields nothing.
pub proof fn lemma_missing_price_suppresses_detection(
    found: Option<ArbOpportunity>,
    pair: MarketPairView,
    kalshi: Orderbook,
    poly: Orderbook,
    timestamp: Timestamp,
)
    requires
        is_detection_of(found, pair, kalshi, poly, timestamp),
        kalshi.yes_ask == NO_PRICE || kalshi.no_ask == NO_PRICE || poly.yes_ask == NO_PRICE
            || poly.no_ask == NO_PRICE,
    ensures
        found is None,
{
}

/// When every combination costs the payout or more, detection yields
/// nothing.
pub proof fn lemma_no_candidate_no_opportunity(
    found: Option<ArbOpportunity>,
    pair: MarketPairView,
    kalshi: Orderbook,
    poly: Orderbook,
    timestamp: Timestamp,
)
    requires
        is_detection_of(found, pair, kalshi, poly, timestamp),
        forall|kind: ArbType| #[trigger] total_cost(kind, kalshi, poly) >= ARB_THRESHOLD_CENTS,
    ensures
        found is None,
{
    if let Some(arb) = found {
        assert(total_cost(arb.arb_type, kalshi, poly) >= ARB_THRESHOLD_CENTS);
    }
}

/// The quotes, the market and the time determine the detection: two
/// results for the same inputs agree in every field.
pub proof fn lemma_detection_is_determined(
    first: Option<ArbOpportunity>,
    second: Option<ArbOpportunity>,
    pair: MarketPairView,
    kalshi: Orderbook,
    poly: Orderbook,
    timestamp: Timestamp,
)
    requires
        is_detection_of(first, pair, kalshi, poly, timestamp),
        is_detection_of(second, pair, kalshi, poly, timestamp),
    ensures
        first is Some <==> second is Some,
        first matches Some(a) ==> second matches Some(b) ==> {
            &&& a.market_id@ == b.market_id@
            &&& a.description@ == b.description@
            &&& a.arb_type == b.arb_type
            &&& a.yes_price == b.yes_price
            &&& a.no_price == b.no_price
            &&& a.total_cost == b.total_cost
            &&& a.fee == b.fee
            &&& a.profit == b.profit
            &&& a.timestamp == b.timestamp
        },
{
    if let Some(a) = first {
        assert(qualifies(a.arb_type, kalshi, poly));
    }
    if let Some(b) = second {
        assert(qualifies(b.arb_type, kalshi, poly));
    }
    if let (Some(a), Some(b)) = (first, second) {
        lemma_winner_is_unique(a.arb_type, b.arb_type, kalshi, poly);
    }
}

/// A reported opportunity is consistent: both legs are quoted, the cost
/// is the two legs and the fee, the cost is below the payout, and the
/// profit is what the payout leaves.
pub proof fn lemma_opportunity_is_consistent(arb: ArbOpportunity, pair: MarketPairView)
    requires
        detected_for(arb, pair),
    ensures
        arb.market_id@ == pair.id,
        1 <= arb.yes_price,
        1 <= arb.no_price,
        0 <= arb.fee <= 4,
        arb.total_cost == arb.yes_price + arb.no_price + arb.fee,
        arb.total_cost < ARB_THRESHOLD_CENTS,
        arb.profit == ARB_THRESHOLD_CENTS - arb.total_cost,
        1 <= arb.profit <= 98,
{
    let (kalshi, poly, timestamp) = choose|kalshi: Orderbook, poly: Orderbook, timestamp: Timestamp|
        is_detection_of(Some(arb), pair, kalshi, poly, timestamp);
    lemma_fee_bounds(kalshi.yes_ask as int);
    lemma_fee_bounds(kalshi.no_ask as int);
}

} // verus!
