//! Position tracking and P&L bookkeeping.
//!
//! The tracker counts the open contract pairs of each market, the
//! cumulative signed profit and the number of trades. A trade only ever
//! opens a position: counts never go down.

use crate::text::{decimal, decimal_string, dollars, dollars_string};
use vstd::prelude::*;
use vstd::string::StringExecFns;

verus! {

/// `value`, or the nearer end of the range from `low` to `high` where it
/// lies outside.
pub open spec fn clamp(value: int, low: int, high: int) -> int {
    if value < low {
        low
    } else if value > high {
        high
    } else {
        value
    }
}

/// What a tracker holds: the open contracts of each market that was ever
/// traded, the cumulative profit in cents and the number of trades.
pub struct TrackerState {
    pub positions: Map<Seq<char>, nat>,
    pub total_pnl: int,
    pub trade_count: nat,
}

impl TrackerState {
    /// The state before any trade.
    pub open spec fn empty() -> TrackerState {
        TrackerState { positions: Map::empty(), total_pnl: 0, trade_count: 0 }
    }

    /// The open contracts of a market; none for a market never traded.
    pub open spec fn position(self, market_id: Seq<char>) -> nat {
        if self.positions.dom().contains(market_id) {
            self.positions[market_id]
        } else {
            0
        }
    }

    /// A market may be traded while its position is below `max_size`.
    pub open spec fn can_trade(self, market_id: Seq<char>, max_size: int) -> bool {
        self.position(market_id) < max_size
    }

    /// The state after one more trade of `market_id` that earned
    /// `profit_cents`.
    pub open spec fn record(self, market_id: Seq<char>, profit_cents: int) -> TrackerState {
        TrackerState {
            positions: self.positions.insert(market_id, self.position(market_id) + 1),
            total_pnl: self.total_pnl + profit_cents,
            trade_count: self.trade_count + 1,
        }
    }

    /// The state after one more trade of `market_id` that earned
    /// `profit_cents`, as machine counters hold it: a counter with room
    /// moves as in `record`, and a counter at its limit stays there. The
    /// position stops at 65535, the trade count at the largest 32-bit
    /// number, and the P&L at either end of the signed 32-bit range.
    pub open spec fn record_capped(self, market_id: Seq<char>, profit_cents: int) -> TrackerState {
        TrackerState {
            positions: self.positions.insert(
                market_id,
                clamp(self.position(market_id) as int + 1, 0, u16::MAX as int) as nat,
            ),
            total_pnl: clamp(self.total_pnl + profit_cents, i32::MIN as int, i32::MAX as int),
            trade_count: clamp(self.trade_count as int + 1, 0, u32::MAX as int) as nat,
        }
    }

    /// The number of markets with an open position.
    pub open spec fn open_markets(self) -> nat {
        self.positions.dom().len()
    }

    /// One more trade of `market_id` earning `profit_cents` keeps every
    /// counter within the range of its machine integer.
    pub open spec fn has_room(self, market_id: Seq<char>, profit_cents: int) -> bool {
        &&& self.position(market_id) < u16::MAX
        &&& self.trade_count < u32::MAX
        &&& i32::MIN <= self.total_pnl + profit_cents <= i32::MAX
    }

    /// The cumulative loss is above `max_loss_cents`.
    pub open spec fn loss_exceeds(self, max_loss_cents: int) -> bool {
        -self.total_pnl > max_loss_cents
    }

    /// The one-line snapshot of the state.
    pub open spec fn summary(self) -> Seq<char> {
        "Trades: "@ + decimal(self.trade_count) + " | P&L: $"@ + dollars(self.total_pnl)
            + " | Positions: "@ + decimal(self.open_markets())
    }
}

/// One recorded trade: the market and what the trade earned, in cents.
pub struct Trade {
    pub market_id: Seq<char>,
    pub profit_cents: int,
}

/// The state that recording the trades of `log` in order leads to,
/// starting from the empty state.
pub open spec fn replay(log: Seq<Trade>) -> TrackerState
    decreases log.len(),
{
    if log.len() == 0 {
        TrackerState::empty()
    } else {
        replay(log.drop_last()).record(log.last().market_id, log.last().profit_cents)
    }
}

/// The number of trades of `market_id` in `log`.
pub open spec fn trades_of(log: Seq<Trade>, market_id: Seq<char>) -> nat
    decreases log.len(),
{
    if log.len() == 0 {
        0
    } else {
        trades_of(log.drop_last(), market_id) + if log.last().market_id == market_id {
            1nat
        } else {
            0nat
        }
    }
}

/// The sum of the profits of the trades in `log`.
pub open spec fn net_profit(log: Seq<Trade>) -> int
    decreases log.len(),
{
    if log.len() == 0 {
        0
    } else {
        net_profit(log.drop_last()) + log.last().profit_cents
    }
}

/// A trade opens one contract pair in its market and touches no other
/// market: positions never shrink.
pub proof fn lemma_record_only_opens(
    state: TrackerState,
    market_id: Seq<char>,
    profit_cents: int,
    other: Seq<char>,
)
    ensures
        state.record(market_id, profit_cents).position(market_id) == state.position(market_id) + 1,
        other != market_id ==> state.record(market_id, profit_cents).position(other)
            == state.position(other),
        state.record(market_id, profit_cents).position(other) >= state.position(other),
{
}

/// After any sequence of trades, a market's position is the number of its
/// trades, the trade count is the number of all trades, and the P&L is the
/// sum of their profits.
pub proof fn lemma_replay_totals(log: Seq<Trade>, market_id: Seq<char>)
    ensures
        replay(log).position(market_id) == trades_of(log, market_id),
        replay(log).trade_count == log.len(),
        replay(log).total_pnl == net_profit(log),
    decreases log.len(),
{
    if log.len() > 0 {
        lemma_replay_totals(log.drop_last(), market_id);
        lemma_record_only_opens(
            replay(log.drop_last()),
            log.last().market_id,
            log.last().profit_cents,
            market_id,
        );
    }
}

/// Admission control: once `max_size` or more trades of a market are
/// recorded, the market may not be traded, whatever the trades earned.
pub proof fn lemma_admission_closes(log: Seq<Trade>, market_id: Seq<char>, max_size: int)
    requires
        trades_of(log, market_id) >= max_size,
    ensures
        !replay(log).can_trade(market_id, max_size),
{
    lemma_replay_totals(log, market_id);
}

/// Admission stays open below the limit: with fewer than `max_size`
/// trades of a market recorded, the market may be traded.
pub proof fn lemma_admission_open(log: Seq<Trade>, market_id: Seq<char>, max_size: int)
    requires
        trades_of(log, market_id) < max_size,
    ensures
        replay(log).can_trade(market_id, max_size),
{
    lemma_replay_totals(log, market_id);
}

/// Risk ceiling: once the recorded trades lose more than the ceiling in
/// sum, the loss check holds, and it holds again after every further
/// trade that earns nothing.
pub proof fn lemma_loss_ceiling(log: Seq<Trade>, max_loss_cents: int, next: Trade)
    requires
        -net_profit(log) > max_loss_cents,
    ensures
        replay(log).loss_exceeds(max_loss_cents),
        next.profit_cents <= 0 ==> replay(log.push(next)).loss_exceeds(max_loss_cents),
{
    lemma_replay_totals(log, next.market_id);
    assert(log.push(next).drop_last() =~= log);
    lemma_replay_totals(log.push(next), next.market_id);
}

/// While every counter has room, the counters move exactly as the trade
/// asks.
pub proof fn lemma_record_capped_exact(state: TrackerState, market_id: Seq<char>, profit_cents: int)
    requires
        state.has_room(market_id, profit_cents),
    ensures
        state.record_capped(market_id, profit_cents) == state.record(market_id, profit_cents),
{
}

/// Also at the counters' limits a trade never lowers a position and
/// touches no other market.
pub proof fn lemma_record_capped_only_opens(
    state: TrackerState,
    market_id: Seq<char>,
    profit_cents: int,
    other: Seq<char>,
)
    requires
        state.position(market_id) <= u16::MAX,
    ensures
        state.record_capped(market_id, profit_cents).position(other) >= state.position(other),
        other != market_id ==> state.record_capped(market_id, profit_cents).position(other)
            == state.position(other),
        state.record_capped(market_id, profit_cents).position(market_id) <= u16::MAX,
{
}

/// The state that recording the trades of `log` in order leads to when
/// the counters are machine integers, starting from the empty state.
pub open spec fn replay_capped(log: Seq<Trade>) -> TrackerState
    decreases log.len(),
{
    if log.len() == 0 {
        TrackerState::empty()
    } else {
        replay_capped(log.drop_last()).record_capped(log.last().market_id, log.last().profit_cents)
    }
}

/// Every trade of `log` found room in every counter.
pub open spec fn log_fits(log: Seq<Trade>) -> bool
    decreases log.len(),
{
    log.len() == 0 || (log_fits(log.drop_last()) && replay(log.drop_last()).has_room(
        log.last().market_id,
        log.last().profit_cents,
    ))
}

/// With machine counters a market's position is the number of its trades,
/// up to the counter's limit.
pub proof fn lemma_replay_capped_position(log: Seq<Trade>, market_id: Seq<char>)
    ensures
        replay_capped(log).position(market_id) == clamp(
            trades_of(log, market_id) as int,
            0,
            u16::MAX as int,
        ),
    decreases log.len(),
{
    if log.len() > 0 {
        lemma_replay_capped_position(log.drop_last(), market_id);
        lemma_replay_capped_position(log.drop_last(), log.last().market_id);
    }
}

/// Admission control with machine counters: once `max_size` or more
/// trades of a market are recorded, the market may not be traded,
/// whatever the trades earned and however many they are.
pub proof fn lemma_admission_closes_capped(log: Seq<Trade>, market_id: Seq<char>, max_size: u16)
    requires
        trades_of(log, market_id) >= max_size,
    ensures
        !replay_capped(log).can_trade(market_id, max_size as int),
{
    lemma_replay_capped_position(log, market_id);
}

/// While every trade finds room, machine counters hold what the trades
/// add up to.
pub proof fn lemma_replay_capped_exact(log: Seq<Trade>)
    requires
        log_fits(log),
    ensures
        replay_capped(log) == replay(log),
    decreases log.len(),
{
    if log.len() > 0 {
        lemma_replay_capped_exact(log.drop_last());
        lemma_record_capped_exact(
            replay(log.drop_last()),
            log.last().market_id,
            log.last().profit_cents,
        );
    }
}

/// Risk ceiling with machine counters: while every trade finds room, the
/// loss check holds once the recorded trades lose more than the ceiling
/// in sum.
pub proof fn lemma_loss_ceiling_capped(log: Seq<Trade>, max_loss_cents: int)
    requires
        log_fits(log),
        -net_profit(log) > max_loss_cents,
    ensures
        replay_capped(log).loss_exceeds(max_loss_cents),
{
    lemma_replay_capped_exact(log);
    lemma_replay_totals(log, Seq::empty());
}

/// The open position of one market.
#[derive(Debug)]
struct Position {
    market_id: String,
    contracts: u16,
}

/// Tracks positions per market, the cumulative P&L and the trade count.
#[derive(Debug)]
pub struct PositionTracker {
    /// Market ID -> position size (in contracts); each market once.
    positions: Vec<Position>,
    /// Total P&L in cents.
    total_pnl: i32,
    /// Trade count.
    trade_count: u32,
}

/// The market identifiers of the tracked positions, in order.
spec fn keys_of(positions: Seq<Position>) -> Seq<Seq<char>> {
    Seq::new(positions.len(), |i: int| positions[i].market_id@)
}

/// The contract counts of the tracked positions, in order.
spec fn counts_of(positions: Seq<Position>) -> Seq<u16> {
    Seq::new(positions.len(), |i: int| positions[i].contracts)
}

/// Every market occurs once and holds at least one contract.
spec fn positions_valid(positions: Seq<Position>) -> bool {
    &&& keys_of(positions).no_duplicates()
    &&& forall|i: int| 0 <= i < positions.len() ==> (#[trigger] positions[i]).contracts >= 1
}

/// The position map that two parallel sequences stand for.
spec fn positions_of(keys: Seq<Seq<char>>, contracts: Seq<u16>) -> Map<Seq<char>, nat> {
    Map::new(|id: Seq<char>| keys.contains(id), |id: Seq<char>| contracts[keys.index_of(id)] as nat)
}

impl View for PositionTracker {
    type V = TrackerState;

    closed spec fn view(&self) -> TrackerState {
        TrackerState {
            positions: positions_of(keys_of(self.positions@), counts_of(self.positions@)),
            total_pnl: self.total_pnl as int,
            trade_count: self.trade_count as nat,
        }
    }
}

impl PositionTracker {
    #[verifier::type_invariant]
    spec fn well_formed(self) -> bool {
        positions_valid(self.positions@)
    }

    /// A tracker without positions or trades.
    pub fn new() -> (tracker: Self)
        ensures
            tracker@ == TrackerState::empty(),
    {
        let tracker = PositionTracker {
            positions: Vec::new(),
            total_pnl: 0,
            trade_count: 0,
        };
        assert(tracker@.positions =~= Map::empty());
        tracker
    }

    /// The index of `market_id` among the tracked positions.
    fn find(positions: &Vec<Position>, market_id: &str) -> (found: Option<usize>)
        ensures
            match found {
                Some(i) => i < positions@.len() && positions@[i as int].market_id@ == market_id@,
                None => !keys_of(positions@).contains(market_id@),
            },
    {
        let mut i: usize = 0;
        while i < positions.len()
            invariant
                i <= positions@.len(),
                forall|j: int| 0 <= j < i ==> positions@[j].market_id@ != market_id@,
            decreases positions@.len() - i,
        {
            if positions[i].market_id.as_str().eq(market_id) {
                return Some(i);
            }
            i += 1;
        }
        None
    }

    /// Current position for a market.
    pub fn get_position(&self, market_id: &str) -> (contracts: u16)
        ensures
            contracts as nat == self@.position(market_id@),
    {
        proof {
            use_type_invariant(self);
        }
        match Self::find(&self.positions, market_id) {
            Some(i) => {
                proof {
                    let keys = keys_of(self.positions@);
                    assert(keys[i as int] == market_id@);
                    assert(keys.contains(market_id@));
                    assert(keys.index_of(market_id@) == i as int);
                }
                self.positions[i].contracts
            },
            None => 0,
        }
    }

    /// Check if we can trade (within position limits).
    pub fn can_trade(&self, market_id: &str, max_size: u16) -> (allowed: bool)
        ensures
            allowed == self@.can_trade(market_id@, max_size as int),
    {
        let current = self.get_position(market_id);
        current < max_size
    }

    /// Total P&L in cents.
    pub fn total_pnl(&self) -> (cents: i32)
        ensures
            cents as int == self@.total_pnl,
    {
        self.total_pnl
    }

    /// Trade count.
    pub fn trade_count(&self) -> (count: u32)
        ensures
            count as nat == self@.trade_count,
    {
        self.trade_count
    }

    /// Does every counter have room for one more trade, so that the trade
    /// is recorded exactly?
    pub fn has_room(&self, market_id: &str, profit_cents: i16) -> (room: bool)
        ensures
            room == self@.has_room(market_id@, profit_cents as int),
    {
        let after: i64 = self.total_pnl as i64 + profit_cents as i64;
        self.get_position(market_id) < u16::MAX && self.trade_count < u32::MAX && after
            >= i32::MIN as i64 && after <= i32::MAX as i64
    }

    /// Record a trade (simulated or actual): the market's position grows
    /// by one contract pair, the profit is added to the P&L, and the trade
    /// is counted. It never fails: a counter that has reached the limit of
    /// its machine integer stays there.
    pub fn record_trade(&mut self, market_id: &str, profit_cents: i16)
        ensures
            final(self)@ == old(self)@.record_capped(market_id@, profit_cents as int),
            old(self)@.has_room(market_id@, profit_cents as int) ==> final(self)@
                == old(self)@.record(market_id@, profit_cents as int),
    {
        proof {
            use_type_invariant(&*self);
        }
        let mut positions: Vec<Position> = Vec::new();
        std::mem::swap(&mut self.positions, &mut positions);
        let ghost old_keys = keys_of(positions@);
        let ghost old_counts = counts_of(positions@);
        let ghost id = market_id@;
        match Self::find(&positions, market_id) {
            Some(i) => {
                let current = positions[i].contracts;
                let raised: u16 = if current < u16::MAX {
                    current + 1
                } else {
                    current
                };
                proof {
                    assert(old_keys[i as int] == id);
                    assert(old_keys.contains(id));
                    assert(old_keys.index_of(id) == i as int);
                    lemma_set_known(old_keys, old_counts, i as int, raised);
                }
                positions[i].contracts = raised;
                assert(keys_of(positions@) =~= old_keys);
                assert(counts_of(positions@) =~= old_counts.update(i as int, raised));
            },
            None => {
                positions.push(Position { market_id: market_id.to_owned(), contracts: 1 });
                proof {
                    assert(keys_of(positions@) =~= old_keys.push(id));
                    assert(counts_of(positions@) =~= old_counts.push(1));
                    lemma_record_fresh(old_keys, old_counts, id);
                }
            },
        }
        std::mem::swap(&mut self.positions, &mut positions);
        let sum: i64 = self.total_pnl as i64 + profit_cents as i64;
        self.total_pnl = if sum < i32::MIN as i64 {
            i32::MIN
        } else if sum > i32::MAX as i64 {
            i32::MAX
        } else {
            sum as i32
        };
        if self.trade_count < u32::MAX {
            self.trade_count = self.trade_count + 1;
        }
    }

    /// The cumulative loss is above `max_daily_loss_cents`.
    pub fn loss_exceeds(&self, max_daily_loss_cents: u16) -> (breached: bool)
        ensures
            breached == self@.loss_exceeds(max_daily_loss_cents as int),
    {
        -(self.total_pnl as i64) > max_daily_loss_cents as i64
    }

    /// P&L summary: trade count, cumulative P&L in dollars, and the
    /// number of markets with an open position.
    pub fn summary(&self) -> (text: String)
        ensures
            text@ == self@.summary(),
    {
        proof {
            use_type_invariant(self);
            let keys = keys_of(self.positions@);
            assert(self@.positions.dom() =~= keys.to_set());
            keys.unique_seq_to_set();
        }
        let trades = decimal_string(self.trade_count as u64);
        let pnl = dollars_string(self.total_pnl as i64);
        let open = decimal_string(self.positions.len() as u64);
        let mut text = String::from_str("Trades: ");
        text.append(trades.as_str());
        text.append(" | P&L: $");
        text.append(pnl.as_str());
        text.append(" | Positions: ");
        text.append(open.as_str());
        text
    }
}

impl Default for PositionTracker {
    fn default() -> (tracker: Self)
        ensures
            tracker@ == TrackerState::empty(),
    {
        PositionTracker::new()
    }
}

/// Setting the count of a tracked market is an insertion into the
/// position map.
proof fn lemma_set_known(keys: Seq<Seq<char>>, contracts: Seq<u16>, i: int, count: u16)
    requires
        keys.len() == contracts.len(),
        keys.no_duplicates(),
        0 <= i < keys.len(),
    ensures
        positions_of(keys, contracts.update(i, count)) == positions_of(keys, contracts).insert(
            keys[i],
            count as nat,
        ),
{
    let before = positions_of(keys, contracts);
    let after = positions_of(keys, contracts.update(i, count));
    assert forall|id: Seq<char>| #[trigger] after.dom().contains(id) implies after[id]
        == before.insert(keys[i], count as nat)[id] by {
        let j = keys.index_of(id);
        assert(0 <= j < keys.len() && keys[j] == id);
    }
    assert(after =~= before.insert(keys[i], count as nat));
}

/// Tracking a new market with one contract is an insertion into the
/// position map.
proof fn lemma_record_fresh(keys: Seq<Seq<char>>, contracts: Seq<u16>, id: Seq<char>)
    requires
        keys.len() == contracts.len(),
        keys.no_duplicates(),
        !keys.contains(id),
    ensures
        keys.push(id).no_duplicates(),
        positions_of(keys.push(id), contracts.push(1)) == positions_of(keys, contracts).insert(
            id,
            1,
        ),
{
    let grown = keys.push(id);
    assert forall|a: int, b: int| 0 <= a < grown.len() && 0 <= b < grown.len() && a != b implies grown[a]
        != grown[b] by {
        if a < keys.len() {
            assert(keys[a] == grown[a]);
        }
        if b < keys.len() {
            assert(keys[b] == grown[b]);
        }
    }
    let before = positions_of(keys, contracts);
    let after = positions_of(grown, contracts.push(1));
    assert(grown[keys.len() as int] == id);
    assert forall|k: Seq<char>| #[trigger] after.dom().contains(k) <==> before.insert(
        id,
        1,
    ).dom().contains(k) by {
        if keys.contains(k) {
            let j = keys.index_of(k);
            assert(grown[j] == k);
        }
        if grown.contains(k) && k != id {
            let j = grown.index_of(k);
            assert(j < keys.len());
            assert(keys[j] == k);
        }
    }
    assert forall|k: Seq<char>| #[trigger] after.dom().contains(k) implies after[k]
        == before.insert(id, 1)[k] by {
        let j = grown.index_of(k);
        assert(0 <= j < grown.len() && grown[j] == k);
        if k != id {
            assert(j < keys.len());
            assert(keys[j] == k);
            let old_j = keys.index_of(k);
            assert(0 <= old_j < keys.len() && keys[old_j] == k);
            assert(old_j == j);
        }
    }
    assert(after =~= before.insert(id, 1));
}

} // verus!
