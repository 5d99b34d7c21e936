//! Fixed settings, the market catalog, and the settings read from text.

use crate::text::{lowercase, parse_u16, parsed_u16, to_lowercase};
use crate::types::{MarketPair, MarketPairView, MarketType};
use vstd::prelude::*;
use vstd::string::StringExecFns;

verus! {

/// Guaranteed payout of a YES+NO pair in cents (100 = $1.00): a
/// combination is an opportunity only if it costs less.
pub const ARB_THRESHOLD_CENTS: u16 = 100;

/// Delay before a dropped feed connection is opened again, in seconds.
pub const WS_RECONNECT_DELAY_SECS: u64 = 5;

/// Position limit per market when none is configured, in contracts.
pub const DEFAULT_MAX_POSITION_SIZE: u16 = 10;

/// Loss ceiling when none is configured, in cents ($50.00).
pub const DEFAULT_MAX_DAILY_LOSS_CENTS: u16 = 5000;

/// The fixed catalog of tracked markets.
pub open spec fn hardcoded_markets() -> Seq<MarketPairView> {
    seq![
        MarketPairView {
            id: "chelsea-arsenal"@,
            description: "Chelsea vs Arsenal (EPL)"@,
            market_type: MarketType::Moneyline,
            kalshi_ticker: "KXEPLGAME-25DEC27CFCARS-CFC"@,
            poly_slug: "chelsea-vs-arsenal"@,
            poly_yes_token: "0x123...abc"@,
            poly_no_token: "0x456...def"@,
        },
        MarketPairView {
            id: "lakers-celtics"@,
            description: "Lakers vs Celtics (NBA)"@,
            market_type: MarketType::Moneyline,
            kalshi_ticker: "KXNBAGAME-25JAN15LALCEL-LAL"@,
            poly_slug: "lakers-vs-celtics"@,
            poly_yes_token: "0x789...ghi"@,
            poly_no_token: "0xabc...jkl"@,
        },
        MarketPairView {
            id: "bitcoin-100k"@,
            description: "Bitcoin > $100k (Feb 2025)"@,
            market_type: MarketType::Total,
            kalshi_ticker: "KXBTC-25FEB01-100K"@,
            poly_slug: "bitcoin-100k-feb-2025"@,
            poly_yes_token: "0xdef...mno"@,
            poly_no_token: "0xghi...pqr"@,
        },
    ]
}

/// The fixed market list. The outcome tokens are stand-ins until markets
/// are discovered from the venues.
pub fn get_hardcoded_markets() -> (markets: Vec<MarketPair>)
    ensures
        markets@.len() == hardcoded_markets().len(),
        forall|i: int| 0 <= i < markets@.len() ==> (#[trigger] markets@[i])@ == hardcoded_markets()[i],
{
    let mut markets: Vec<MarketPair> = Vec::new();
    markets.push(
        MarketPair {
            id: String::from_str("chelsea-arsenal"),
            description: String::from_str("Chelsea vs Arsenal (EPL)"),
            market_type: MarketType::Moneyline,
            kalshi_ticker: String::from_str("KXEPLGAME-25DEC27CFCARS-CFC"),
            poly_slug: String::from_str("chelsea-vs-arsenal"),
            poly_yes_token: String::from_str("0x123...abc"),
            poly_no_token: String::from_str("0x456...def"),
        },
    );
    markets.push(
        MarketPair {
            id: String::from_str("lakers-celtics"),
            description: String::from_str("Lakers vs Celtics (NBA)"),
            market_type: MarketType::Moneyline,
            kalshi_ticker: String::from_str("KXNBAGAME-25JAN15LALCEL-LAL"),
            poly_slug: String::from_str("lakers-vs-celtics"),
            poly_yes_token: String::from_str("0x789...ghi"),
            poly_no_token: String::from_str("0xabc...jkl"),
        },
    );
    markets.push(
        MarketPair {
            id: String::from_str("bitcoin-100k"),
            description: String::from_str("Bitcoin > $100k (Feb 2025)"),
            market_type: MarketType::Total,
            kalshi_ticker: String::from_str("KXBTC-25FEB01-100K"),
            poly_slug: String::from_str("bitcoin-100k-feb-2025"),
            poly_yes_token: String::from_str("0xdef...mno"),
            poly_no_token: String::from_str("0xghi...pqr"),
        },
    );
    markets
}

/// The number that a setting stands for: the number it writes, or
/// `fallback` where the setting is absent or writes no 16-bit number.
pub open spec fn setting_or(raw: Option<&str>, fallback: u16) -> u16 {
    match raw {
        Some(text) => match parsed_u16(text@) {
            Some(number) => number,
            None => fallback,
        },
        None => fallback,
    }
}

/// Reads a numeric setting.
fn number_or(raw: Option<&str>, fallback: u16) -> (number: u16)
    ensures
        number == setting_or(raw, fallback),
{
    match raw {
        Some(text) => match parse_u16(text) {
            Some(number) => number,
            None => fallback,
        },
        None => fallback,
    }
}

/// Max position size per market from its setting (default: 10
/// contracts).
pub fn max_position_size(raw: Option<&str>) -> (size: u16)
    ensures
        size == setting_or(raw, DEFAULT_MAX_POSITION_SIZE),
{
    number_or(raw, DEFAULT_MAX_POSITION_SIZE)
}

/// Max daily loss in cents from its setting (default: $50.00).
pub fn max_daily_loss_cents(raw: Option<&str>) -> (cents: u16)
    ensures
        cents == setting_or(raw, DEFAULT_MAX_DAILY_LOSS_CENTS),
{
    number_or(raw, DEFAULT_MAX_DAILY_LOSS_CENTS)
}

/// A setting switches simulation on when it is `1` or, in lower case,
/// `true`.
pub open spec fn switches_on(value: Seq<char>, lowered: Seq<char>) -> bool {
    value == "1"@ || lowered == "true"@
}

/// Decides the simulation switch from the setting and its lower-case
/// form.
pub fn dry_run_switch(value: &str, lowered: &str) -> (on: bool)
    ensures
        on == switches_on(value@, lowered@),
{
    value.eq("1") || lowered.eq("true")
}

/// Whether simulation mode is enabled by its setting (default: true).
pub fn is_dry_run(raw: Option<&str>) -> (dry_run: bool)
    ensures
        dry_run == match raw {
            Some(value) => switches_on(value@, lowercase(value@)),
            None => true,
        },
{
    match raw {
        Some(value) => {
            let lowered = to_lowercase(value);
            dry_run_switch(value, lowered.as_str())
        },
        None => true,
    }
}

} // verus!
