//! Evaluation of crypto contracts: which of them to look at, when to enter, when to leave.
//!
//! Prices and probabilities are compared here; they are computed by the caller. An evaluation
//! goes through guards in a fixed order, and the first that objects ends it with an entry for
//! the audit log.
use vstd::prelude::*;
use vstd::string::*;

use crate::config::Config;
use crate::contract_discovery::{count_on_asset, on_asset, CryptoContract};
use crate::crypto_asset::{known_assets, CryptoAsset};
use crate::float::Float;
use crate::json::{as_bool, as_number, bool_in, field, get, json_of, number_in, owned, parse_json, Json, JsonView};
use crate::order_manager::order::text_of;
use crate::table::Table;
use crate::text::{decimal, usize_text};
use crate::time::{elapsed, since};

pub mod edge_tracker;
pub mod entry;
pub mod exit;
pub mod hurdles;
pub mod limiter;

verus! {

/// Spread that is assumed where none is known: 0.10
pub const DEFAULT_SPREAD_BITS: u64 = 0x3fb9_9999_9999_999a;

/// At this price and below no contract is looked at: 0.02
pub const PRICE_TOO_LOW_BITS: u64 = 0x3f94_7ae1_47ae_147b;

/// At this price and above no contract is looked at: 0.98
pub const PRICE_TOO_HIGH_BITS: u64 = 0x3fef_5c28_f5c2_8f5c;

/// Below this price the model is no guide: 0.30
pub const PRICE_FLOOR_BITS: u64 = 0x3fd3_3333_3333_3333;

/// Above this price the model is no guide: 0.70
pub const PRICE_CEILING_BITS: u64 = 0x3fe6_6666_6666_6666;

/// Spreads below this one are tight: 0.04
pub const TIGHT_SPREAD_BITS: u64 = 0x3fa4_7ae1_47ae_147b;

/// 0.01
pub const TIGHT_BONUS_BITS: u64 = 0x3f84_7ae1_47ae_147b;

/// -0.01
pub const TIGHT_MALUS_BITS: u64 = 0xbf84_7ae1_47ae_147b;

/// -0.02
pub const WIDE_MALUS_BITS: u64 = 0xbf94_7ae1_47ae_147b;

/// Edge per second above which an entry waits: 0.001
pub const GROWTH_LIMIT_BITS: u64 = 0x3f50_624d_d2f1_a9fc;

/// Edge below which a position is left: -0.03
pub const EXIT_EDGE_THRESHOLD_BITS: u64 = 0xbf9e_b851_eb85_1eb8;

/// Minutes before settlement after which no exit is tried: 2
pub const EXIT_MINUTES_BITS: u64 = 0x4000_0000_0000_0000;

/// 0.5
pub const HALF_BITS: u64 = 0x3fe0_0000_0000_0000;

/// Milliseconds within which a ticker is not evaluated again.
pub const DEBOUNCE_MS: u64 = 250;

/// Where a contract stands on its way to settlement.
#[derive(Clone, Copy, Debug, PartialEq, Eq, Structural)]
pub enum ContractPhase {
    /// Too early.
    Eligible,
    /// In the window for entries.
    InWindow,
    /// Near settlement: exits only.
    ExitOnly,
}

pub open spec fn phase(minutes: Float, min: Float, max: Float) -> ContractPhase {
    if max.lt(minutes) {
        ContractPhase::Eligible
    } else if min.le(minutes) {
        ContractPhase::InWindow
    } else {
        ContractPhase::ExitOnly
    }
}

/// The phase of a contract with so many minutes to go.
pub fn contract_phase(minutes_remaining: Float, min_minutes: Float, max_minutes: Float) -> (r: ContractPhase)
    ensures
        r == phase(minutes_remaining, min_minutes, max_minutes),
{
    if max_minutes.less(minutes_remaining) {
        ContractPhase::Eligible
    } else if min_minutes.less_eq(minutes_remaining) {
        ContractPhase::InWindow
    } else {
        ContractPhase::ExitOnly
    }
}

/// What is to be done about a contract after a price update.
#[derive(Clone, Copy, Debug, PartialEq, Eq, Structural)]
pub enum ContractStep {
    Skip,
    TooEarly,
    Enter,
    Exit,
}

/// The step that a phase calls for.
pub open spec fn step_of(p: ContractPhase) -> ContractStep {
    match p {
        ContractPhase::Eligible => ContractStep::TooEarly,
        ContractPhase::InWindow => ContractStep::Enter,
        ContractPhase::ExitOnly => ContractStep::Exit,
    }
}

/// When each ticker was last evaluated.
pub struct Debounce {
    last_eval: Table<u64>,
}

impl View for Debounce {
    type V = Map<Seq<char>, u64>;

    closed spec fn view(&self) -> Map<Seq<char>, u64> {
        self.last_eval@
    }
}

/// A ticker that was evaluated a moment ago.
pub open spec fn just_evaluated(last: Map<Seq<char>, u64>, ticker: Seq<char>, now: u64) -> bool {
    last.contains_key(ticker) && since(now, last[ticker]) / 1_000_000 < DEBOUNCE_MS
}

/// What is to be done about the contract on a ticker after a price update, and which evaluations
/// are remembered afterwards.
pub open spec fn stepped(
    before: Map<Seq<char>, u64>,
    after: Map<Seq<char>, u64>,
    r: ContractStep,
    ticker: Seq<char>,
    shadow_rti: Float,
    minutes: Float,
    min: Float,
    max: Float,
    now: u64,
) -> bool {
    if shadow_rti.le(Float { bits: 0 }) || just_evaluated(before, ticker, now) {
        r == ContractStep::Skip && after == before
    } else {
        &&& after == before.insert(ticker, now)
        &&& r == (if minutes.le(Float { bits: 0 }) { ContractStep::Skip } else { step_of(phase(minutes, min, max)) })
    }
}

impl Debounce {
    pub closed spec fn wf(&self) -> bool {
        self.last_eval.wf()
    }

    pub fn new() -> (r: Self)
        ensures
            r.wf(),
            r@ == Map::<Seq<char>, u64>::empty(),
    {
        Debounce { last_eval: Table::new() }
    }

    /// What is to be done about the contract on `ticker`: nothing without a price, nothing if it
    /// was evaluated a moment ago, nothing after settlement; else what its phase calls for.
    pub fn next_step(
        &mut self,
        ticker: &str,
        shadow_rti: Float,
        minutes_remaining: Float,
        config: &Config,
        now: u64,
    ) -> (r: ContractStep)
        requires
            old(self).wf(),
        ensures
            final(self).wf(),
            stepped(
                old(self)@,
                final(self)@,
                r,
                ticker@,
                shadow_rti,
                minutes_remaining,
                config.crypto_entry_min_minutes.value,
                config.crypto_entry_max_minutes.value,
                now,
            ),
    {
        if shadow_rti.less_eq(Float::from_bits(0)) {
            return ContractStep::Skip;
        }
        if let Some(last) = self.last_eval.get(ticker) {
            if elapsed(now, *last) / 1_000_000 < DEBOUNCE_MS {
                return ContractStep::Skip;
            }
        }
        self.last_eval.insert(ticker.to_owned(), now);
        if minutes_remaining.less_eq(Float::from_bits(0)) {
            return ContractStep::Skip;
        }
        match contract_phase(
            minutes_remaining,
            config.crypto_entry_min_minutes.value,
            config.crypto_entry_max_minutes.value,
        ) {
            ContractPhase::Eligible => ContractStep::TooEarly,
            ContractPhase::InWindow => ContractStep::Enter,
            ContractPhase::ExitOnly => ContractStep::Exit,
        }
    }
}

/// The spread to reckon with: that of the book, failing it that of the ticker channel, failing
/// that the assumed one; a negative one counts as unknown.
pub open spec fn usable_spread(book: Option<Float>, told: Option<Float>) -> Float {
    let raw = match book {
        Some(x) => x,
        None => match told {
            Some(x) => x,
            None => Float { bits: DEFAULT_SPREAD_BITS },
        },
    };
    if raw.lt(Float { bits: 0 }) { Float { bits: DEFAULT_SPREAD_BITS } } else { raw }
}

/// The spread to reckon with.
pub fn effective_spread(book: Option<Float>, told: Option<Float>) -> (r: Float)
    ensures
        r == usable_spread(book, told),
{
    let raw: Float = match book {
        Some(x) => x,
        None => match told {
            Some(x) => x,
            None => Float::from_bits(DEFAULT_SPREAD_BITS),
        },
    };
    if raw.less(Float::from_bits(0)) { Float::from_bits(DEFAULT_SPREAD_BITS) } else { raw }
}

/// What a spread adds to the edge: a bonus if it is tight, a malus if it is wide.
pub open spec fn spread_bonus(spread: Float) -> Float {
    if spread.lt(Float { bits: TIGHT_SPREAD_BITS }) {
        Float { bits: TIGHT_BONUS_BITS }
    } else if (Float { bits: DEFAULT_SPREAD_BITS }).lt(spread) {
        Float { bits: WIDE_MALUS_BITS }
    } else {
        Float { bits: 0 }
    }
}

/// What a spread adds to the edge.
pub fn spread_regime(spread: Float) -> (r: Float)
    ensures
        r == spread_bonus(spread),
{
    if spread.less(Float::from_bits(TIGHT_SPREAD_BITS)) {
        Float::from_bits(TIGHT_BONUS_BITS)
    } else if Float::from_bits(DEFAULT_SPREAD_BITS).less(spread) {
        Float::from_bits(WIDE_MALUS_BITS)
    } else {
        Float::from_bits(0)
    }
}

/// Whether a fraction, taken with the sign of a direction, is positive.
pub open spec fn points_along(pressure: Option<(i128, i128)>, yes: bool) -> bool {
    match pressure {
        Some(f) => if yes {
            (f.0 > 0 && f.1 > 0) || (f.0 < 0 && f.1 < 0)
        } else {
            (f.0 > 0 && f.1 < 0) || (f.0 < 0 && f.1 > 0)
        },
        None => false,
    }
}

/// What a surge of volume adds to the edge: a bonus if takers press along with the trade, a
/// malus if they do not, nothing without a surge.
pub open spec fn surge_bonus(surge: bool, pressure: Option<(i128, i128)>, yes: bool) -> Float {
    Float {
        bits: if !surge {
            0
        } else if points_along(pressure, yes) {
            TIGHT_BONUS_BITS
        } else {
            TIGHT_MALUS_BITS
        },
    }
}

/// What a surge of volume adds to the edge. `pressure` is a numerator and a denominator.
pub fn surge_signal(surge: bool, pressure: Option<(i128, i128)>, yes: bool) -> (r: Float)
    ensures
        r == surge_bonus(surge, pressure, yes),
{
    if !surge {
        return Float::from_bits(0);
    }
    let along: bool = match pressure {
        Some(f) => if yes {
            (f.0 > 0 && f.1 > 0) || (f.0 < 0 && f.1 < 0)
        } else {
            (f.0 > 0 && f.1 < 0) || (f.0 < 0 && f.1 > 0)
        },
        None => false,
    };
    if along { Float::from_bits(TIGHT_BONUS_BITS) } else { Float::from_bits(TIGHT_MALUS_BITS) }
}

/// What a market summary says of momentum, as text, and of a surge of volume.
pub open spec fn signals_in(j: JsonView) -> (Option<Seq<char>>, bool) {
    (number_in(field(j, "price_momentum"@)), bool_in(field(j, "volume_surge"@)) == Some(true))
}

/// What a market summary says of momentum, as text, and of a surge of volume.
pub fn read_signals(j: &Json) -> (r: (Option<String>, bool))
    ensures
        (text_of(r.0), r.1) == signals_in(j@),
{
    let momentum: Option<String> = owned(as_number(get(j, "price_momentum")));
    let surge: bool = match as_bool(get(j, "volume_surge")) {
        Some(b) => b,
        None => false,
    };
    (momentum, surge)
}

/// What the text of a market summary says of momentum and of a surge of volume; nothing and no
/// where there is no such text.
pub fn read_ticker_signals(summary: Option<&str>) -> (r: (Option<String>, bool))
    ensures
        (text_of(r.0), r.1) == (match summary {
            Some(text) => match json_of(text@) {
                Some(j) => signals_in(j),
                None => (None, false),
            },
            None => (None, false),
        }),
{
    match summary {
        Some(text) => match parse_json(text) {
            Some(j) => read_signals(&j),
            None => (None, false),
        },
        None => (None, false),
    }
}

/// How many contracts there are on an asset, in words, with a comma before it where something
/// stands before it; nothing where there are none.
pub open spec fn counted(contracts: Seq<CryptoContract>, asset: CryptoAsset, before: Seq<char>) -> Seq<char> {
    if on_asset(contracts, asset) == 0 {
        before
    } else {
        (if before.len() > 0 { before + ", "@ } else { before }) + asset.short_name_text() + "="@ + decimal(
            on_asset(contracts, asset) as int,
        )
    }
}

/// How many contracts there are on each of the first `n` known assets.
pub open spec fn counts(contracts: Seq<CryptoContract>, n: int) -> Seq<char>
    decreases n,
{
    if n <= 0 { Seq::empty() } else { counted(contracts, known_assets()[n - 1], counts(contracts, n - 1)) }
}

/// How many contracts there are on each asset that has any.
pub fn asset_summary(contracts: &Vec<CryptoContract>) -> (r: String)
    ensures
        r@ == counts(contracts@, 5),
{
    let assets: [CryptoAsset; 5] = CryptoAsset::all();
    let mut out: String = String::new();
    let mut i: usize = 0;
    while i < 5
        invariant
            i <= 5,
            assets@ == known_assets(),
            out@ == counts(contracts@, i as int),
        decreases 5 - i,
    {
        let n: usize = count_on_asset(contracts, assets[i]);
        if n > 0 {
            if !out.as_str().is_empty() {
                out.append(", ");
            }
            out.append(assets[i].short_name());
            out.append("=");
            out.append(usize_text(n).as_str());
        }
        i = i + 1;
    }
    out
}

/// A contract is in its window from the least to the greatest number of minutes, both included;
/// before that it is too early, after that only exits are left.
pub proof fn phases_meet_at_the_window(minutes: Float, min: Float, max: Float)
    requires
        !minutes.not_a_number() && !min.not_a_number() && !max.not_a_number(),
        min.rank() <= max.rank(),
    ensures
        phase(minutes, min, max) is InWindow <==> min.rank() <= minutes.rank() <= max.rank(),
        phase(minutes, min, max) is Eligible <==> max.rank() < minutes.rank(),
        phase(minutes, min, max) is ExitOnly <==> minutes.rank() < min.rank(),
{
}

/// An entry is looked for only on a contract with a price, not yet settled and in its window, and
/// an exit only past the window. Whatever is looked at is not looked at again within a quarter of
/// a second, and is from then on; another ticker is not held up by it.
pub proof fn steps_follow_price_and_phase(
    before: Map<Seq<char>, u64>,
    after: Map<Seq<char>, u64>,
    r: ContractStep,
    ticker: Seq<char>,
    other: Seq<char>,
    rti: Float,
    minutes: Float,
    min: Float,
    max: Float,
    now: u64,
    later: u64,
)
    requires
        stepped(before, after, r, ticker, rti, minutes, min, max, now),
        !rti.not_a_number() && !minutes.not_a_number() && !min.not_a_number() && !max.not_a_number(),
        now <= later,
    ensures
        r is Enter ==> rti.rank() > 0 && minutes.rank() > 0 && min.rank() <= minutes.rank() <= max.rank(),
        r is Exit ==> rti.rank() > 0 && 0 < minutes.rank() < min.rank(),
        r is TooEarly ==> rti.rank() > 0 && max.rank() < minutes.rank(),
        !before.contains_key(ticker) && rti.rank() > 0 && minutes.rank() > 0 && min.rank() <= minutes.rank()
            <= max.rank() ==> r is Enter,
        before.contains_key(ticker) && now - before[ticker] >= 250_000_000 && rti.rank() > 0 && 0 < minutes.rank()
            < min.rank() && minutes.rank() <= max.rank() ==> r is Exit,
        before.contains_key(ticker) && before[ticker] <= now && now - before[ticker] < 250_000_000 ==> r is Skip
            && after == before,
        rti.rank() <= 0 ==> r is Skip && after == before,
        !(r is Skip) ==> after.contains_key(ticker) && after[ticker] == now,
        !(r is Skip) ==> (just_evaluated(after, ticker, later) <==> later - now < 250_000_000),
        other != ticker ==> just_evaluated(after, other, later) == just_evaluated(before, other, later),
{
}

/// The book's own spread counts first, then the one told; a spread below zero counts as a tenth,
/// and so does none.
pub proof fn spreads_are_never_negative(book: Option<Float>, told: Option<Float>)
    ensures
        !usable_spread(book, told).lt(Float { bits: 0 }),
        book is Some && !(book->0).lt(Float { bits: 0 }) ==> Some(usable_spread(book, told)) == book,
        book is None && told is Some && !(told->0).lt(Float { bits: 0 }) ==> Some(usable_spread(book, told)) == told,
        book is Some && (book->0).lt(Float { bits: 0 }) ==> usable_spread(book, told).bits == 0x3fb9_9999_9999_999a,
        book is None && told is None ==> usable_spread(book, told).bits == 0x3fb9_9999_9999_999a,
{
}

/// A spread below 0.04 earns a hundredth, one above a tenth costs two, and the wider of two
/// spreads never earns more.
pub proof fn wider_spreads_earn_less(narrow: Float, wide: Float)
    requires
        narrow.le(wide),
    ensures
        narrow.rank() < 0x3fa4_7ae1_47ae_147b <==> spread_bonus(narrow).bits == 0x3f84_7ae1_47ae_147b,
        narrow.rank() > 0x3fb9_9999_9999_999a <==> spread_bonus(narrow).bits == 0xbf94_7ae1_47ae_147b,
        0x3fa4_7ae1_47ae_147b <= narrow.rank() <= 0x3fb9_9999_9999_999a <==> spread_bonus(narrow).bits == 0,
        spread_bonus(wide).le(spread_bonus(narrow)),
{
}

/// Pressure points along with yes exactly if it is above zero, and along with no exactly if it is
/// below; never along with both.
pub proof fn pressure_points_one_way(n: i128, d: i128)
    ensures
        points_along(Some((n, d)), true) <==> n * d > 0,
        points_along(Some((n, d)), false) <==> n * d < 0,
        !points_along(None, true) && !points_along(None, false),
{
    assert((n > 0 && d > 0) || (n < 0 && d < 0) <==> n * d > 0) by (nonlinear_arith);
    assert((n > 0 && d < 0) || (n < 0 && d > 0) <==> n * d < 0) by (nonlinear_arith);
}

/// A surge earns a hundredth on the side that takers press and costs a hundredth on the other;
/// without a surge nothing is earned.
pub proof fn surges_favour_one_side(n: i128, d: i128, yes: bool)
    ensures
        surge_bonus(false, Some((n, d)), yes).bits == 0,
        surge_bonus(true, None, yes).bits == 0xbf84_7ae1_47ae_147b,
        (if yes { n * d > 0 } else { n * d < 0 }) <==> surge_bonus(true, Some((n, d)), yes).bits
            == 0x3f84_7ae1_47ae_147b,
        (if yes { n * d > 0 } else { n * d < 0 }) || surge_bonus(true, Some((n, d)), yes).bits
            == 0xbf84_7ae1_47ae_147b,
        n * d != 0 ==> surge_bonus(true, Some((n, d)), yes) == surge_bonus(true, Some((n, d)), !yes).negated(),
{
    pressure_points_one_way(n, d);
}

/// A summary tells momentum if it states a number, and a surge only if it says so.
pub proof fn summaries_tell_what_they_state(j: JsonView, x: Seq<char>)
    ensures
        signals_in(j).0 == Some(x) <==> (field(j, "price_momentum"@) matches Some(JsonView::Number(n)) && n.text == x),
        signals_in(j).1 <==> field(j, "volume_surge"@) == Some(JsonView::Bool(true)),
{
}

/// An asset without contracts is not mentioned, any other with its number, after a comma where
/// something stands before it.
pub proof fn counts_mention_assets_with_contracts(contracts: Seq<CryptoContract>, n: int)
    requires
        0 <= n < 5,
    ensures
        counts(contracts, 0).len() == 0,
        on_asset(contracts, known_assets()[n]) == 0 ==> counts(contracts, n + 1) == counts(contracts, n),
        on_asset(contracts, known_assets()[n]) > 0 && counts(contracts, n).len() > 0 ==> counts(contracts, n + 1)
            == counts(contracts, n) + ", "@ + known_assets()[n].short_name_text() + "="@ + decimal(
            on_asset(contracts, known_assets()[n]) as int,
        ),
        on_asset(contracts, known_assets()[n]) > 0 && counts(contracts, n).len() == 0 ==> counts(contracts, n + 1)
            == known_assets()[n].short_name_text() + "="@ + decimal(on_asset(contracts, known_assets()[n]) as int),
{
    let name = known_assets()[n].short_name_text();
    if counts(contracts, n).len() == 0 {
        assert(counts(contracts, n) + name =~= name);
    }
}

} // verus!
