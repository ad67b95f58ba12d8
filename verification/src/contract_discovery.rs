//! Which contracts are worth watching.
use vstd::prelude::*;
use vstd::string::*;

use crate::crypto_asset::{asset_of, CryptoAsset};
use crate::float::Float;
use crate::text::uppercased;
use crate::time::{whole, Moment};

verus! {

/// A contract that settles soon.
#[derive(Clone, Debug)]
pub struct CryptoContract {
    pub ticker: String,
    pub strike: Float,
    pub settlement_time: Moment,
}

/// A contract with this strike is on the direction alone.
pub open spec fn directional(strike: Float) -> bool {
    !(Float { bits: 0 }).lt(strike)
}

/// Whole seconds from `now` until settlement, the rest dropped.
pub open spec fn remaining(settlement_time: Moment, now: Moment) -> int {
    whole(settlement_time.nanos_since(now), 1_000_000_000)
}

impl CryptoContract {
    /// A contract without a strike is on the direction alone.
    pub fn is_directional(&self) -> (r: bool)
        ensures
            r == directional(self.strike),
    {
        !self.strike.positive()
    }

    /// Whole seconds until settlement, the rest dropped; negative after it.
    pub fn seconds_remaining(&self, now: Moment) -> (r: i128)
        ensures
            r == remaining(self.settlement_time, now),
    {
        self.settlement_time.seconds_since(now)
    }
}

/// A row on a contract: ticker, strike where it has one, and moment of settlement.
#[derive(Clone, Debug)]
pub struct ContractRow {
    pub ticker: String,
    pub strike: Option<Float>,
    pub settlement_time: Moment,
}

/// A row is usable if it has a strike that is not zero or less.
pub open spec fn usable(row: ContractRow) -> bool {
    row.strike matches Some(s) && !s.le(Float { bits: 0 })
}

/// The contract is the one that the row is on.
pub open spec fn from_row(c: CryptoContract, row: ContractRow) -> bool {
    c.ticker@ == row.ticker@ && Some(c.strike) == row.strike && c.settlement_time == row.settlement_time
}

/// The usable rows, in their order.
pub open spec fn usable_rows(rows: Seq<ContractRow>) -> Seq<ContractRow> {
    rows.filter(|row: ContractRow| usable(row))
}

/// The contracts of the usable rows.
pub fn select_contracts(rows: &Vec<ContractRow>) -> (r: Vec<CryptoContract>)
    ensures
        r@.len() == usable_rows(rows@).len(),
        forall|i: int| 0 <= i < r@.len() ==> from_row(#[trigger] r@[i], usable_rows(rows@)[i]),
{
    let ghost good = |row: ContractRow| usable(row);
    let mut out: Vec<CryptoContract> = Vec::new();
    let mut i: usize = 0;
    proof {
        reveal(Seq::filter);
        assert(rows@.take(0) =~= Seq::<ContractRow>::empty());
    }
    while i < rows.len()
        invariant
            i <= rows@.len(),
            good == (|row: ContractRow| usable(row)),
            out@.len() == rows@.take(i as int).filter(good).len(),
            forall|j: int| 0 <= j < out@.len() ==> from_row(#[trigger] out@[j], rows@.take(i as int).filter(good)[j]),
        decreases rows@.len() - i,
    {
        let row: &ContractRow = &rows[i];
        let ghost before = rows@.take(i as int).filter(good);
        let ghost after = rows@.take(i + 1).filter(good);
        proof {
            reveal(Seq::filter);
            assert(rows@.take(i + 1).drop_last() =~= rows@.take(i as int));
            assert(rows@.take(i + 1).last() == *row);
            assert(after == (if usable(*row) { before.push(*row) } else { before }));
        }
        if let Some(strike) = row.strike {
            if !strike.less_eq(Float::from_bits(0)) {
                out.push(
                    CryptoContract {
                        ticker: row.ticker.clone(),
                        strike,
                        settlement_time: row.settlement_time,
                    },
                );
            }
        }
        i = i + 1;
    }
    assert(rows@.take(rows@.len() as int) =~= rows@);
    out
}

/// The tickers of contracts, in their order.
pub fn tickers(contracts: &Vec<CryptoContract>) -> (r: Vec<String>)
    ensures
        r@.len() == contracts@.len(),
        forall|i: int| 0 <= i < r@.len() ==> (#[trigger] r@[i])@ == contracts@[i].ticker@,
{
    let mut out: Vec<String> = Vec::new();
    let mut i: usize = 0;
    while i < contracts.len()
        invariant
            i <= contracts@.len(),
            out@.len() == i,
            forall|j: int| 0 <= j < i ==> (#[trigger] out@[j])@ == contracts@[j].ticker@,
        decreases contracts@.len() - i,
    {
        out.push(contracts[i].ticker.clone());
        i = i + 1;
    }
    out
}

/// How many of the contracts are on an asset.
pub open spec fn on_asset(contracts: Seq<CryptoContract>, asset: CryptoAsset) -> nat
    decreases contracts.len(),
{
    if contracts.len() == 0 {
        0
    } else {
        on_asset(contracts.drop_last(), asset) + (if asset_of(uppercased(contracts.last().ticker@)) == Some(asset) {
            1nat
        } else {
            0
        })
    }
}

/// How many of the contracts are on `asset`.
pub fn count_on_asset(contracts: &Vec<CryptoContract>, asset: CryptoAsset) -> (r: usize)
    ensures
        r == on_asset(contracts@, asset),
{
    let mut n: usize = 0;
    let mut i: usize = 0;
    while i < contracts.len()
        invariant
            i <= contracts@.len(),
            n <= i,
            n == on_asset(contracts@.take(i as int), asset),
        decreases contracts@.len() - i,
    {
        assert(contracts@.take(i + 1).drop_last() =~= contracts@.take(i as int));
        match CryptoAsset::from_ticker(contracts[i].ticker.as_str()) {
            Some(a) => {
                if a == asset {
                    n = n + 1;
                }
            },
            None => {},
        }
        i = i + 1;
    }
    assert(contracts@.take(contracts@.len() as int) =~= contracts@);
    n
}

/// A row is usable exactly if it has a strike, and one that is not zero or less; the contract of a
/// usable row is never on the direction alone, as long as its strike is a number.
pub proof fn usable_rows_have_strikes(row: ContractRow, c: CryptoContract)
    ensures
        row.strike is None ==> !usable(row),
        row.strike is Some && !(row.strike->0).not_a_number() ==> (usable(row) <==> (row.strike->0).rank() > 0),
        usable(row) && from_row(c, row) && !c.strike.not_a_number() ==> !directional(c.strike),
        from_row(c, row) ==> c.ticker@ == row.ticker@ && row.strike == Some(c.strike) && c.settlement_time
            == row.settlement_time,
{
}

/// Rows are looked at one by one, in their order; what is not usable is left out.
pub proof fn rows_are_selected_in_order(rows: Seq<ContractRow>, row: ContractRow)
    ensures
        usable_rows(Seq::empty()).len() == 0,
        usable(row) ==> usable_rows(rows.push(row)) == usable_rows(rows).push(row),
        !usable(row) ==> usable_rows(rows.push(row)) == usable_rows(rows),
{
    reveal(Seq::filter);
    assert(rows.push(row).drop_last() =~= rows);
}

/// A contract counts for the asset that its ticker names, and for no other.
pub proof fn contracts_count_for_their_asset(contracts: Seq<CryptoContract>, c: CryptoContract, asset: CryptoAsset)
    ensures
        on_asset(Seq::empty(), asset) == 0,
        asset_of(uppercased(c.ticker@)) == Some(asset) ==> on_asset(contracts.push(c), asset) == on_asset(
            contracts,
            asset,
        ) + 1,
        asset_of(uppercased(c.ticker@)) != Some(asset) ==> on_asset(contracts.push(c), asset) == on_asset(
            contracts,
            asset,
        ),
{
    assert(contracts.push(c).drop_last() =~= contracts);
}

/// The seconds that remain are those of the exact time left, less than a second of which is
/// dropped; at settlement none remain, and after it they count back.
pub proof fn seconds_remain_until_settlement(settlement: Moment, now: Moment)
    requires
        settlement.nanos < 1_000_000_000,
        now.nanos < 1_000_000_000,
    ensures
        ({
            let left = (settlement.secs - now.secs) * 1_000_000_000 + settlement.nanos - now.nanos;
            let r = remaining(settlement, now);
            &&& left >= 0 ==> r * 1_000_000_000 <= left < r * 1_000_000_000 + 1_000_000_000
            &&& left < 0 ==> r * 1_000_000_000 - 1_000_000_000 < left <= r * 1_000_000_000
        }),
        remaining(settlement, settlement) == 0,
{
}

/// A contract is on the direction alone exactly if its strike is not above zero.
pub proof fn contracts_without_strike_are_directional(strike: Float)
    requires
        !strike.not_a_number(),
    ensures
        directional(strike) <==> strike.rank() <= 0,
{
}

} // verus!
