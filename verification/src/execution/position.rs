//! Net positions by market.
use vstd::prelude::*;
use vstd::string::*;

use crate::table::Table;

verus! {

/// Net contracts by ticker: positive for yes, negative for no.
pub struct PositionTracker {
    positions: Table<i64>,
}

/// The net contracts in a market, zero where there are none.
pub open spec fn net(m: Map<Seq<char>, i64>, ticker: Seq<char>) -> int {
    if m.contains_key(ticker) { m[ticker] as int } else { 0 }
}

/// The positions after `delta` contracts were added in a market.
pub open spec fn changed(m: Map<Seq<char>, i64>, ticker: Seq<char>, delta: i64) -> Map<Seq<char>, i64> {
    m.insert(ticker, (net(m, ticker) + delta) as i64)
}

impl View for PositionTracker {
    type V = Map<Seq<char>, i64>;

    closed spec fn view(&self) -> Map<Seq<char>, i64> {
        self.positions@
    }
}

impl PositionTracker {
    pub closed spec fn wf(&self) -> bool {
        self.positions.wf()
    }

    pub fn new() -> (r: Self)
        ensures
            r.wf(),
            r@ == Map::<Seq<char>, i64>::empty(),
    {
        PositionTracker { positions: Table::new() }
    }

    /// Adds `delta` contracts to the position in `ticker`.
    pub fn update(&mut self, ticker: &str, delta: i64)
        requires
            old(self).wf(),
            i64::MIN <= net(old(self)@, ticker@) + delta <= i64::MAX,
        ensures
            final(self).wf(),
            final(self)@ == changed(old(self)@, ticker@, delta),
    {
        let before: i64 = self.get(ticker);
        self.positions.insert(ticker.to_owned(), before + delta);
    }

    /// The net contracts in `ticker`.
    pub fn get(&self, ticker: &str) -> (r: i64)
        requires
            self.wf(),
        ensures
            r == net(self@, ticker@),
    {
        match self.positions.get(ticker) {
            Some(n) => *n,
            None => 0,
        }
    }

    /// All positions.
    pub fn all(&self) -> (r: &Table<i64>)
        requires
            self.wf(),
        ensures
            r.wf(),
            r@ == self@,
    {
        &self.positions
    }
}

/// Updates add up, and one market's do not touch another's.
pub proof fn updates_add_up(m: Map<Seq<char>, i64>, t: Seq<char>, u: Seq<char>, a: i64, b: i64)
    requires
        i64::MIN <= net(m, t) + a <= i64::MAX,
        i64::MIN <= net(m, t) + a + b <= i64::MAX,
    ensures
        ({
            let once = m.insert(t, (net(m, t) + a) as i64);
            let twice = once.insert(t, (net(once, t) + b) as i64);
            &&& net(twice, t) == net(m, t) + a + b
            &&& u != t ==> net(twice, u) == net(m, u)
        }),
{
}

/// A change of a position changes it by just that, and no other; nothing changed is nothing held.
pub proof fn changes_move_one_position(m: Map<Seq<char>, i64>, t: Seq<char>, u: Seq<char>, delta: i64)
    requires
        i64::MIN <= net(m, t) + delta <= i64::MAX,
        u != t,
    ensures
        net(changed(m, t, delta), t) == net(m, t) + delta,
        net(changed(m, t, delta), u) == net(m, u),
        !m.contains_key(t) ==> net(m, t) == 0,
        m.contains_key(t) ==> net(m, t) == m[t],
{
}

} // verus!
