//! Concurrent maps of the `dashmap` crate.
//!
//! Such a map can change behind a shared reference. Here a map is only ever changed through an
//! exclusive one, so that what it holds is a function of its value.
use dashmap::DashMap;
use vstd::prelude::*;

use crate::kalshi::orderbook::{BookView, Orderbook, TickerTopOfBook};

verus! {

/// A concurrent map.
#[verifier::external_type_specification]
#[verifier::external_body]
#[verifier::reject_recursive_types(K)]
#[verifier::reject_recursive_types(V)]
#[verifier::reject_recursive_types(S)]
pub struct ExDashMap<K, V, S>(DashMap<K, V, S>);

/// What a map from names to moments holds.
pub uninterp spec fn stamps(m: DashMap<String, u64>) -> Map<Seq<char>, u64>;

/// `DashMap::new`: the map holds nothing.
#[verifier::external_body]
pub(crate) fn no_stamps() -> (r: DashMap<String, u64>)
    ensures
        stamps(r).is_empty(),
{
    DashMap::new()
}

/// `DashMap::insert`: the key is bound to the value, whatever it was bound to before.
#[verifier::external_body]
pub(crate) fn put_stamp(m: &mut DashMap<String, u64>, k: String, v: u64)
    ensures
        stamps(*final(m)) == stamps(*old(m)).insert(k@, v),
{
    m.insert(k, v);
}

/// `DashMap::get`: what the key is bound to, nothing where it is not bound.
#[verifier::external_body]
pub(crate) fn stamp_of(m: &DashMap<String, u64>, k: &str) -> (r: Option<u64>)
    ensures
        r == (if stamps(*m).contains_key(k@) { Some(stamps(*m)[k@]) } else { None }),
{
    m.get(k).map(|r| *r.value())
}

/// What a map from tickers to order books holds.
pub uninterp spec fn books(m: DashMap<String, Orderbook>) -> Map<Seq<char>, BookView>;

/// `DashMap::new`: the map holds nothing.
#[verifier::external_body]
pub(crate) fn no_books() -> (r: DashMap<String, Orderbook>)
    ensures
        books(r).is_empty(),
{
    DashMap::new()
}

/// `DashMap::insert`: the key is bound to the value, whatever it was bound to before.
#[verifier::external_body]
pub(crate) fn put_book(m: &mut DashMap<String, Orderbook>, k: String, v: Orderbook)
    ensures
        books(*final(m)) == books(*old(m)).insert(k@, v@),
{
    m.insert(k, v);
}

/// `DashMap::get`: a copy of what the key is bound to, nothing where it is not bound.
#[verifier::external_body]
pub(crate) fn book_of(m: &DashMap<String, Orderbook>, k: &str) -> (r: Option<Orderbook>)
    ensures
        match r {
            Some(b) => books(*m).contains_key(k@) && b@ == books(*m)[k@],
            None => !books(*m).contains_key(k@),
        },
{
    m.get(k).map(|r| r.value().copy())
}

/// `DashMap::remove`: the key is bound no longer, and what it was bound to is handed out.
#[verifier::external_body]
pub(crate) fn take_book(m: &mut DashMap<String, Orderbook>, k: &str) -> (r: Option<Orderbook>)
    ensures
        books(*final(m)) == books(*old(m)).remove(k@),
        match r {
            Some(b) => books(*old(m)).contains_key(k@) && b@ == books(*old(m))[k@],
            None => !books(*old(m)).contains_key(k@),
        },
{
    m.remove(k).map(|kv| kv.1)
}

/// What a map from tickers to tops of books holds.
pub uninterp spec fn tops(m: DashMap<String, TickerTopOfBook>) -> Map<Seq<char>, TickerTopOfBook>;

/// `DashMap::new`: the map holds nothing.
#[verifier::external_body]
pub(crate) fn no_tops() -> (r: DashMap<String, TickerTopOfBook>)
    ensures
        tops(r).is_empty(),
{
    DashMap::new()
}

/// `DashMap::insert`: the key is bound to the value, whatever it was bound to before.
#[verifier::external_body]
pub(crate) fn put_top(m: &mut DashMap<String, TickerTopOfBook>, k: String, v: TickerTopOfBook)
    ensures
        tops(*final(m)) == tops(*old(m)).insert(k@, v),
{
    m.insert(k, v);
}

/// `DashMap::get`: what the key is bound to, nothing where it is not bound.
#[verifier::external_body]
pub(crate) fn top_of(m: &DashMap<String, TickerTopOfBook>, k: &str) -> (r: Option<TickerTopOfBook>)
    ensures
        r == (if tops(*m).contains_key(k@) { Some(tops(*m)[k@]) } else { None }),
{
    m.get(k).map(|r| *r.value())
}

} // verus!
