//! A connection to the exchange's socket, step by step.
use vstd::prelude::*;
use vstd::string::*;

use crate::kalshi::websocket::{handle_text_message, news, WsFeedMessage, WsRawMessage};
use crate::table::Table;
use crate::time::{elapsed, secs, since};
use crate::text::texts;

verus! {

/// Seconds without an answer to a ping after which a connection is given up.
pub const PONG_TIMEOUT_SECS: u64 = 35;

/// A request for all channels of some tickers.
#[derive(Debug)]
pub struct SubscribeCmd {
    pub id: u64,
    pub market_tickers: Vec<String>,
}

/// The channels that are asked for.
pub fn channels() -> (r: [&'static str; 3])
    ensures
        r@[0]@ == "orderbook_delta"@,
        r@[1]@ == "trade"@,
        r@[2]@ == "ticker"@,
{
    ["orderbook_delta", "trade", "ticker"]
}

/// The tickers of a list that are not known yet, each once, in the order of the list.
pub open spec fn fresh_tickers(list: Seq<Seq<char>>, known: Set<Seq<char>>) -> Seq<Seq<char>>
    decreases list.len(),
{
    if list.len() == 0 {
        Seq::empty()
    } else if known.contains(list[0]) {
        fresh_tickers(list.drop_first(), known)
    } else {
        seq![list[0]] + fresh_tickers(list.drop_first(), known.insert(list[0]))
    }
}

/// The tickers that have ever been asked for.
pub struct Subscriptions {
    known: Table<bool>,
}

impl View for Subscriptions {
    type V = Set<Seq<char>>;

    closed spec fn view(&self) -> Set<Seq<char>> {
        self.known@.dom()
    }
}

impl Subscriptions {
    pub closed spec fn wf(&self) -> bool {
        self.known.wf()
    }

    pub fn new() -> (r: Self)
        ensures
            r.wf(),
            r@ == Set::<Seq<char>>::empty(),
    {
        let r = Subscriptions { known: Table::new() };
        assert(r@ =~= Set::<Seq<char>>::empty());
        r
    }

    /// All tickers, each once.
    pub fn all(&self) -> (r: Vec<String>)
        requires
            self.wf(),
        ensures
            texts(r@).no_duplicates(),
            texts(r@).to_set() == self@,
            r@.len() == 0 <==> self@ == Set::<Seq<char>>::empty(),
    {
        let out: Vec<String> = self.known.keys();
        proof {
            let t = texts(out@);
            if self@ == Set::<Seq<char>>::empty() && out@.len() > 0 {
                assert(t.to_set().contains(t[0]));
            }
            if out@.len() == 0 {
                assert(t.to_set() =~= Set::<Seq<char>>::empty());
            }
        }
        out
    }

    /// Takes note of tickers, and hands out those that are new.
    pub fn add_new(&mut self, tickers: &Vec<String>) -> (r: Vec<String>)
        requires
            old(self).wf(),
        ensures
            final(self).wf(),
            texts(r@) == fresh_tickers(texts(tickers@), old(self)@),
            final(self)@ == old(self)@.union(texts(tickers@).to_set()),
    {
        let ghost start = self@;
        let ghost list = texts(tickers@);
        let mut out: Vec<String> = Vec::new();
        let mut i: usize = 0;
        proof {
            assert(list.skip(0) =~= list);
            assert(list.take(0).to_set() =~= Set::<Seq<char>>::empty());
            assert(start.union(list.take(0).to_set()) =~= start);
            assert(texts(out@) + fresh_tickers(list, start) =~= fresh_tickers(list, start));
        }
        while i < tickers.len()
            invariant
                self.wf(),
                i <= tickers@.len(),
                list == texts(tickers@),
                self@ == start.union(list.take(i as int).to_set()),
                texts(out@) + fresh_tickers(list.skip(i as int), self@) == fresh_tickers(list, start),
            decreases tickers@.len() - i,
        {
            let ghost before = self@;
            let ghost had = texts(out@);
            let ghost rest = list.skip(i as int);
            let ticker: &String = &tickers[i];
            proof {
                assert(rest[0] == ticker@);
                assert(rest.drop_first() =~= list.skip(i + 1));
                assert(list.take(i + 1) =~= list.take(i as int).push(ticker@));
                assert(list.take(i + 1).to_set() =~= list.take(i as int).to_set().insert(ticker@)) by {
                    let a = list.take(i as int);
                    let b = list.take(i + 1);
                    assert forall|x: Seq<char>| b.to_set().contains(x) <==> a.to_set().insert(ticker@).contains(x) by {
                        if b.contains(x) {
                            let k = choose|k: int| 0 <= k < b.len() && b[k] == x;
                            if k < i {
                                assert(a[k] == x);
                            }
                        }
                        if a.contains(x) {
                            let k = choose|k: int| 0 <= k < a.len() && a[k] == x;
                            assert(b[k] == x);
                        }
                        assert(b[i as int] == ticker@);
                    }
                }
            }
            if !self.known.contains_key(ticker.as_str()) {
                self.known.insert(ticker.clone(), true);
                out.push(ticker.clone());
                proof {
                    assert(self@ =~= before.insert(ticker@));
                    assert(texts(out@) =~= had.push(ticker@));
                    assert(had + (seq![ticker@] + fresh_tickers(list.skip(i + 1), self@)) =~= texts(out@)
                        + fresh_tickers(list.skip(i + 1), self@));
                }
            } else {
                proof {
                    assert(before.contains(ticker@));
                    assert(before =~= before.insert(ticker@));
                }
            }
            proof {
                assert(self@ =~= start.union(list.take(i + 1).to_set()));
            }
            i = i + 1;
        }
        proof {
            assert(list.take(list.len() as int) =~= list);
            assert(list.skip(list.len() as int) =~= Seq::<Seq<char>>::empty());
            assert(texts(out@) + Seq::<Seq<char>>::empty() =~= texts(out@));
        }
        out
    }
}

/// What happens on a connection.
pub enum SocketEvent<'a> {
    Cancelled,
    /// Someone wants these tickers.
    Wanted(&'a Vec<String>),
    /// Nobody will want any more.
    NobodyWants,
    Message(&'a WsRawMessage),
    /// A text that is no message, for this reason.
    Unreadable(String),
    Pong,
    CloseFrame,
    Failed(String),
    Ended,
    OtherFrame,
    PingDue,
}

/// What is to be done about it.
pub enum SocketStep {
    Continue,
    /// Send a close frame and stop in order.
    CloseAndStop,
    Subscribe(SubscribeCmd),
    Forward(Vec<WsFeedMessage>),
    /// Log that a message could not be read, for this reason.
    Malformed(String),
    Ping,
    /// Stop in order.
    Stop,
    /// Give the connection up.
    Fail(String),
}

/// A connection: the number of the next request, and the last sign of life.
#[derive(Clone, Copy, Debug, PartialEq, Eq, Structural)]
pub struct Session {
    pub cmd_id: u64,
    pub last_pong: u64,
}

/// A connection that has just been made asks for all tickers that are known, if there are any.
pub open spec fn opens(s: Session, first: Option<SubscribeCmd>, known: Set<Seq<char>>, now: u64) -> bool {
    &&& s.last_pong == now
    &&& match first {
        Some(cmd) => {
            &&& cmd.id == 1 && s.cmd_id == 2
            &&& cmd.market_tickers@.len() > 0
            &&& texts(cmd.market_tickers@).no_duplicates()
            &&& texts(cmd.market_tickers@).to_set() == known
        },
        None => known == Set::<Seq<char>>::empty() && s.cmd_id == 1,
    }
}

/// What an event on a connection calls for, and what becomes of the connection and of the tickers
/// that are known.
pub open spec fn answers(
    r: SocketStep,
    before: Session,
    after: Session,
    known: Set<Seq<char>>,
    known_after: Set<Seq<char>>,
    event: SocketEvent,
    now: u64,
) -> bool {
    &&& known_after == (match event {
        SocketEvent::Wanted(tickers) => known.union(texts(tickers@).to_set()),
        _ => known,
    })
    &&& after.last_pong == (if event is Pong { now } else { before.last_pong })
    &&& after.cmd_id == before.cmd_id + (if r is Subscribe { 1int } else { 0 })
    &&& match event {
        SocketEvent::Cancelled => r is CloseAndStop,
        SocketEvent::Wanted(tickers) => {
            let fresh = fresh_tickers(texts(tickers@), known);
            if fresh.len() == 0 {
                r is Continue
            } else {
                r matches SocketStep::Subscribe(cmd) && cmd.id == before.cmd_id && texts(cmd.market_tickers@) == fresh
            }
        },
        SocketEvent::Message(raw) => if !raw.readable() {
            r matches SocketStep::Malformed(e) && e@ == "content is not JSON"@
        } else if raw.tells().len() == 0 {
            r is Continue
        } else {
            r matches SocketStep::Forward(v) && news(v@) == raw.tells()
        },
        SocketEvent::Unreadable(e) => r matches SocketStep::Malformed(f) && f@ == e@,
        SocketEvent::CloseFrame => r is Stop,
        SocketEvent::Failed(e) => r matches SocketStep::Fail(f) && f@ == e@,
        SocketEvent::Ended => r matches SocketStep::Fail(f) && f@ == "ws stream ended"@,
        SocketEvent::PingDue => if since(now, before.last_pong) > secs(PONG_TIMEOUT_SECS as int) {
            r matches SocketStep::Fail(f) && f@ == "pong timeout"@
        } else {
            r is Ping
        },
        SocketEvent::NobodyWants | SocketEvent::Pong | SocketEvent::OtherFrame => r is Continue,
    }
}

impl Session {
    /// A connection that has just been made: the request for all tickers that are known, if
    /// there are any.
    pub fn open(subscriptions: &Subscriptions, now: u64) -> (r: (Session, Option<SubscribeCmd>))
        requires
            subscriptions.wf(),
        ensures
            opens(r.0, r.1, subscriptions@, now),
    {
        let all: Vec<String> = subscriptions.all();
        if all.len() == 0 {
            (Session { cmd_id: 1, last_pong: now }, None)
        } else {
            (Session { cmd_id: 2, last_pong: now }, Some(SubscribeCmd { id: 1, market_tickers: all }))
        }
    }

    /// What is to be done about an event.
    pub fn handle(&mut self, subscriptions: &mut Subscriptions, event: SocketEvent, now: u64) -> (r: SocketStep)
        requires
            old(subscriptions).wf(),
            old(self).cmd_id < u64::MAX,
        ensures
            final(subscriptions).wf(),
            answers(r, *old(self), *final(self), old(subscriptions)@, final(subscriptions)@, event, now),
    {
        match event {
            SocketEvent::Cancelled => SocketStep::CloseAndStop,
            SocketEvent::Wanted(tickers) => {
                let fresh: Vec<String> = subscriptions.add_new(tickers);
                if fresh.len() == 0 {
                    return SocketStep::Continue;
                }
                let id: u64 = self.cmd_id;
                self.cmd_id = id + 1;
                SocketStep::Subscribe(SubscribeCmd { id, market_tickers: fresh })
            },
            SocketEvent::NobodyWants => SocketStep::Continue,
            SocketEvent::Message(raw) => match handle_text_message(raw) {
                Some(v) => if v.len() == 0 {
                    SocketStep::Continue
                } else {
                    SocketStep::Forward(v)
                },
                None => SocketStep::Malformed("content is not JSON".to_owned()),
            },
            SocketEvent::Unreadable(e) => SocketStep::Malformed(e),
            SocketEvent::Pong => {
                self.last_pong = now;
                SocketStep::Continue
            },
            SocketEvent::CloseFrame => SocketStep::Stop,
            SocketEvent::Failed(e) => SocketStep::Fail(e),
            SocketEvent::Ended => SocketStep::Fail("ws stream ended".to_owned()),
            SocketEvent::OtherFrame => SocketStep::Continue,
            SocketEvent::PingDue => if elapsed(now, self.last_pong) > 35_000_000_000u64 {
                SocketStep::Fail("pong timeout".to_owned())
            } else {
                SocketStep::Ping
            },
        }
    }
}

/// A ticker that has been asked for is not asked for again on the same connection, and none is
/// asked for twice at once.
pub proof fn no_ticker_is_asked_for_twice(list: Seq<Seq<char>>, known: Set<Seq<char>>)
    ensures
        fresh_tickers(list, known).no_duplicates(),
        forall|t: Seq<char>| #[trigger] fresh_tickers(list, known).contains(t) ==> list.contains(t) && !known.contains(t),
        forall|t: Seq<char>| list.contains(t) && !known.contains(t) ==> #[trigger] fresh_tickers(list, known).contains(t),
    decreases list.len(),
{
    if list.len() > 0 {
        let rest = list.drop_first();
        let f = fresh_tickers(list, known);
        if known.contains(list[0]) {
            no_ticker_is_asked_for_twice(rest, known);
            assert forall|t: Seq<char>| #[trigger] f.contains(t) implies list.contains(t) && !known.contains(t) by {
                let k = choose|k: int| 0 <= k < rest.len() && rest[k] == t;
                assert(list[k + 1] == t);
            }
            assert forall|t: Seq<char>| list.contains(t) && !known.contains(t) implies #[trigger] f.contains(t) by {
                let k = choose|k: int| 0 <= k < list.len() && list[k] == t;
                assert(rest[k - 1] == t);
            }
        } else {
            let g = fresh_tickers(rest, known.insert(list[0]));
            no_ticker_is_asked_for_twice(rest, known.insert(list[0]));
            assert(f =~= seq![list[0]] + g);
            assert forall|i: int, j: int| 0 <= i < f.len() && 0 <= j < f.len() && i != j implies f[i] != f[j] by {
                if i == 0 {
                    assert(g[j - 1] == f[j]);
                    assert(g.contains(f[j]));
                } else if j == 0 {
                    assert(g[i - 1] == f[i]);
                    assert(g.contains(f[i]));
                } else {
                    assert(g[i - 1] == f[i] && g[j - 1] == f[j]);
                }
            }
            assert forall|t: Seq<char>| #[trigger] f.contains(t) implies list.contains(t) && !known.contains(t) by {
                let k = choose|k: int| 0 <= k < f.len() && f[k] == t;
                if k == 0 {
                    assert(list[0] == t);
                } else {
                    assert(g[k - 1] == t);
                    assert(g.contains(t));
                    let m = choose|m: int| 0 <= m < rest.len() && rest[m] == t;
                    assert(list[m + 1] == t);
                }
            }
            assert forall|t: Seq<char>| list.contains(t) && !known.contains(t) implies #[trigger] f.contains(t) by {
                if t == list[0] {
                    assert(f[0] == t);
                } else {
                    let k = choose|k: int| 0 <= k < list.len() && list[k] == t;
                    assert(rest[k - 1] == t);
                    assert(g.contains(t));
                    let m = choose|m: int| 0 <= m < g.len() && g[m] == t;
                    assert(f[m + 1] == t);
                }
            }
        }
    }
}

/// A connection starts by asking for exactly the tickers known, under the first number, and for
/// nothing where none is known; it counts as alive from then on.
pub proof fn connections_start_with_what_is_known(s: Session, first: Option<SubscribeCmd>, known: Set<Seq<char>>, t: Seq<char>, now: u64)
    requires
        opens(s, first, known, now),
    ensures
        first matches Some(cmd) ==> cmd.id == 1 && s.cmd_id == 2 && (texts(cmd.market_tickers@).contains(t)
            <==> known.contains(t)) && texts(cmd.market_tickers@).no_duplicates(),
        first is None ==> !known.contains(t) && s.cmd_id == 1,
        s.last_pong == now,
{
    if let Some(cmd) = first {
        assert(texts(cmd.market_tickers@).to_set().contains(t) == texts(cmd.market_tickers@).contains(t));
    }
}

/// A ticker that is wanted is known from then on, and is asked for exactly if it was not known. A
/// pong, and nothing else, counts as a sign of life; without one for more than thirty-five seconds
/// the connection is given up at the next ping, and until then it is pinged.
pub proof fn connections_live_by_their_pongs(
    r: SocketStep,
    before: Session,
    after: Session,
    known: Set<Seq<char>>,
    known_after: Set<Seq<char>>,
    event: SocketEvent,
    t: Seq<char>,
    now: u64,
)
    requires
        answers(r, before, after, known, known_after, event, now),
    ensures
        event matches SocketEvent::Wanted(w) ==> (known_after.contains(t) <==> known.contains(t) || texts(
            w@,
        ).contains(t)),
        !(event is Wanted) ==> known_after == known,
        event matches SocketEvent::Wanted(w) ==> (texts(w@).contains(t) && !known.contains(t) ==> (r
            matches SocketStep::Subscribe(cmd) && texts(cmd.market_tickers@).contains(t))),
        r matches SocketStep::Subscribe(cmd) ==> event is Wanted && cmd.id == before.cmd_id && after.cmd_id
            == before.cmd_id + 1 && texts(cmd.market_tickers@).no_duplicates() && !(texts(
            cmd.market_tickers@,
        ).contains(t) && known.contains(t)),
        !(r is Subscribe) ==> after.cmd_id == before.cmd_id,
        event is Pong ==> after.last_pong == now && r is Continue,
        !(event is Pong) ==> after.last_pong == before.last_pong,
        event is PingDue && now - before.last_pong > 35_000_000_000 ==> r is Fail,
        event is PingDue && now - before.last_pong <= 35_000_000_000 ==> r is Ping,
        event is Cancelled <==> r is CloseAndStop,
        event is CloseFrame <==> r is Stop,
        event is Failed || event is Ended ==> r is Fail,
        r is Fail ==> event is Failed || event is Ended || event is PingDue,
        r is Forward ==> event is Message,
        r matches SocketStep::Forward(v) ==> v@.len() > 0,
        event matches SocketEvent::Message(raw) ==> (raw.readable() && raw.tells().len() > 0 ==> (r
            matches SocketStep::Forward(v) && news(v@) == raw.tells())),
        event is Unreadable ==> r is Malformed,
{
    if let SocketEvent::Wanted(w) = event {
        let list = texts(w@);
        no_ticker_is_asked_for_twice(list, known);
        assert(list.to_set().contains(t) == list.contains(t));
        if list.contains(t) && !known.contains(t) {
            assert(fresh_tickers(list, known).contains(t));
        }
    }
    if let SocketStep::Forward(v) = r {
        assert(news(v@).len() == v@.len());
    }
}

/// Tickers are asked for in the order of the list, each where it first stands.
pub proof fn tickers_are_asked_for_in_order(t: Seq<char>, rest: Seq<Seq<char>>, known: Set<Seq<char>>)
    ensures
        fresh_tickers(Seq::empty(), known).len() == 0,
        known.contains(t) ==> fresh_tickers(seq![t] + rest, known) == fresh_tickers(rest, known),
        !known.contains(t) ==> fresh_tickers(seq![t] + rest, known) == seq![t] + fresh_tickers(rest, known.insert(t)),
{
    assert((seq![t] + rest).drop_first() =~= rest);
}

} // verus!
