//! How far the system clock is off, and whether that is tolerable.
use vstd::prelude::*;
use vstd::string::*;

use crate::text::{decimal, i64_text, joined, u64_text};
use crate::time::{whole, whole_units, Moment};

verus! {

/// Milliseconds of drift from which on it is worth a warning.
pub const WARN_THRESHOLD_MS: u64 = 500;

/// Milliseconds of drift from which on live trading is refused.
pub const REFUSE_THRESHOLD_MS: u64 = 2000;

/// What a look at the clock gave.
#[derive(Clone, Debug)]
pub struct ClockCheck {
    pub offset_ms: i64,
    pub acceptable: bool,
    pub source: String,
}

/// How bad a drift is.
#[derive(Clone, Copy, Debug, PartialEq, Eq, Structural)]
pub enum Drift {
    Fine,
    Noticeable,
    Excessive,
}

/// The size of an offset.
pub open spec fn size_of(offset_ms: i64) -> int {
    if offset_ms < 0 { -(offset_ms as int) } else { offset_ms as int }
}

pub open spec fn drift_of(offset_ms: i64) -> Drift {
    if size_of(offset_ms) >= REFUSE_THRESHOLD_MS {
        Drift::Excessive
    } else if size_of(offset_ms) >= WARN_THRESHOLD_MS {
        Drift::Noticeable
    } else {
        Drift::Fine
    }
}

/// Trading may go on with an offset.
pub open spec fn tolerable(offset_ms: i64) -> bool {
    size_of(offset_ms) < REFUSE_THRESHOLD_MS
}

/// How bad an offset is.
pub fn judge_offset(offset_ms: i64) -> (r: Drift)
    ensures
        r == drift_of(offset_ms),
{
    let size: u64 = if offset_ms < 0 { (-(offset_ms as i128)) as u64 } else { offset_ms as u64 };
    if size >= REFUSE_THRESHOLD_MS {
        Drift::Excessive
    } else if size >= WARN_THRESHOLD_MS {
        Drift::Noticeable
    } else {
        Drift::Fine
    }
}

/// The server to ask at the `i`th attempt, as long as there is one.
pub fn time_server(i: usize) -> (r: Option<&'static str>)
    ensures
        match r {
            Some(s) => (i == 0 && s@ == "https://www.google.com"@) || (i == 1 && s@ == "https://www.cloudflare.com"@),
            None => i > 1,
        },
{
    if i == 0 {
        Some("https://www.google.com")
    } else if i == 1 {
        Some("https://www.cloudflare.com")
    } else {
        None
    }
}

/// What a server's answer gives.
pub fn checked_against(server: &str, offset_ms: i64) -> (r: ClockCheck)
    ensures
        r.offset_ms == offset_ms,
        r.acceptable == tolerable(offset_ms),
        r.source@ == server@,
{
    ClockCheck {
        offset_ms,
        acceptable: judge_offset(offset_ms) != Drift::Excessive,
        source: server.to_owned(),
    }
}

/// What is taken where no server answers: no drift.
pub fn unchecked() -> (r: ClockCheck)
    ensures
        r.offset_ms == 0,
        r.acceptable,
        r.source@ == "none (all servers unreachable)"@,
{
    ClockCheck { offset_ms: 0, acceptable: true, source: "none (all servers unreachable)".to_owned() }
}

/// The moment that the date of a mail or of an HTTP answer names, in seconds since the epoch and
/// nanoseconds beyond them, or why it names none.
pub uninterp spec fn date_named(text: Seq<char>) -> Result<(i64, u32), Seq<char>>;

/// `chrono::DateTime::parse_from_rfc2822`, with `timestamp` and `timestamp_subsec_nanos` of what
/// it gives: the moment that a date names, or the message of the error, as a function of the
/// text. The moment lies within the years that a date can name, fewer than 263,000 before or
/// after the epoch, and has less than two seconds beyond its whole ones.
#[verifier::external_body]
fn parse_date(text: &str) -> (r: Result<(i64, u32), String>)
    ensures
        match r {
            Ok(t) => date_named(text@) == Ok::<(i64, u32), Seq<char>>(t) && -10_000_000_000_000 <= t.0
                <= 10_000_000_000_000 && t.1 < 2_000_000_000,
            Err(e) => date_named(text@) == Err::<(i64, u32), Seq<char>>(e@),
        },
{
    chrono::DateTime::parse_from_rfc2822(text)
        .map(|d| (d.timestamp(), d.timestamp_subsec_nanos()))
        .map_err(|e| e.to_string())
}

/// The moment halfway between two, which are in nanoseconds since the epoch.
pub open spec fn halfway(before: i64, after: i64) -> Moment {
    let mid = before + (after - before) / 2;
    Moment { secs: (mid / 1_000_000_000) as i64, nanos: (mid % 1_000_000_000) as u32 }
}

/// How far the clock is ahead of the server, in whole milliseconds, if the answer was made
/// halfway between the two moments, which are in nanoseconds since the epoch.
pub open spec fn offset(before: i64, after: i64, server: Moment) -> int {
    whole(halfway(before, after).nanos_since(server), 1_000_000)
}

fn middle(before: i64, after: i64) -> (r: Moment)
    ensures
        r == halfway(before, after),
{
    let gap: i128 = after as i128 - before as i128;
    let half: i128 = if gap >= 0 {
        (gap as u128 / 2) as i128
    } else {
        -((((-gap) as u128 + 1) / 2) as i128)
    };
    let mid: i128 = before as i128 + half;
    let lifted: u128 = (mid + 10_000_000_000i128 * 1_000_000_000i128) as u128;
    Moment {
        secs: ((lifted / 1_000_000_000) as i128 - 10_000_000_000i128) as i64,
        nanos: (lifted % 1_000_000_000) as u32,
    }
}

/// How far the clock is ahead of a server that named `server`, by a request sent and answered at
/// these moments.
pub fn offset_millis(before: i64, after: i64, server: Moment) -> (r: i128)
    ensures
        r == offset(before, after, server),
{
    whole_units(middle(before, after).since(server), 1_000_000)
}

/// How far the clock is ahead of a server whose answer carries this date.
pub fn measure_offset(before: i64, after: i64, date_header: Option<&str>) -> (r: Result<i64, String>)
    ensures
        match date_header {
            None => r matches Err(m) && m@ == "no Date header"@,
            Some(text) => match date_named(text@) {
                Err(e) => r matches Err(m) && m@ == "parse Date header: "@ + e,
                Ok(t) => r matches Ok(v) && v == offset(before, after, Moment { secs: t.0, nanos: t.1 }),
            },
        },
{
    let text: &str = match date_header {
        Some(t) => t,
        None => {
            return Err("no Date header".to_owned());
        },
    };
    match parse_date(text) {
        Err(e) => Err(joined("parse Date header: ", e.as_str())),
        Ok(t) => Ok(offset_millis(before, after, Moment { secs: t.0, nanos: t.1 }) as i64),
    }
}

/// Trading may start: on paper always, otherwise with a clock that is good enough.
pub open spec fn may_start(acceptable: bool, paper_mode: bool) -> bool {
    acceptable || paper_mode
}

/// Whether trading may start: the offset, or why not. On paper it always may.
pub fn enforce_clock_discipline(check: &ClockCheck, paper_mode: bool) -> (r: Result<i64, String>)
    ensures
        match r {
            Ok(v) => may_start(check.acceptable, paper_mode) && v == check.offset_ms,
            Err(m) => !may_start(check.acceptable, paper_mode) && m@ == "Clock drift "@ + decimal(
                check.offset_ms as int,
            ) + "ms exceeds "@ + decimal(REFUSE_THRESHOLD_MS as int)
                + "ms threshold. Fix system clock before live trading."@,
        },
{
    if !check.acceptable && !paper_mode {
        let mut m: String = joined("Clock drift ", i64_text(check.offset_ms).as_str());
        m.append("ms exceeds ");
        m.append(u64_text(REFUSE_THRESHOLD_MS).as_str());
        m.append("ms threshold. Fix system clock before live trading.");
        return Err(m);
    }
    Ok(check.offset_ms)
}

/// A clock that is in step with the server is never off.
pub proof fn clock_in_step_has_no_offset(now: i64)
    ensures
        offset(now, now, halfway(now, now)) == 0,
{
}

/// A clock that is ahead by a whole number of milliseconds is off by that number, wherever the
/// server's moment lies outside leap seconds.
pub proof fn offset_is_the_lead(now: i64, lead_ms: int)
    requires
        i64::MIN <= now + lead_ms * 1_000_000 <= i64::MAX,
    ensures
        ({
            let ahead = (now + lead_ms * 1_000_000) as i64;
            offset(ahead, ahead, halfway(now, now)) == lead_ms
        }),
{
    let ahead = (now + lead_ms * 1_000_000) as i64;
    let a = halfway(ahead, ahead);
    let b = halfway(now, now);
    assert(a.nanos_since(b) == lead_ms * 1_000_000);
}

/// A drift is worth a warning from half a second on and excessive from two seconds on, ahead or
/// behind; what is excessive is not tolerable, and anything else is.
pub proof fn drifts_are_judged_either_way(offset_ms: i64)
    ensures
        drift_of(offset_ms) is Excessive <==> offset_ms >= 2000 || offset_ms <= -2000,
        drift_of(offset_ms) is Noticeable <==> 500 <= offset_ms < 2000 || -2000 < offset_ms <= -500,
        drift_of(offset_ms) is Fine <==> -500 < offset_ms < 500,
        tolerable(offset_ms) <==> -2000 < offset_ms < 2000,
        offset_ms > i64::MIN ==> drift_of(offset_ms) == drift_of((-offset_ms) as i64),
{
}

/// Live trading starts exactly with a clock that is good enough, and paper trading with any.
pub proof fn live_trading_needs_a_good_clock(acceptable: bool)
    ensures
        may_start(acceptable, true),
        may_start(acceptable, false) <==> acceptable,
{
}

/// The moment halfway lies between the two, and as far from one as from the other but for a
/// nanosecond.
pub proof fn halfway_lies_between(before: i64, after: i64)
    requires
        before <= after,
    ensures
        ({
            let m = halfway(before, after);
            let t = m.secs * 1_000_000_000 + m.nanos;
            &&& before <= t <= after
            &&& 0 <= (after - t) - (t - before) <= 1
            &&& m.nanos < 1_000_000_000
        }),
{
}

} // verus!
