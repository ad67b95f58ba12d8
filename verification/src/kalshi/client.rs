//! Requests to the exchange: their paths, what errors mean, and when to try again.
use vstd::prelude::*;
use vstd::string::*;
use vstd::utf8::encode_utf8;

use crate::kalshi::error::KalshiError;
use crate::kalshi::types::OrderQueryParams;
use crate::text::{contains, decimal, i64_text, joined, occurs_in, u64_text};

verus! {

/// A byte that stands for itself in an address.
pub open spec fn unreserved(b: u8) -> bool {
    ('0' as u8 <= b <= '9' as u8) || ('A' as u8 <= b <= 'Z' as u8) || ('a' as u8 <= b <= 'z' as u8) || b == '-' as u8
        || b == '.' as u8 || b == '_' as u8 || b == '~' as u8
}

/// A hexadecimal digit in upper case.
pub open spec fn upper_hex(d: int) -> char {
    if d < 10 { (('0' as u8) + d) as u8 as char } else { (('A' as u8) + d - 10) as u8 as char }
}

/// Bytes in an address: those that stand for themselves as they are, any other as a percent
/// sign and two digits.
pub open spec fn percent_encoded(bytes: Seq<u8>) -> Seq<char>
    decreases bytes.len(),
{
    if bytes.len() == 0 {
        Seq::empty()
    } else {
        let b = bytes.last();
        let one = if unreserved(b) {
            seq![b as char]
        } else {
            seq!['%', upper_hex(b as int / 16), upper_hex(b as int % 16)]
        };
        percent_encoded(bytes.drop_last()) + one
    }
}

/// A text in an address.
pub open spec fn url_text(s: Seq<char>) -> Seq<char> {
    percent_encoded(encode_utf8(s))
}

/// `urlencoding::encode`: every byte of the text but letters, digits, `-`, `_`, `.` and `~`
/// becomes a percent sign and two hexadecimal digits in upper case.
#[verifier::external_body]
fn encode(s: &str) -> (r: String)
    ensures
        r@ == url_text(s@),
{
    urlencoding::encode(s).into_owned()
}

/// The path of a market query.
pub fn markets_path(status: &str, category: Option<&str>) -> (r: String)
    ensures
        r@ == "/trade-api/v2/markets?status="@ + url_text(status@) + (match category {
            Some(c) => "&category="@ + url_text(c@),
            None => Seq::empty(),
        }),
{
    let mut path: String = joined("/trade-api/v2/markets?status=", encode(status).as_str());
    let ghost base = path@;
    match category {
        Some(c) => {
            let part: String = joined("&category=", encode(c).as_str());
            path.append(part.as_str());
        },
        None => {
            assert(base + Seq::<char>::empty() =~= base);
        },
    }
    path
}

/// The path of one market.
pub fn market_path(ticker: &str) -> (r: String)
    ensures
        r@ == "/trade-api/v2/markets/"@ + url_text(ticker@),
{
    joined("/trade-api/v2/markets/", encode(ticker).as_str())
}

/// The path of one order.
pub fn order_path(order_id: &str) -> (r: String)
    ensures
        r@ == "/trade-api/v2/portfolio/orders/"@ + url_text(order_id@),
{
    joined("/trade-api/v2/portfolio/orders/", encode(order_id).as_str())
}

/// A filter of a query, if it is given.
pub open spec fn filter_part(name: Seq<char>, value: Option<String>) -> Seq<char> {
    match value {
        Some(v) => name + url_text(v@) + "&"@,
        None => Seq::empty(),
    }
}

fn filter_text(name: &str, value: &Option<String>) -> (r: String)
    ensures
        r@ == filter_part(name@, *value),
{
    match value {
        Some(v) => {
            let mut out: String = joined(name, encode(v.as_str()).as_str());
            out.append("&");
            out
        },
        None => String::new(),
    }
}

/// The path of an order query.
pub fn orders_path(params: &OrderQueryParams) -> (r: String)
    ensures
        r@ == "/trade-api/v2/portfolio/orders?"@ + filter_part("ticker="@, params.ticker) + filter_part(
            "status="@,
            params.status,
        ),
{
    let mut path: String = "/trade-api/v2/portfolio/orders?".to_owned();
    path.append(filter_text("ticker=", &params.ticker).as_str());
    path.append(filter_text("status=", &params.status).as_str());
    path
}

/// The path of a query for settlements since a moment in seconds.
pub fn settlements_path(since: i64) -> (r: String)
    ensures
        r@ == "/trade-api/v2/markets/settlements?min_close_ts="@ + decimal(since as int),
{
    joined("/trade-api/v2/markets/settlements?min_close_ts=", i64_text(since).as_str())
}

/// What a status other than success, with a body, means.
pub open spec fn error_of(status: u16, body: Seq<char>, e: KalshiError) -> bool {
    if status == 401 || status == 403 {
        e is AuthFailure
    } else if status == 429 {
        e == (KalshiError::RateLimit { retry_after_secs: 1 })
    } else if status == 400 {
        if occurs_in("insufficient"@, body) || occurs_in("balance"@, body) {
            e is InsufficientFunds
        } else if occurs_in("closed"@, body) {
            e is MarketClosed
        } else {
            e matches KalshiError::InvalidOrder { reason } && reason@ == body
        }
    } else if 500 <= status <= 599 {
        e == KalshiError::ServerError(status)
    } else {
        e matches KalshiError::Other(m) && m@ == "HTTP "@ + decimal(status as int) + ": "@ + body
    }
}

/// What a status other than success, with a body, means.
pub fn parse_error_response(status: u16, body: &str) -> (r: KalshiError)
    ensures
        error_of(status, body@, r),
{
    if status == 401 || status == 403 {
        KalshiError::AuthFailure
    } else if status == 429 {
        KalshiError::RateLimit { retry_after_secs: 1 }
    } else if status == 400 {
        if contains(body, "insufficient") || contains(body, "balance") {
            KalshiError::InsufficientFunds
        } else if contains(body, "closed") {
            KalshiError::MarketClosed
        } else {
            KalshiError::InvalidOrder { reason: body.to_owned() }
        }
    } else if 500 <= status && status <= 599 {
        KalshiError::ServerError(status)
    } else {
        let mut m: String = joined("HTTP ", u64_text(status as u64).as_str());
        m.append(": ");
        m.append(body);
        KalshiError::Other(m)
    }
}

/// How often a request is made at most.
pub const MAX_ATTEMPTS: u32 = 3;

/// What came of an attempt.
pub enum Attempted<'a> {
    /// An answer with this status and this body.
    Answered(u16, &'a str),
    /// No answer, for this reason.
    Unreachable(String),
}

/// What follows.
pub enum AfterAttempt {
    /// The answer is to be read.
    Success,
    /// The request is to be made again after so many seconds.
    Retry(u64),
    /// The request has failed.
    Failed(KalshiError),
}

/// A status that means success.
pub open spec fn succeeded(status: u16) -> bool {
    200 <= status <= 299
}

/// Seconds to wait after the attempt of this number, counted from zero.
pub open spec fn retry_delay(attempt: u32) -> u64 {
    if attempt == 0 { 1 } else { 2 }
}

/// What follows an attempt: errors of the server and missing answers are worth another, twice
/// at most, after one and after two seconds; any other error is final.
pub open spec fn follows(r: AfterAttempt, attempt: u32, outcome: Attempted) -> bool {
    match outcome {
        Attempted::Answered(status, body) => if succeeded(status) {
            r is Success
        } else if 500 <= status <= 599 && attempt < 2 {
            r == AfterAttempt::Retry(retry_delay(attempt))
        } else {
            r matches AfterAttempt::Failed(e) && error_of(status, body@, e)
        },
        Attempted::Unreachable(reason) => if attempt < 2 {
            r == AfterAttempt::Retry(retry_delay(attempt))
        } else {
            r matches AfterAttempt::Failed(KalshiError::NetworkError(m)) && m@ == reason@
        },
    }
}

/// What follows an attempt.
pub fn after_attempt(attempt: u32, outcome: Attempted) -> (r: AfterAttempt)
    ensures
        follows(r, attempt, outcome),
{
    let delay: u64 = if attempt == 0 { 1 } else { 2 };
    match outcome {
        Attempted::Answered(status, body) => {
            if 200 <= status && status <= 299 {
                return AfterAttempt::Success;
            }
            if 500 <= status && status <= 599 && attempt < 2 {
                return AfterAttempt::Retry(delay);
            }
            AfterAttempt::Failed(parse_error_response(status, body))
        },
        Attempted::Unreachable(reason) => {
            if attempt < 2 {
                AfterAttempt::Retry(delay)
            } else {
                AfterAttempt::Failed(KalshiError::NetworkError(reason))
            }
        },
    }
}

/// Only errors of the server are worth another attempt: a refusal of the order never is.
pub proof fn refusals_are_final(status: u16, body: Seq<char>, e: KalshiError)
    requires
        error_of(status, body, e),
        e is InsufficientFunds || e is MarketClosed || e is InvalidOrder || e is AuthFailure || e is RateLimit,
    ensures
        !(500 <= status <= 599),
{
}

/// A status stands for one kind of error and each kind for its own statuses; of a bad request the
/// body decides, lack of funds before a closed market.
pub proof fn errors_are_told_by_status(status: u16, body: Seq<char>, e: KalshiError)
    requires
        error_of(status, body, e),
    ensures
        e is AuthFailure <==> status == 401 || status == 403,
        e is RateLimit <==> status == 429,
        e matches KalshiError::RateLimit { retry_after_secs } ==> retry_after_secs == 1,
        e is InsufficientFunds <==> status == 400 && (occurs_in("insufficient"@, body) || occurs_in("balance"@, body)),
        e is MarketClosed <==> status == 400 && !occurs_in("insufficient"@, body) && !occurs_in("balance"@, body)
            && occurs_in("closed"@, body),
        e is InvalidOrder <==> status == 400 && !occurs_in("insufficient"@, body) && !occurs_in("balance"@, body)
            && !occurs_in("closed"@, body),
        e matches KalshiError::InvalidOrder { reason } ==> reason@ == body,
        e is ServerError <==> 500 <= status < 600,
        e matches KalshiError::ServerError(code) ==> code == status,
        !(e is NetworkError) && !(e is SigningError) && !(e is WebSocketError),
{
}

/// A request is made again exactly after a missing answer or an error of the server, and only after
/// the first and the second attempt; it waits one second and then two. It succeeds exactly with a
/// status from 200 to 299.
pub proof fn requests_are_made_three_times_at_most(r: AfterAttempt, attempt: u32, outcome: Attempted)
    requires
        follows(r, attempt, outcome),
    ensures
        r is Retry <==> attempt < 2 && (outcome is Unreachable || (outcome matches Attempted::Answered(status, _) && 500
            <= status < 600)),
        r matches AfterAttempt::Retry(wait) ==> wait == attempt + 1,
        r is Success <==> (outcome matches Attempted::Answered(status, _) && 200 <= status < 300),
        outcome is Unreachable && attempt >= 2 ==> (r matches AfterAttempt::Failed(e) && e is NetworkError),
        r matches AfterAttempt::Failed(e) ==> (outcome matches Attempted::Answered(status, body) ==> error_of(
            status,
            body@,
            e,
        )),
{
}

/// Letters, digits and four marks stand for themselves in an address; any other byte is a percent
/// sign and its two digits. Bytes are written one after the other.
pub proof fn addresses_are_written_byte_by_byte(bytes: Seq<u8>, b: u8)
    ensures
        percent_encoded(Seq::empty()) == Seq::<char>::empty(),
        (0x30 <= b <= 0x39) || (0x41 <= b <= 0x5a) || (0x61 <= b <= 0x7a) || b == 0x2d || b == 0x2e || b == 0x5f || b
            == 0x7e <==> unreserved(b),
        unreserved(b) ==> percent_encoded(bytes.push(b)) == percent_encoded(bytes).push(b as char),
        !unreserved(b) ==> percent_encoded(bytes.push(b)) == percent_encoded(bytes).push('%').push(
            upper_hex(b as int / 16),
        ).push(upper_hex(b as int % 16)),
{
    assert(bytes.push(b).drop_last() =~= bytes);
    let p = percent_encoded(bytes);
    assert(p + seq![b as char] =~= p.push(b as char));
    assert(p + seq!['%', upper_hex(b as int / 16), upper_hex(b as int % 16)] =~= p.push('%').push(
        upper_hex(b as int / 16),
    ).push(upper_hex(b as int % 16)));
}

/// A filter that is given is named with its value, and one that is not leaves nothing.
pub proof fn filters_name_their_value(name: Seq<char>, value: Option<String>)
    ensures
        value is None ==> filter_part(name, value).len() == 0,
        value is Some ==> filter_part(name, value) == name + url_text((value->0)@) + "&"@,
{
}

} // verus!
