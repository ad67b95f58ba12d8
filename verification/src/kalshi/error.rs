//! What can go wrong between here and the exchange.
use vstd::prelude::*;
use vstd::string::*;

use crate::text::{decimal, joined, u64_text};

verus! {

#[derive(Debug)]
pub enum KalshiError {
    /// Too many requests; to be tried again after this many seconds.
    RateLimit { retry_after_secs: u64 },
    InsufficientFunds,
    MarketClosed,
    InvalidOrder { reason: String },
    AuthFailure,
    ServerError(u16),
    NetworkError(String),
    SigningError(String),
    WebSocketError(String),
    Other(String),
}

impl KalshiError {
    /// The message of an error.
    pub open spec fn text(&self) -> Seq<char> {
        match self {
            KalshiError::RateLimit { retry_after_secs } => "rate limited, retry after "@ + decimal(
                *retry_after_secs as int,
            ) + "s"@,
            KalshiError::InsufficientFunds => "insufficient funds"@,
            KalshiError::MarketClosed => "market closed"@,
            KalshiError::InvalidOrder { reason } => "invalid order: "@ + reason@,
            KalshiError::AuthFailure => "authentication failure"@,
            KalshiError::ServerError(status) => "server error: "@ + decimal(*status as int),
            KalshiError::NetworkError(e) => "network error: "@ + e@,
            KalshiError::SigningError(e) => "signing error: "@ + e@,
            KalshiError::WebSocketError(e) => "websocket error: "@ + e@,
            KalshiError::Other(e) => e@,
        }
    }

    /// The message of the error.
    pub fn message(&self) -> (r: String)
        ensures
            r@ == self.text(),
    {
        match self {
            KalshiError::RateLimit { retry_after_secs } => {
                let mut out: String = joined("rate limited, retry after ", u64_text(*retry_after_secs).as_str());
                out.append("s");
                out
            },
            KalshiError::InsufficientFunds => "insufficient funds".to_owned(),
            KalshiError::MarketClosed => "market closed".to_owned(),
            KalshiError::InvalidOrder { reason } => joined("invalid order: ", reason.as_str()),
            KalshiError::AuthFailure => "authentication failure".to_owned(),
            KalshiError::ServerError(status) => joined("server error: ", u64_text(*status as u64).as_str()),
            KalshiError::NetworkError(e) => joined("network error: ", e.as_str()),
            KalshiError::SigningError(e) => joined("signing error: ", e.as_str()),
            KalshiError::WebSocketError(e) => joined("websocket error: ", e.as_str()),
            KalshiError::Other(e) => e.clone(),
        }
    }
}

/// The message of an error names its kind and, where there is any, the detail.
pub proof fn messages_name_kind_and_detail(e: KalshiError)
    ensures
        e matches KalshiError::RateLimit { retry_after_secs } ==> e.text() == "rate limited, retry after "@ + decimal(
            retry_after_secs as int,
        ) + "s"@,
        e is InsufficientFunds ==> e.text() == "insufficient funds"@,
        e is MarketClosed ==> e.text() == "market closed"@,
        e is AuthFailure ==> e.text() == "authentication failure"@,
        e matches KalshiError::InvalidOrder { reason } ==> e.text() == "invalid order: "@ + reason@,
        e matches KalshiError::ServerError(status) ==> e.text() == "server error: "@ + decimal(status as int),
        e matches KalshiError::NetworkError(m) ==> e.text() == "network error: "@ + m@,
        e matches KalshiError::SigningError(m) ==> e.text() == "signing error: "@ + m@,
        e matches KalshiError::WebSocketError(m) ==> e.text() == "websocket error: "@ + m@,
        e matches KalshiError::Other(m) ==> e.text() == m@,
{
}

} // verus!
