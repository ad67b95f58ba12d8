//! Messages that could not be dealt with.
use vstd::prelude::*;
use vstd::string::*;

use crate::text::{decimal, joined, u64_text};

verus! {

/// The subject that such messages go to.
pub const DEAD_LETTER_SUBJECT: &'static str = "tradebot.deadletter";

/// Why a message was given up.
#[derive(Clone, Debug)]
pub enum DeadLetterReason {
    DeserializationFailure(String),
    RiskRejection(String),
    OrderSubmissionFailed { ticker: String, attempts: u32 },
    UnknownSignalType(String),
}

impl DeadLetterReason {
    /// The reason in words.
    pub open spec fn words(&self) -> Seq<char> {
        match self {
            DeadLetterReason::DeserializationFailure(e) => "deserialization_failure: "@ + e@,
            DeadLetterReason::RiskRejection(reason) => "risk_rejection: "@ + reason@,
            DeadLetterReason::OrderSubmissionFailed { ticker, attempts } => "order_failed: "@ + ticker@
                + " after "@ + decimal(*attempts as int) + " attempts"@,
            DeadLetterReason::UnknownSignalType(t) => "unknown_signal_type: "@ + t@,
        }
    }

    /// The reason in words.
    pub fn text(&self) -> (r: String)
        ensures
            r@ == self.words(),
    {
        match self {
            DeadLetterReason::DeserializationFailure(e) => joined("deserialization_failure: ", e.as_str()),
            DeadLetterReason::RiskRejection(reason) => joined("risk_rejection: ", reason.as_str()),
            DeadLetterReason::OrderSubmissionFailed { ticker, attempts } => {
                let mut out: String = joined("order_failed: ", ticker.as_str());
                out.append(" after ");
                out.append(u64_text(*attempts as u64).as_str());
                out.append(" attempts");
                out
            },
            DeadLetterReason::UnknownSignalType(t) => joined("unknown_signal_type: ", t.as_str()),
        }
    }
}

/// The words end with what is known of the reason, and begin with its kind.
pub proof fn words_name_kind_and_detail(r: DeadLetterReason)
    ensures
        r matches DeadLetterReason::DeserializationFailure(e) ==> r.words() == "deserialization_failure: "@ + e@,
        r matches DeadLetterReason::RiskRejection(e) ==> r.words() == "risk_rejection: "@ + e@,
        r matches DeadLetterReason::UnknownSignalType(t) ==> r.words() == "unknown_signal_type: "@ + t@,
        r matches DeadLetterReason::OrderSubmissionFailed { ticker, attempts } ==> r.words() == "order_failed: "@
            + ticker@ + " after "@ + decimal(attempts as int) + " attempts"@,
{
}

} // verus!
