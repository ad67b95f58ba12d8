//! Deribit: the volatility index.
use vstd::prelude::*;
use vstd::string::*;

use crate::json::{
    as_number, field, get, json_of, number_in, owned, parse_json, text_field, text_in, Json, JsonView,
};
use crate::order_manager::order::text_of;
use crate::text::same_text;

verus! {

/// The channel of the index.
pub const DVOL_CHANNEL: &'static str = "deribit_volatility_index.btc_usd";

/// The value of the index that a message tells, as text.
pub open spec fn index_in(j: JsonView) -> Option<Seq<char>> {
    if text_in(field(j, "method"@)) != Some("subscription"@) {
        None
    } else {
        match field(j, "params"@) {
            None => None,
            Some(params) => if text_in(field(params, "channel"@)) != Some(
                "deribit_volatility_index.btc_usd"@,
            ) {
                None
            } else {
                match field(params, "data"@) {
                    Some(data) => number_in(field(data, "volatility"@)),
                    None => None,
                }
            },
        }
    }
}

/// The value of the index that a message tells, as text.
pub fn read_deribit(j: &Json) -> (r: Option<String>)
    ensures
        text_of(r) == index_in(j@),
{
    match text_field(j, "method") {
        Some(m) => {
            if !same_text(m, "subscription") {
                return None;
            }
        },
        None => {
            return None;
        },
    }
    let params: &Json = match get(j, "params") {
        Some(p) => p,
        None => {
            return None;
        },
    };
    match text_field(params, "channel") {
        Some(c) => {
            if !same_text(c, "deribit_volatility_index.btc_usd") {
                return None;
            }
        },
        None => {
            return None;
        },
    }
    match get(params, "data") {
        Some(data) => owned(as_number(get(data, "volatility"))),
        None => None,
    }
}

/// The value of the index that a text from the socket tells; nothing where it is not JSON.
pub fn parse_deribit_message(text: &str) -> (r: Option<String>)
    ensures
        text_of(r) == (match json_of(text@) {
            Some(j) => index_in(j),
            None => None,
        }),
{
    match parse_json(text) {
        Some(j) => read_deribit(&j),
        None => None,
    }
}

/// A message tells the index exactly if it is a subscription's, on the channel of the index, and
/// states a volatility; it is the number stated.
pub proof fn index_messages_tell_volatility(j: JsonView, x: Seq<char>)
    ensures
        index_in(j) == Some(x) <==> field(j, "method"@) == Some(JsonView::Text("subscription"@)) && (field(
            j,
            "params"@,
        ) matches Some(params) && field(params, "channel"@) == Some(
            JsonView::Text("deribit_volatility_index.btc_usd"@),
        ) && (field(params, "data"@) matches Some(data) && (field(data, "volatility"@) matches Some(
            JsonView::Number(n),
        ) && n.text == x))),
{
}

} // verus!
