//! Finding the two rates of a request in the fetched JSON document.
//!
//! The document is parsed and read with serde_json. A parsed document stays
//! opaque here: what is known of it is what the named results of
//! serde_json's calls say.

use vstd::prelude::*;
use serde_json::Value;

verus! {

#[verifier::external_type_specification]
#[verifier::external_body]
pub struct ExValue(serde_json::Value);

#[verifier::external_type_specification]
#[verifier::external_body]
pub struct ExJsonError(serde_json::Error);

/// The document that `serde_json::from_str::<Value>` reads from a text, or
/// `None` where serde_json refuses the text.
pub uninterp spec fn parsed_json(text: Seq<char>) -> Option<Value>;

/// The member under `key` of a JSON value, as `Value::get` with a string key
/// finds it: `None` where the value is not an object or has no such key.
pub uninterp spec fn json_member(v: Value, key: Seq<char>) -> Option<Value>;

/// Whether a JSON value is an object, as `Value::is_object` tells.
pub uninterp spec fn json_is_object(v: Value) -> bool;

/// Relies on serde_json::from_str: it reads a JSON document from the text, or
/// fails where serde_json refuses the text.
#[verifier::external_body]
fn from_json_text(text: &str) -> (r: Result<Value, serde_json::Error>)
    ensures
        r is Ok <==> parsed_json(text@) is Some,
        r matches Ok(v) ==> parsed_json(text@) == Some(v),
{
    serde_json::from_str::<Value>(text)
}

/// Relies on serde_json::Value::get with a string key: the member under that
/// key of an object.
#[verifier::external_body]
fn member<'a>(v: &'a Value, key: &str) -> (r: Option<&'a Value>)
    ensures
        r is Some <==> json_member(*v, key@) is Some,
        r matches Some(m) ==> json_member(*v, key@) == Some(*m),
{
    v.get(key)
}

/// Relies on serde_json::Value::is_object.
#[verifier::external_body]
fn is_object(v: &Value) -> (r: bool)
    ensures
        r == json_is_object(*v),
{
    v.is_object()
}

/// The key under which the document holds its table of rates.
pub const RATES_KEY: &'static str = "rates";

/// Why the rates of a request could not be found.
#[derive(Clone, Debug)]
pub enum RateError {
    /// serde_json refuses the text as a JSON document.
    Malformed,
    /// The document has no `rates` member that is an object.
    MissingRates,
    /// The table of rates has no entry for this currency code.
    UnknownCurrency(String),
}

impl RateError {
    /// The line that reports this error.
    pub fn message(&self) -> (r: String)
        ensures
            match self {
                RateError::Malformed => r@ == MALFORMED_MESSAGE@,
                RateError::MissingRates => r@ == MISSING_RATES_MESSAGE@,
                RateError::UnknownCurrency(c) => r@ == "Error: '"@ + c@
                    + "' is not recognized as a currency."@,
            },
    {
        match self {
            RateError::Malformed => MALFORMED_MESSAGE.to_string(),
            RateError::MissingRates => MISSING_RATES_MESSAGE.to_string(),
            RateError::UnknownCurrency(c) => {
                let mut r = "Error: '".to_string();
                r.append(c.as_str());
                r.append("' is not recognized as a currency.");
                r
            },
        }
    }
}

/// Reported where serde_json refuses the text.
pub const MALFORMED_MESSAGE: &'static str = "Could not parse JSON from the currency file";

/// Reported where the document has no table of rates.
pub const MISSING_RATES_MESSAGE: &'static str = "Error: No 'rates' field found in the JSON data.";

/// The table of rates of a document: its `rates` member, where that is an object.
pub open spec fn rate_table(doc: Value) -> Option<Value> {
    match json_member(doc, RATES_KEY@) {
        Some(t) => if json_is_object(t) {
            Some(t)
        } else {
            None
        },
        None => None,
    }
}

/// What looking up `from` and `to` in a document comes to: the two entries of
/// its table of rates, or the first thing that is missing (the table, then the
/// entry for `from`, then the one for `to`).
pub open spec fn lookup_result(doc: Value, from: Seq<char>, to: Seq<char>, r: Result<
    (&Value, &Value),
    RateError,
>) -> bool {
    match rate_table(doc) {
        None => r matches Err(RateError::MissingRates),
        Some(t) => match (json_member(t, from), json_member(t, to)) {
            (None, _) => r matches Err(RateError::UnknownCurrency(c)) && c@ == from,
            (Some(_), None) => r matches Err(RateError::UnknownCurrency(c)) && c@ == to,
            (Some(a), Some(b)) => r matches Ok((x, y)) && *x == a && *y == b,
        },
    }
}

/// Reads the rate document from its text.
pub fn parse_document(text: &str) -> (r: Result<Value, RateError>)
    ensures
        match parsed_json(text@) {
            Some(doc) => r == Ok::<Value, RateError>(doc),
            None => r matches Err(RateError::Malformed),
        },
{
    match from_json_text(text) {
        Ok(v) => Ok(v),
        Err(_) => Err(RateError::Malformed),
    }
}

/// Finds the rates of `from` and `to` in the document's table of rates.
pub fn lookup_rates<'a>(doc: &'a Value, from: &str, to: &str) -> (r: Result<
    (&'a Value, &'a Value),
    RateError,
>)
    ensures
        lookup_result(*doc, from@, to@, r),
{
    let table = match member(doc, RATES_KEY) {
        Some(t) => t,
        None => {
            return Err(RateError::MissingRates);
        },
    };
    if !is_object(table) {
        return Err(RateError::MissingRates);
    }
    let rate_from = match member(table, from) {
        Some(v) => v,
        None => {
            return Err(RateError::UnknownCurrency(from.to_string()));
        },
    };
    let rate_to = match member(table, to) {
        Some(v) => v,
        None => {
            return Err(RateError::UnknownCurrency(to.to_string()));
        },
    };
    Ok((rate_from, rate_to))
}

} // verus!
