//! A currency converter's decisions: which arguments form a request, when the
//! cached rate document must be fetched again, where it is fetched from, and
//! how the two rates of a request are found in it.

pub mod args;
pub mod cache;
pub mod fetch;
pub mod rates;
