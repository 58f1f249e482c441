//! The commands. A command that needs the API is carried out in two steps:
//! its `execute` function says what to ask, and, once the caller has sent
//! the request and decoded the answer, a function of `output` turns the
//! answer into text. The records that the tables show are defined here.

pub mod api_management;
pub mod attribution;
pub mod coins;
pub mod config;
pub mod contracts;
pub mod convert;
pub mod exchanges;
pub mod global;
pub mod ohlcv;
pub mod onboard;
pub mod people;
pub mod plans;
pub mod search;
pub mod status;
pub mod tags;
pub mod tickers;

use vstd::prelude::*;
use vstd::string::*;
use crate::text::{decimal, owned, unsigned_to_string};

verus! {

/// The currency whose quote the tables show.
pub const TABLE_QUOTE: &'static str = "USD";

/// One request to the API, described before it is sent.
#[derive(Debug)]
pub struct Endpoint {
    /// Path below the base URL.
    pub path: String,
    /// Query parameters as name and value, in the order in which they are sent.
    pub params: Vec<(String, String)>,
    /// Path of the entity on the site, for the provenance of JSON output.
    pub entity_path: String,
    /// How many records of a list are kept; `None` keeps what comes back.
    pub keep: Option<usize>,
}

/// An endpoint as plain values.
pub struct EndpointView {
    pub path: Seq<char>,
    pub params: Seq<(Seq<char>, Seq<char>)>,
    pub entity_path: Seq<char>,
    pub keep: Option<usize>,
}

impl View for Endpoint {
    type V = EndpointView;

    open spec fn view(&self) -> EndpointView {
        EndpointView {
            path: self.path@,
            params: self.params.deep_view(),
            entity_path: self.entity_path@,
            keep: self.keep,
        }
    }
}

/// Adds one query parameter.
pub fn push_param(params: &mut Vec<(String, String)>, name: &str, value: &str)
    ensures
        final(params).deep_view() == old(params).deep_view().push((name@, value@)),
{
    let ghost before = params.deep_view();
    params.push((owned(name), owned(value)));
    assert(params.deep_view() =~= before.push((name@, value@)));
}

/// Adds a query parameter whose value is a number.
pub fn push_number_param(params: &mut Vec<(String, String)>, name: &str, value: usize)
    ensures
        final(params).deep_view() == old(params).deep_view().push(
            (name@, decimal(value as nat)),
        ),
{
    let text = unsigned_to_string(value as u128);
    push_param(params, name, text.as_str());
}

/// Adds a query parameter where a value is given, and nothing where none is.
pub fn push_optional_param(params: &mut Vec<(String, String)>, name: &str, value: Option<&str>)
    ensures
        final(params).deep_view() == match value {
            Some(v) => old(params).deep_view().push((name@, v@)),
            None => old(params).deep_view(),
        },
{
    if let Some(v) = value {
        push_param(params, name, v);
    }
}

/// A path made of a fixed start, an identifier and a fixed end.
pub fn path_of(start: &str, id: &str, end: &str) -> (r: String)
    ensures
        r@ == start@ + id@ + end@,
{
    let mut r = owned(start);
    r.append(id);
    r.append(end);
    r
}

/// A path made of a fixed start and an identifier.
pub fn path_with(start: &str, id: &str) -> (r: String)
    ensures
        r@ == start@ + id@,
{
    let mut r = owned(start);
    r.append(id);
    r
}

/// No query parameters.
pub fn no_params() -> (params: Vec<(String, String)>)
    ensures
        params.deep_view() == Seq::<(Seq<char>, Seq<char>)>::empty(),
{
    let params: Vec<(String, String)> = Vec::new();
    assert(params.deep_view() =~= Seq::<(Seq<char>, Seq<char>)>::empty());
    params
}

/// The first `limit` records of a list, or all of them if there are fewer.
pub fn take_first<T>(items: Vec<T>, limit: usize) -> (kept: Vec<T>)
    ensures
        kept@ == items@.take(
            if limit <= items@.len() {
                limit as int
            } else {
                items@.len() as int
            },
        ),
{
    let mut kept = items;
    kept.truncate(limit);
    kept
}

} // verus!
