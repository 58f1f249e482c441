//! Search across coins, exchanges, people and tags.

use vstd::prelude::*;
use vstd::string::*;
use crate::commands::{
    no_params, push_number_param, push_optional_param, push_param, Endpoint, EndpointView,
};
use crate::text::{decimal, owned};

verus! {

/// What a search found, by category, as far as the tables show it.
#[derive(Debug)]
pub struct SearchResult {
    pub currencies: Option<Vec<SearchCurrency>>,
    pub exchanges: Option<Vec<SearchExchange>>,
    pub people: Option<Vec<SearchPerson>>,
    pub tags: Option<Vec<SearchTag>>,
}

/// A coin that a search found.
#[derive(Debug)]
pub struct SearchCurrency {
    pub id: String,
    pub name: String,
    pub symbol: String,
    pub rank: Option<i64>,
    pub is_active: Option<bool>,
    pub coin_type: Option<String>,
}

/// An exchange that a search found.
#[derive(Debug)]
pub struct SearchExchange {
    pub id: Option<String>,
    pub name: Option<String>,
}

/// A person that a search found.
#[derive(Debug)]
pub struct SearchPerson {
    pub id: Option<String>,
    pub name: Option<String>,
    pub teams_count: Option<i64>,
}

/// A tag that a search found.
#[derive(Debug)]
pub struct SearchTag {
    pub id: Option<String>,
    pub name: Option<String>,
    pub coin_counter: Option<i64>,
    pub ico_counter: Option<i64>,
}

/// A search for `query`, in the given categories where some are given,
/// with a modifier where one is given.
pub open spec fn search_endpoint(
    query: Seq<char>,
    categories: Option<Seq<char>>,
    limit: usize,
    modifier: Option<Seq<char>>,
) -> EndpointView {
    EndpointView {
        path: "/search"@,
        params: {
            let asked = seq![("q"@, query), ("limit"@, decimal(limit as nat))];
            let narrowed = match categories {
                Some(c) => asked.push(("categories"@, c)),
                None => asked,
            };
            match modifier {
                Some(m) => narrowed.push(("modifier"@, m)),
                None => narrowed,
            }
        },
        entity_path: "/search"@,
        keep: None,
    }
}

/// The first step of the command: the request that `search_endpoint` describes.
pub fn execute(
    query: &str,
    categories: Option<&str>,
    limit: usize,
    modifier: Option<&str>,
) -> (e: Endpoint)
    ensures
        e@ == search_endpoint(query@, categories.deep_view(), limit, modifier.deep_view()),
{
    let mut params = no_params();
    push_param(&mut params, "q", query);
    push_number_param(&mut params, "limit", limit);
    push_optional_param(&mut params, "categories", categories);
    push_optional_param(&mut params, "modifier", modifier);
    let e = Endpoint {
        path: owned("/search"),
        params,
        entity_path: owned("/search"),
        keep: None,
    };
    proof {
        assert(e@.params =~= search_endpoint(
            query@,
            categories.deep_view(),
            limit,
            modifier.deep_view(),
        ).params);
    }
    e
}

} // verus!
