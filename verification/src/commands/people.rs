//! People who work on coins.

use vstd::prelude::*;
use vstd::string::*;
use crate::commands::{no_params, path_with, Endpoint, EndpointView};

verus! {

/// A person, as far as the tables show them.
#[derive(Debug)]
pub struct Person {
    pub id: Option<String>,
    pub name: Option<String>,
    pub description: Option<String>,
    pub teams_count: Option<i64>,
    pub positions: Option<Vec<Position>>,
}

/// A position that a person holds at a coin.
#[derive(Debug)]
pub struct Position {
    pub coin_id: Option<String>,
    pub coin_name: Option<String>,
    pub position: Option<String>,
}

/// One person in detail.
pub open spec fn detail_endpoint(person_id: Seq<char>) -> EndpointView {
    EndpointView {
        path: "/people/"@ + person_id,
        params: seq![],
        entity_path: "/people/"@ + person_id,
        keep: None,
    }
}

/// The first step of the command: the request that `detail_endpoint` describes.
pub fn execute(person_id: &str) -> (e: Endpoint)
    ensures
        e@ == detail_endpoint(person_id@),
{
    let params = no_params();
    let e = Endpoint {
        path: path_with("/people/", person_id),
        params,
        entity_path: path_with("/people/", person_id),
        keep: None,
    };
    proof {
        assert(e@.params =~= detail_endpoint(person_id@).params);
    }
    e
}

} // verus!
