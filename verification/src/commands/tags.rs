//! Tags: categories that coins are filed under.

use vstd::prelude::*;
use vstd::string::*;
use crate::commands::{no_params, path_with, Endpoint, EndpointView};
use crate::text::owned;

verus! {

/// A tag as the API describes it.
#[derive(Debug)]
pub struct Tag {
    pub id: String,
    pub name: String,
    pub description: Option<String>,
    pub tag_type: Option<String>,
    pub coin_counter: Option<i64>,
    pub ico_counter: Option<i64>,
    pub coins: Option<Vec<String>>,
}

/// The list of all tags, of which the first `limit` are kept.
pub open spec fn list_endpoint(limit: usize) -> EndpointView {
    EndpointView {
        path: "/tags"@,
        params: seq![],
        entity_path: "/tags"@,
        keep: Some(limit),
    }
}

/// The first step of the command: the request that `list_endpoint` describes.
pub fn execute_list(limit: usize) -> (e: Endpoint)
    ensures
        e@ == list_endpoint(limit),
{
    let params = no_params();
    let e = Endpoint {
        path: owned("/tags"),
        params,
        entity_path: owned("/tags"),
        keep: Some(limit),
    };
    proof {
        assert(e@.params =~= list_endpoint(limit).params);
    }
    e
}

/// One tag in detail.
pub open spec fn detail_endpoint(tag_id: Seq<char>) -> EndpointView {
    EndpointView {
        path: "/tags/"@ + tag_id,
        params: seq![],
        entity_path: "/tag/"@ + tag_id,
        keep: None,
    }
}

/// The first step of the command: the request that `detail_endpoint` describes.
pub fn execute_detail(tag_id: &str) -> (e: Endpoint)
    ensures
        e@ == detail_endpoint(tag_id@),
{
    let params = no_params();
    let e = Endpoint {
        path: path_with("/tags/", tag_id),
        params,
        entity_path: path_with("/tag/", tag_id),
        keep: None,
    };
    proof {
        assert(e@.params =~= detail_endpoint(tag_id@).params);
    }
    e
}

} // verus!
