//! The API key's own record, the mappings between identifiers, and the
//! changelog of identifiers.

use vstd::prelude::*;
use vstd::string::*;
use crate::commands::{no_params, push_number_param, Endpoint, EndpointView};
use crate::text::{decimal, owned};

verus! {

/// What the API says of the key in use.
#[derive(Debug)]
pub struct KeyInfo {
    pub plan: Option<String>,
    /// The usage record as pretty-printed JSON.
    pub usage: Option<String>,
    pub message: Option<String>,
}

/// Shown when the key's record is asked for and no key is configured.
pub const NO_KEY_TEXT: &'static str =
    "No API key configured. The key-info command requires a paid API key.\n\n\
     To get started:\n\
     \x20 Get your key:   https://coinpaprika.com/api/pricing\n\
     \x20 Set your key:   coinpaprika-cli config set-key <YOUR_KEY>\n\
     \x20 Or use onboard: coinpaprika-cli onboard\n\n\
     The free tier works without a key (20,000 calls/mo).\n\
     Run coinpaprika-cli plans to see what's included.";

/// The record of the API key in use.
pub open spec fn key_info_endpoint() -> EndpointView {
    EndpointView {
        path: "/key/info"@,
        params: seq![],
        entity_path: "/key/info"@,
        keep: None,
    }
}

/// The first step of the command: the request that `key_info_endpoint` describes.
/// Without a key nothing is asked, and the user is told how to get one.
pub fn execute_key_info(has_key: bool) -> (r: Result<Endpoint, String>)
    ensures
        has_key ==> (r matches Ok(e) && e@ == key_info_endpoint()),
        !has_key ==> (r matches Err(text) && text@ == NO_KEY_TEXT@),
{
    if !has_key {
        return Err(owned(NO_KEY_TEXT));
    }
    let params = no_params();
    let e = Endpoint {
        path: owned("/key/info"),
        params,
        entity_path: owned("/key/info"),
        keep: None,
    };
    proof {
        assert(e@.params =~= key_info_endpoint().params);
    }
    Ok(e)
}

/// The mappings between the identifiers of coins on different platforms.
pub open spec fn mappings_endpoint() -> EndpointView {
    EndpointView {
        path: "/coins/mappings"@,
        params: seq![],
        entity_path: "/coins/mappings"@,
        keep: None,
    }
}

/// The first step of the command: the request that `mappings_endpoint` describes.
pub fn execute_mappings() -> (e: Endpoint)
    ensures
        e@ == mappings_endpoint(),
{
    let params = no_params();
    let e = Endpoint {
        path: owned("/coins/mappings"),
        params,
        entity_path: owned("/coins/mappings"),
        keep: None,
    };
    proof {
        assert(e@.params =~= mappings_endpoint().params);
    }
    e
}

/// One page of the changelog of coin identifiers.
pub open spec fn changelog_endpoint(limit: usize, page: usize) -> EndpointView {
    EndpointView {
        path: "/changelog/ids"@,
        params: seq![("limit"@, decimal(limit as nat)), ("page"@, decimal(page as nat))],
        entity_path: "/changelog"@,
        keep: None,
    }
}

/// The first step of the command: the request that `changelog_endpoint` describes.
pub fn execute_changelog(limit: usize, page: usize) -> (e: Endpoint)
    ensures
        e@ == changelog_endpoint(limit, page),
{
    let mut params = no_params();
    push_number_param(&mut params, "limit", limit);
    push_number_param(&mut params, "page", page);
    let e = Endpoint {
        path: owned("/changelog/ids"),
        params,
        entity_path: owned("/changelog"),
        keep: None,
    };
    proof {
        assert(e@.params =~= changelog_endpoint(limit, page).params);
    }
    e
}

/// The text shown in table mode for a payload that has no table of its own:
/// a title, the payload as pretty-printed JSON, and the footer.
pub fn print_titled_json(title: &str, payload: &str) -> (r: String)
    ensures
        r@ == title@ + "\n"@ + payload@ + "\n"@ + crate::output::FOOTER@,
{
    let mut r = owned(title);
    r.append("\n");
    r.append(payload);
    r.append("\n");
    r.append(crate::output::FOOTER);
    r
}

} // verus!
