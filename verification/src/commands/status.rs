//! Health of the API as the client sees it.

use vstd::prelude::*;
use vstd::string::*;
use crate::commands::{no_params, Endpoint, EndpointView};
use crate::text::owned;

verus! {

/// Outcome of the health check.
#[derive(Debug)]
pub struct StatusResult {
    pub coinpaprika: ApiStatus,
    pub api_key_configured: bool,
}

/// Whether the API answered, and how long it took.
#[derive(Debug)]
pub struct ApiStatus {
    pub status: String,
    pub response_time_ms: u128,
}

/// The request that the health check sends: the market overview, filed
/// under the status page.
pub open spec fn probe_endpoint() -> EndpointView {
    EndpointView {
        path: "/global"@,
        params: seq![],
        entity_path: "/status"@,
        keep: None,
    }
}

/// The first step of the command: the request that `probe_endpoint` describes.
pub fn execute() -> (e: Endpoint)
    ensures
        e@ == probe_endpoint(),
{
    let params = no_params();
    let e = Endpoint {
        path: owned("/global"),
        params,
        entity_path: owned("/status"),
        keep: None,
    };
    proof {
        assert(e@.params =~= probe_endpoint().params);
    }
    e
}

/// The outcome of the health check: `OK` if the API answered the probe,
/// `ERROR` if it did not, with the time the answer took and whether an API
/// key is configured.
pub fn status_result(answered: bool, response_time_ms: u128, api_key_configured: bool) -> (r:
    StatusResult)
    ensures
        r.coinpaprika.status@ == if answered {
            "OK"@
        } else {
            "ERROR"@
        },
        r.coinpaprika.response_time_ms == response_time_ms,
        r.api_key_configured == api_key_configured,
{
    let status = if answered {
        owned("OK")
    } else {
        owned("ERROR")
    };
    StatusResult { coinpaprika: ApiStatus { status, response_time_ms }, api_key_configured }
}

} // verus!
