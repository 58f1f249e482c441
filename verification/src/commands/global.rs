//! The overview of the whole market.

use vstd::prelude::*;
use vstd::string::*;
use crate::commands::{no_params, Endpoint, EndpointView};
use crate::text::owned;

verus! {

/// The state of the whole market. Quantities are held as the texts that
/// show them.
#[derive(Debug)]
pub struct GlobalData {
    pub market_cap_usd: Option<String>,
    pub volume_24h_usd: Option<String>,
    pub bitcoin_dominance_percentage: Option<String>,
    pub cryptocurrencies_number: Option<i64>,
    pub market_cap_ath_value: Option<String>,
    pub market_cap_ath_date: Option<String>,
    pub volume_24h_ath_value: Option<String>,
    pub volume_24h_ath_date: Option<String>,
    pub volume_24h_percent_from_ath: Option<String>,
    pub volume_24h_percent_to_ath: Option<String>,
    pub market_cap_change_24h: Option<String>,
    pub volume_24h_change_24h: Option<String>,
    pub last_updated: Option<i64>,
}

/// The overview of the whole market.
pub open spec fn overview_endpoint() -> EndpointView {
    EndpointView {
        path: "/global"@,
        params: seq![],
        entity_path: ""@,
        keep: None,
    }
}

/// The first step of the command: the request that `overview_endpoint` describes.
pub fn execute() -> (e: Endpoint)
    ensures
        e@ == overview_endpoint(),
{
    let params = no_params();
    let e = Endpoint {
        path: owned("/global"),
        params,
        entity_path: owned(""),
        keep: None,
    };
    proof {
        assert(e@.params =~= overview_endpoint().params);
    }
    e
}

} // verus!
