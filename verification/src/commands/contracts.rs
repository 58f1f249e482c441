//! Contracts: tokens found by the platform they live on and their address.

use vstd::prelude::*;
use vstd::string::*;
use crate::commands::{
    no_params, path_of, path_with, push_number_param, push_optional_param, push_param, Endpoint,
    EndpointView,
};
use crate::text::{decimal, owned};

verus! {

/// A contract on a platform.
#[derive(Debug)]
pub struct Contract {
    pub address: Option<String>,
    pub contract_type: Option<String>,
    pub id: Option<String>,
    pub active: Option<bool>,
}

/// Price data of the token behind a contract. Quantities are held as the
/// texts that show them.
#[derive(Debug)]
pub struct ContractTicker {
    pub id: Option<String>,
    pub name: Option<String>,
    pub symbol: Option<String>,
    pub rank: Option<i64>,
    pub circulating_supply: Option<String>,
    pub total_supply: Option<String>,
    pub max_supply: Option<String>,
    pub first_data_at: Option<String>,
    pub last_updated: Option<String>,
    /// The quote in the currency of the tables, where there is one.
    pub usd: Option<ContractQuote>,
}

/// Price data of a token in one currency, as the texts that show it.
#[derive(Debug)]
pub struct ContractQuote {
    pub price: Option<String>,
    pub volume_24h: Option<String>,
    pub market_cap: Option<String>,
    pub percent_change_24h: Option<String>,
    pub percent_change_7d: Option<String>,
    pub percent_change_30d: Option<String>,
    pub percent_change_1y: Option<String>,
    pub ath_price: Option<String>,
    pub ath_date: Option<String>,
    pub percent_from_price_ath: Option<String>,
}

/// Price data of a token at one moment, as the texts that show it.
#[derive(Debug)]
pub struct ContractHistoryPoint {
    pub timestamp: Option<String>,
    pub price: Option<String>,
    pub volume_24h: Option<String>,
    pub market_cap: Option<String>,
}

/// The path of a contract: the platform, then the address.
pub fn contract_path(platform_id: &str, address: &str) -> (r: String)
    ensures
        r@ == "/contracts/"@ + platform_id@ + "/"@ + address@,
{
    let mut r = path_of("/contracts/", platform_id, "/");
    r.append(address);
    r
}

/// The list of platforms that hold contracts.
pub open spec fn platforms_endpoint() -> EndpointView {
    EndpointView {
        path: "/contracts"@,
        params: seq![],
        entity_path: "/contracts"@,
        keep: None,
    }
}

/// The first step of the command: the request that `platforms_endpoint` describes.
pub fn execute_platforms() -> (e: Endpoint)
    ensures
        e@ == platforms_endpoint(),
{
    let params = no_params();
    let e = Endpoint {
        path: owned("/contracts"),
        params,
        entity_path: owned("/contracts"),
        keep: None,
    };
    proof {
        assert(e@.params =~= platforms_endpoint().params);
    }
    e
}

/// The contracts on a platform, of which the first `limit` are kept.
pub open spec fn contracts_endpoint(platform_id: Seq<char>, limit: usize) -> EndpointView {
    EndpointView {
        path: "/contracts/"@ + platform_id,
        params: seq![],
        entity_path: "/contracts/"@ + platform_id,
        keep: Some(limit),
    }
}

/// The first step of the command: the request that `contracts_endpoint` describes.
pub fn execute_contracts(platform_id: &str, limit: usize) -> (e: Endpoint)
    ensures
        e@ == contracts_endpoint(platform_id@, limit),
{
    let params = no_params();
    let e = Endpoint {
        path: path_with("/contracts/", platform_id),
        params,
        entity_path: path_with("/contracts/", platform_id),
        keep: Some(limit),
    };
    proof {
        assert(e@.params =~= contracts_endpoint(platform_id@, limit).params);
    }
    e
}

/// The price of the token behind a contract.
pub open spec fn ticker_endpoint(platform_id: Seq<char>, address: Seq<char>) -> EndpointView {
    EndpointView {
        path: "/contracts/"@ + platform_id + "/"@ + address,
        params: seq![],
        entity_path: "/contracts/"@ + platform_id + "/"@ + address,
        keep: None,
    }
}

/// The first step of the command: the request that `ticker_endpoint` describes.
pub fn execute_ticker(platform_id: &str, address: &str) -> (e: Endpoint)
    ensures
        e@ == ticker_endpoint(platform_id@, address@),
{
    let params = no_params();
    let e = Endpoint {
        path: contract_path(platform_id, address),
        params,
        entity_path: contract_path(platform_id, address),
        keep: None,
    };
    proof {
        assert(e@.params =~= ticker_endpoint(platform_id@, address@).params);
    }
    e
}

/// Past prices of the token behind a contract from `start` on, to `end`
/// where one is given.
pub open spec fn history_endpoint(
    platform_id: Seq<char>,
    address: Seq<char>,
    start: Seq<char>,
    end: Option<Seq<char>>,
    interval: Seq<char>,
    limit: usize,
) -> EndpointView {
    EndpointView {
        path: "/contracts/"@ + platform_id + "/"@ + address + "/historical"@,
        params: {
            let fixed = seq![
                ("start"@, start),
                ("interval"@, interval),
                ("limit"@, decimal(limit as nat)),
            ];
            match end {
                Some(e) => fixed.push(("end"@, e)),
                None => fixed,
            }
        },
        entity_path: "/contracts/"@ + platform_id + "/"@ + address,
        keep: None,
    }
}

/// The first step of the command: the request that `history_endpoint` describes.
pub fn execute_history(
    platform_id: &str,
    address: &str,
    start: &str,
    end: Option<&str>,
    interval: &str,
    limit: usize,
) -> (e: Endpoint)
    ensures
        e@ == history_endpoint(
            platform_id@,
            address@,
            start@,
            end.deep_view(),
            interval@,
            limit,
        ),
{
    let mut params = no_params();
    push_param(&mut params, "start", start);
    push_param(&mut params, "interval", interval);
    push_number_param(&mut params, "limit", limit);
    push_optional_param(&mut params, "end", end);
    let e = Endpoint {
        path: contract_path(platform_id, address).concat("/historical"),
        params,
        entity_path: contract_path(platform_id, address),
        keep: None,
    };
    proof {
        assert(e@.params =~= history_endpoint(
        platform_id@,
        address@,
        start@,
        end.deep_view(),
        interval@,
        limit,
    ).params);
    }
    e
}

} // verus!
