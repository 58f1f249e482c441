//! Exchanges and the markets on them.

use vstd::prelude::*;
use vstd::string::*;
use crate::commands::{no_params, path_of, path_with, push_param, Endpoint, EndpointView};
use crate::text::owned;

verus! {

/// An exchange. Quantities are held as the texts that show them.
#[derive(Debug)]
pub struct Exchange {
    pub id: String,
    pub name: String,
    pub description: Option<String>,
    pub active: Option<bool>,
    pub website_status: Option<bool>,
    pub api_status: Option<bool>,
    pub message: Option<String>,
    pub markets_data_fetched: Option<bool>,
    pub adjusted_rank: Option<i64>,
    pub reported_rank: Option<i64>,
    pub currencies: Option<i64>,
    pub markets: Option<i64>,
    /// The volumes in the currency of the tables, where there are some.
    pub usd: Option<ExchangeQuote>,
    pub last_updated: Option<String>,
    pub confidence_score: Option<String>,
}

/// Volumes of an exchange in one currency, as the texts that show them.
#[derive(Debug)]
pub struct ExchangeQuote {
    pub reported_volume_24h: Option<String>,
    pub adjusted_volume_24h: Option<String>,
    pub reported_volume_7d: Option<String>,
    pub adjusted_volume_7d: Option<String>,
    pub reported_volume_30d: Option<String>,
    pub adjusted_volume_30d: Option<String>,
}

/// A market on an exchange. Quantities are held as the texts that show
/// them.
#[derive(Debug)]
pub struct ExchangeMarket {
    pub pair: Option<String>,
    pub base_currency_id: Option<String>,
    pub base_currency_name: Option<String>,
    pub quote_currency_id: Option<String>,
    pub quote_currency_name: Option<String>,
    pub market_url: Option<String>,
    pub category: Option<String>,
    pub fee_type: Option<String>,
    pub outlier: Option<bool>,
    pub reported_volume_24h_share: Option<String>,
    /// The quote in the currency of the tables, where there is one.
    pub usd: Option<ExchangeMarketQuote>,
    pub trust_score: Option<String>,
    pub last_updated: Option<String>,
}

/// Price and volume on a market of an exchange in one currency, as the
/// texts that show them.
#[derive(Debug)]
pub struct ExchangeMarketQuote {
    pub price: Option<String>,
    pub volume_24h: Option<String>,
}

/// The list of exchanges with volumes in the given quote currencies, of
/// which the first `limit` are kept.
pub open spec fn list_endpoint(limit: usize, quotes: Seq<char>) -> EndpointView {
    EndpointView {
        path: "/exchanges"@,
        params: seq![("quotes"@, quotes)],
        entity_path: "/exchanges"@,
        keep: Some(limit),
    }
}

/// The first step of the command: the request that `list_endpoint` describes.
pub fn execute_list(limit: usize, quotes: &str) -> (e: Endpoint)
    ensures
        e@ == list_endpoint(limit, quotes@),
{
    let mut params = no_params();
    push_param(&mut params, "quotes", quotes);
    let e = Endpoint {
        path: owned("/exchanges"),
        params,
        entity_path: owned("/exchanges"),
        keep: Some(limit),
    };
    proof {
        assert(e@.params =~= list_endpoint(limit, quotes@).params);
    }
    e
}

/// One exchange in detail.
pub open spec fn detail_endpoint(exchange_id: Seq<char>, quotes: Seq<char>) -> EndpointView {
    EndpointView {
        path: "/exchanges/"@ + exchange_id,
        params: seq![("quotes"@, quotes)],
        entity_path: "/exchange/"@ + exchange_id,
        keep: None,
    }
}

/// The first step of the command: the request that `detail_endpoint` describes.
pub fn execute_detail(exchange_id: &str, quotes: &str) -> (e: Endpoint)
    ensures
        e@ == detail_endpoint(exchange_id@, quotes@),
{
    let mut params = no_params();
    push_param(&mut params, "quotes", quotes);
    let e = Endpoint {
        path: path_with("/exchanges/", exchange_id),
        params,
        entity_path: path_with("/exchange/", exchange_id),
        keep: None,
    };
    proof {
        assert(e@.params =~= detail_endpoint(exchange_id@, quotes@).params);
    }
    e
}

/// The markets on an exchange, of which the first `limit` are kept.
pub open spec fn markets_endpoint(
    exchange_id: Seq<char>,
    limit: usize,
    quotes: Seq<char>,
) -> EndpointView {
    EndpointView {
        path: "/exchanges/"@ + exchange_id + "/markets"@,
        params: seq![("quotes"@, quotes)],
        entity_path: "/exchange/"@ + exchange_id,
        keep: Some(limit),
    }
}

/// The first step of the command: the request that `markets_endpoint` describes.
pub fn execute_markets(exchange_id: &str, limit: usize, quotes: &str) -> (e: Endpoint)
    ensures
        e@ == markets_endpoint(exchange_id@, limit, quotes@),
{
    let mut params = no_params();
    push_param(&mut params, "quotes", quotes);
    let e = Endpoint {
        path: path_of("/exchanges/", exchange_id, "/markets"),
        params,
        entity_path: path_with("/exchange/", exchange_id),
        keep: Some(limit),
    };
    proof {
        assert(e@.params =~= markets_endpoint(exchange_id@, limit, quotes@).params);
    }
    e
}

} // verus!
