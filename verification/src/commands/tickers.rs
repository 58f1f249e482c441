//! Prices: of all coins, of one coin, and of one coin over time.

use vstd::prelude::*;
use vstd::string::*;
use crate::commands::{
    no_params, path_of, path_with, push_number_param, push_optional_param, push_param, Endpoint,
    EndpointView,
};
use crate::text::{decimal, owned};

verus! {

/// Price data of a coin. Quantities are held as the texts that show them.
#[derive(Debug)]
pub struct Ticker {
    pub id: String,
    pub name: String,
    pub symbol: String,
    pub rank: Option<i64>,
    pub circulating_supply: Option<String>,
    pub total_supply: Option<String>,
    pub max_supply: Option<String>,
    pub first_data_at: Option<String>,
    pub last_updated: Option<String>,
    /// The quote in the currency of the tables, where there is one.
    pub usd: Option<TickerQuote>,
}

/// Price data of a coin in one currency, as the texts that show it.
#[derive(Debug)]
pub struct TickerQuote {
    pub price: Option<String>,
    pub volume_24h: Option<String>,
    pub market_cap: Option<String>,
    pub percent_change_1h: Option<String>,
    pub percent_change_24h: Option<String>,
    pub percent_change_7d: Option<String>,
    pub percent_change_30d: Option<String>,
    pub ath_price: Option<String>,
    pub ath_date: Option<String>,
    pub percent_from_price_ath: Option<String>,
}

/// Price data of a coin at one moment, as the texts that show it.
#[derive(Debug)]
pub struct TickerHistoryPoint {
    pub timestamp: Option<String>,
    pub price: Option<String>,
    pub volume_24h: Option<String>,
    pub market_cap: Option<String>,
}

/// Prices of all coins in the given quote currencies; the API itself keeps
/// to `limit`.
pub open spec fn list_endpoint(limit: usize, quotes: Seq<char>) -> EndpointView {
    EndpointView {
        path: "/tickers"@,
        params: seq![("quotes"@, quotes), ("limit"@, decimal(limit as nat))],
        entity_path: "/tickers"@,
        keep: None,
    }
}

/// The first step of the command: the request that `list_endpoint` describes.
pub fn execute_list(limit: usize, quotes: &str) -> (e: Endpoint)
    ensures
        e@ == list_endpoint(limit, quotes@),
{
    let mut params = no_params();
    push_param(&mut params, "quotes", quotes);
    push_number_param(&mut params, "limit", limit);
    let e = Endpoint {
        path: owned("/tickers"),
        params,
        entity_path: owned("/tickers"),
        keep: None,
    };
    proof {
        assert(e@.params =~= list_endpoint(limit, quotes@).params);
    }
    e
}

/// The price of one coin in the given quote currencies.
pub open spec fn detail_endpoint(coin_id: Seq<char>, quotes: Seq<char>) -> EndpointView {
    EndpointView {
        path: "/tickers/"@ + coin_id,
        params: seq![("quotes"@, quotes)],
        entity_path: "/coin/"@ + coin_id,
        keep: None,
    }
}

/// The first step of the command: the request that `detail_endpoint` describes.
pub fn execute_detail(coin_id: &str, quotes: &str) -> (e: Endpoint)
    ensures
        e@ == detail_endpoint(coin_id@, quotes@),
{
    let mut params = no_params();
    push_param(&mut params, "quotes", quotes);
    let e = Endpoint {
        path: path_with("/tickers/", coin_id),
        params,
        entity_path: path_with("/coin/", coin_id),
        keep: None,
    };
    proof {
        assert(e@.params =~= detail_endpoint(coin_id@, quotes@).params);
    }
    e
}

/// Past prices of one coin from `start` on, to `end` where one is given.
pub open spec fn history_endpoint(
    coin_id: Seq<char>,
    start: Seq<char>,
    end: Option<Seq<char>>,
    interval: Seq<char>,
    limit: usize,
    quote: Seq<char>,
) -> EndpointView {
    EndpointView {
        path: "/tickers/"@ + coin_id + "/historical"@,
        params: {
            let fixed = seq![
                ("start"@, start),
                ("interval"@, interval),
                ("limit"@, decimal(limit as nat)),
                ("quote"@, quote),
            ];
            match end {
                Some(e) => fixed.push(("end"@, e)),
                None => fixed,
            }
        },
        entity_path: "/coin/"@ + coin_id,
        keep: None,
    }
}

/// The first step of the command: the request that `history_endpoint` describes.
pub fn execute_history(
    coin_id: &str,
    start: &str,
    end: Option<&str>,
    interval: &str,
    limit: usize,
    quote: &str,
) -> (e: Endpoint)
    ensures
        e@ == history_endpoint(coin_id@, start@, end.deep_view(), interval@, limit, quote@),
{
    let mut params = no_params();
    push_param(&mut params, "start", start);
    push_param(&mut params, "interval", interval);
    push_number_param(&mut params, "limit", limit);
    push_param(&mut params, "quote", quote);
    push_optional_param(&mut params, "end", end);
    let e = Endpoint {
        path: path_of("/tickers/", coin_id, "/historical"),
        params,
        entity_path: path_with("/coin/", coin_id),
        keep: None,
    };
    proof {
        assert(e@.params =~= history_endpoint(
            coin_id@,
            start@,
            end.deep_view(),
            interval@,
            limit,
            quote@,
        ).params);
    }
    e
}

} // verus!
