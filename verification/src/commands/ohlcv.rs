//! Candles: open, high, low, close and volume.

use vstd::prelude::*;
use vstd::string::*;
use crate::commands::{
    no_params, path_of, path_with, push_number_param, push_optional_param, push_param, Endpoint,
    EndpointView,
};
use crate::text::decimal;

verus! {

/// One candle. Quantities are held as the texts that show them.
#[derive(Debug)]
pub struct OhlcvData {
    pub time_open: Option<String>,
    pub time_close: Option<String>,
    pub open: Option<String>,
    pub high: Option<String>,
    pub low: Option<String>,
    pub close: Option<String>,
    pub volume: Option<String>,
    pub market_cap: Option<String>,
}

/// Candles of one coin from `start` on, to `end` where one is given.
pub open spec fn historical_endpoint(
    coin_id: Seq<char>,
    start: Seq<char>,
    end: Option<Seq<char>>,
    interval: Seq<char>,
    limit: usize,
    quote: Seq<char>,
) -> EndpointView {
    EndpointView {
        path: "/coins/"@ + coin_id + "/ohlcv/historical"@,
        params: {
            let fixed = seq![
                ("start"@, start),
                ("interval"@, interval),
                ("limit"@, decimal(limit as nat)),
                ("quote"@, quote),
            ];
            match end {
                Some(e) => fixed.push(("end"@, e)),
                None => fixed,
            }
        },
        entity_path: "/coin/"@ + coin_id,
        keep: None,
    }
}

/// The first step of the command: the request that `historical_endpoint` describes.
pub fn execute_historical(
    coin_id: &str,
    start: &str,
    end: Option<&str>,
    interval: &str,
    limit: usize,
    quote: &str,
) -> (e: Endpoint)
    ensures
        e@ == historical_endpoint(coin_id@, start@, end.deep_view(), interval@, limit, quote@),
{
    let mut params = no_params();
    push_param(&mut params, "start", start);
    push_param(&mut params, "interval", interval);
    push_number_param(&mut params, "limit", limit);
    push_param(&mut params, "quote", quote);
    push_optional_param(&mut params, "end", end);
    let e = Endpoint {
        path: path_of("/coins/", coin_id, "/ohlcv/historical"),
        params,
        entity_path: path_with("/coin/", coin_id),
        keep: None,
    };
    proof {
        assert(e@.params =~= historical_endpoint(
            coin_id@,
            start@,
            end.deep_view(),
            interval@,
            limit,
            quote@,
        ).params);
    }
    e
}

/// The candle of the last full day.
pub open spec fn latest_endpoint(coin_id: Seq<char>, quote: Seq<char>) -> EndpointView {
    EndpointView {
        path: "/coins/"@ + coin_id + "/ohlcv/latest"@,
        params: seq![("quote"@, quote)],
        entity_path: "/coin/"@ + coin_id,
        keep: None,
    }
}

/// The first step of the command: the request that `latest_endpoint` describes.
pub fn execute_latest(coin_id: &str, quote: &str) -> (e: Endpoint)
    ensures
        e@ == latest_endpoint(coin_id@, quote@),
{
    let mut params = no_params();
    push_param(&mut params, "quote", quote);
    let e = Endpoint {
        path: path_of("/coins/", coin_id, "/ohlcv/latest"),
        params,
        entity_path: path_with("/coin/", coin_id),
        keep: None,
    };
    proof {
        assert(e@.params =~= latest_endpoint(coin_id@, quote@).params);
    }
    e
}

/// The candle of the day that is still running.
pub open spec fn today_endpoint(coin_id: Seq<char>, quote: Seq<char>) -> EndpointView {
    EndpointView {
        path: "/coins/"@ + coin_id + "/ohlcv/today"@,
        params: seq![("quote"@, quote)],
        entity_path: "/coin/"@ + coin_id,
        keep: None,
    }
}

/// The first step of the command: the request that `today_endpoint` describes.
pub fn execute_today(coin_id: &str, quote: &str) -> (e: Endpoint)
    ensures
        e@ == today_endpoint(coin_id@, quote@),
{
    let mut params = no_params();
    push_param(&mut params, "quote", quote);
    let e = Endpoint {
        path: path_of("/coins/", coin_id, "/ohlcv/today"),
        params,
        entity_path: path_with("/coin/", coin_id),
        keep: None,
    };
    proof {
        assert(e@.params =~= today_endpoint(coin_id@, quote@).params);
    }
    e
}

} // verus!
