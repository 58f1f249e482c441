//! Coins: the list, one coin in detail, and its events.

use vstd::prelude::*;
use vstd::string::*;
use crate::commands::{no_params, path_of, path_with, push_param, Endpoint, EndpointView};
use crate::text::owned;

verus! {

/// A coin as the list of all coins describes it.
#[derive(Debug)]
pub struct CoinListItem {
    pub id: String,
    pub name: String,
    pub symbol: String,
    pub rank: Option<i64>,
    pub is_new: Option<bool>,
    pub is_active: Option<bool>,
    pub coin_type: Option<String>,
}

/// A coin in detail, as far as the tables show it.
#[derive(Debug)]
pub struct CoinDetail {
    pub id: String,
    pub name: String,
    pub symbol: String,
    pub rank: Option<i64>,
    pub is_new: Option<bool>,
    pub is_active: Option<bool>,
    pub coin_type: Option<String>,
    pub logo: Option<String>,
    pub description: Option<String>,
    pub open_source: Option<bool>,
    pub started_at: Option<String>,
    pub development_status: Option<String>,
    pub hardware_wallet: Option<bool>,
    pub proof_type: Option<String>,
    pub org_structure: Option<String>,
    pub hash_algorithm: Option<String>,
    pub tags: Option<Vec<CoinTag>>,
    pub team: Option<Vec<TeamMember>>,
    pub whitepaper: Option<Whitepaper>,
    pub first_data_at: Option<String>,
    pub last_data_at: Option<String>,
}

/// A tag as it appears on a coin.
#[derive(Debug)]
pub struct CoinTag {
    pub id: String,
    pub name: String,
    pub coin_counter: Option<i64>,
    pub ico_counter: Option<i64>,
}

/// A member of a coin's team.
#[derive(Debug)]
pub struct TeamMember {
    pub id: String,
    pub name: String,
    pub position: Option<String>,
}

/// Where a coin's whitepaper is found.
#[derive(Debug)]
pub struct Whitepaper {
    pub link: Option<String>,
    pub thumbnail: Option<String>,
}

/// An event in the life of a coin.
#[derive(Debug)]
pub struct CoinEvent {
    pub id: Option<String>,
    pub date: Option<String>,
    pub date_to: Option<String>,
    pub name: Option<String>,
    pub description: Option<String>,
    pub is_conference: Option<bool>,
    pub link: Option<String>,
    pub proof_image_link: Option<String>,
}

/// An exchange that trades a coin. Quantities are held as the texts that
/// show them.
#[derive(Debug)]
pub struct CoinExchange {
    pub id: String,
    pub name: String,
    pub adjusted_volume_24h_share: Option<String>,
    pub fiats: Option<Vec<FiatCurrency>>,
}

/// A market on which a coin is traded. Quantities are held as the texts
/// that show them.
#[derive(Debug)]
pub struct CoinMarket {
    pub exchange_id: Option<String>,
    pub exchange_name: Option<String>,
    pub pair: Option<String>,
    pub base_currency_id: Option<String>,
    pub base_currency_name: Option<String>,
    pub quote_currency_id: Option<String>,
    pub quote_currency_name: Option<String>,
    pub market_url: Option<String>,
    pub category: Option<String>,
    pub fee_type: Option<String>,
    pub outlier: Option<bool>,
    pub adjusted_volume_24h_share: Option<String>,
    /// The quote in the currency of the tables, where there is one.
    pub usd: Option<MarketQuote>,
    pub trust_score: Option<String>,
    pub last_updated: Option<String>,
}

/// Price and volume on a market in one currency, as the texts that show
/// them.
#[derive(Debug)]
pub struct MarketQuote {
    pub price: Option<String>,
    pub volume_24h: Option<String>,
}

/// A fiat currency that an exchange trades a coin against.
#[derive(Debug)]
pub struct FiatCurrency {
    pub name: Option<String>,
    pub symbol: Option<String>,
}

/// The list of all coins, of which the first `limit` are kept.
pub open spec fn list_endpoint(limit: usize) -> EndpointView {
    EndpointView {
        path: "/coins"@,
        params: seq![],
        entity_path: "/coins"@,
        keep: Some(limit),
    }
}

/// The first step of the command: the request that `list_endpoint` describes.
pub fn execute_list(limit: usize) -> (e: Endpoint)
    ensures
        e@ == list_endpoint(limit),
{
    let params = no_params();
    let e = Endpoint {
        path: owned("/coins"),
        params,
        entity_path: owned("/coins"),
        keep: Some(limit),
    };
    proof {
        assert(e@.params =~= list_endpoint(limit).params);
    }
    e
}

/// One coin in detail.
pub open spec fn detail_endpoint(coin_id: Seq<char>) -> EndpointView {
    EndpointView {
        path: "/coins/"@ + coin_id,
        params: seq![],
        entity_path: "/coin/"@ + coin_id,
        keep: None,
    }
}

/// The first step of the command: the request that `detail_endpoint` describes.
pub fn execute_detail(coin_id: &str) -> (e: Endpoint)
    ensures
        e@ == detail_endpoint(coin_id@),
{
    let params = no_params();
    let e = Endpoint {
        path: path_with("/coins/", coin_id),
        params,
        entity_path: path_with("/coin/", coin_id),
        keep: None,
    };
    proof {
        assert(e@.params =~= detail_endpoint(coin_id@).params);
    }
    e
}

/// The events of a coin, of which the first `limit` are kept.
pub open spec fn events_endpoint(coin_id: Seq<char>, limit: usize) -> EndpointView {
    EndpointView {
        path: "/coins/"@ + coin_id + "/events"@,
        params: seq![],
        entity_path: "/coin/"@ + coin_id,
        keep: Some(limit),
    }
}

/// The first step of the command: the request that `events_endpoint` describes.
pub fn execute_events(coin_id: &str, limit: usize) -> (e: Endpoint)
    ensures
        e@ == events_endpoint(coin_id@, limit),
{
    let params = no_params();
    let e = Endpoint {
        path: path_of("/coins/", coin_id, "/events"),
        params,
        entity_path: path_with("/coin/", coin_id),
        keep: Some(limit),
    };
    proof {
        assert(e@.params =~= events_endpoint(coin_id@, limit).params);
    }
    e
}

/// The exchanges that trade a coin, of which the first `limit` are kept.
pub open spec fn exchanges_endpoint(coin_id: Seq<char>, limit: usize) -> EndpointView {
    EndpointView {
        path: "/coins/"@ + coin_id + "/exchanges"@,
        params: seq![],
        entity_path: "/coin/"@ + coin_id,
        keep: Some(limit),
    }
}

/// The first step of the command: the request that `exchanges_endpoint` describes.
pub fn execute_exchanges(coin_id: &str, limit: usize) -> (e: Endpoint)
    ensures
        e@ == exchanges_endpoint(coin_id@, limit),
{
    let params = no_params();
    let e = Endpoint {
        path: path_of("/coins/", coin_id, "/exchanges"),
        params,
        entity_path: path_with("/coin/", coin_id),
        keep: Some(limit),
    };
    proof {
        assert(e@.params =~= exchanges_endpoint(coin_id@, limit).params);
    }
    e
}

/// The markets of a coin in the given quote currencies, of which the first
/// `limit` are kept.
pub open spec fn markets_endpoint(
    coin_id: Seq<char>,
    quotes: Seq<char>,
    limit: usize,
) -> EndpointView {
    EndpointView {
        path: "/coins/"@ + coin_id + "/markets"@,
        params: seq![("quotes"@, quotes)],
        entity_path: "/coin/"@ + coin_id,
        keep: Some(limit),
    }
}

/// The first step of the command: the request that `markets_endpoint` describes.
pub fn execute_markets(coin_id: &str, quotes: &str, limit: usize) -> (e: Endpoint)
    ensures
        e@ == markets_endpoint(coin_id@, quotes@, limit),
{
    let mut params = no_params();
    push_param(&mut params, "quotes", quotes);
    let e = Endpoint {
        path: path_of("/coins/", coin_id, "/markets"),
        params,
        entity_path: path_with("/coin/", coin_id),
        keep: Some(limit),
    };
    proof {
        assert(e@.params =~= markets_endpoint(coin_id@, quotes@, limit).params);
    }
    e
}

} // verus!
