//! From a command to what has to be done for it: a request to the API, or
//! work that stays on this machine.

use vstd::prelude::*;
use vstd::string::*;
use crate::commands::api_management;
use crate::commands::coins;
use crate::commands::config::ConfigCommand;
use crate::commands::contracts;
use crate::commands::convert;
use crate::commands::exchanges;
use crate::commands::global;
use crate::commands::ohlcv;
use crate::commands::people;
use crate::commands::search;
use crate::commands::status;
use crate::commands::tags;
use crate::commands::tickers;
use crate::commands::{Endpoint, EndpointView};

verus! {

/// A command with its arguments, as the user gave it.
#[derive(Debug)]
pub enum Command {
    Global,
    Coins { limit: usize },
    Coin { coin_id: String },
    CoinEvents { coin_id: String, limit: usize },
    CoinExchanges { coin_id: String, limit: usize },
    CoinMarkets { coin_id: String, quotes: String, limit: usize },
    Tickers { limit: usize, quotes: String },
    Ticker { coin_id: String, quotes: String },
    TickerHistory {
        coin_id: String,
        start: String,
        end: Option<String>,
        interval: String,
        limit: usize,
        quote: String,
    },
    Ohlcv {
        coin_id: String,
        start: String,
        end: Option<String>,
        interval: String,
        limit: usize,
        quote: String,
    },
    OhlcvLatest { coin_id: String, quote: String },
    OhlcvToday { coin_id: String, quote: String },
    Exchanges { limit: usize, quotes: String },
    Exchange { exchange_id: String, quotes: String },
    ExchangeMarkets { exchange_id: String, limit: usize, quotes: String },
    Tags { limit: usize },
    Tag { tag_id: String },
    Person { person_id: String },
    Search { query: String, categories: Option<String>, limit: usize, modifier: Option<String> },
    /// The amount is the decimal text that is sent to the API.
    Convert { base_id: String, quote_id: String, amount: String },
    Platforms,
    Contracts { platform_id: String, limit: usize },
    ContractTicker { platform_id: String, address: String },
    ContractHistory {
        platform_id: String,
        address: String,
        start: String,
        end: Option<String>,
        interval: String,
        limit: usize,
    },
    KeyInfo,
    Mappings,
    Changelog { limit: usize, page: usize },
    Config(ConfigCommand),
    Status,
    Attribution,
    Shell,
    Plans,
    Onboard { key: Option<String> },
}

/// The shape of what an endpoint answers, which decides how the answer is
/// decoded and shown.
#[derive(Clone, Copy, Debug, PartialEq, Eq, Structural)]
pub enum Shape {
    Global,
    Coins,
    Coin,
    CoinEvents,
    CoinExchanges,
    CoinMarkets,
    Tickers,
    Ticker,
    TickerHistory,
    Ohlcv,
    Exchanges,
    Exchange,
    ExchangeMarkets,
    Tags,
    Tag,
    Person,
    Search,
    Convert,
    Platforms,
    Contracts,
    ContractTicker,
    ContractHistory,
    KeyInfo,
    Mappings,
    Changelog,
    Status,
}

/// What has to be done for a command.
#[derive(Debug)]
pub enum Plan {
    /// Ask the API, then decode and show the answer by its shape.
    Fetch { endpoint: Endpoint, shape: Shape },
    /// Nothing is asked: the command fails with this message.
    Fail(String),
    /// Work on the stored configuration.
    Config(ConfigCommand),
    /// Show the attribution snippets.
    Attribution,
    /// Run the interactive shell.
    Shell,
    /// Show the plans.
    Plans,
    /// Run the setup wizard.
    Onboard { key: Option<String> },
}

/// The request that goes with a command and the shape of its answer;
/// `None` for a command that asks nothing of the API.
pub open spec fn request_of(command: Command) -> Option<(EndpointView, Shape)> {
    match command {
        Command::Global => Some((global::overview_endpoint(), Shape::Global)),
        Command::Coins { limit } => Some((coins::list_endpoint(limit), Shape::Coins)),
        Command::Coin { coin_id } => Some((coins::detail_endpoint(coin_id@), Shape::Coin)),
        Command::CoinEvents { coin_id, limit } => Some(
            (coins::events_endpoint(coin_id@, limit), Shape::CoinEvents),
        ),
        Command::CoinExchanges { coin_id, limit } => Some(
            (coins::exchanges_endpoint(coin_id@, limit), Shape::CoinExchanges),
        ),
        Command::CoinMarkets { coin_id, quotes, limit } => Some(
            (coins::markets_endpoint(coin_id@, quotes@, limit), Shape::CoinMarkets),
        ),
        Command::Tickers { limit, quotes } => Some(
            (tickers::list_endpoint(limit, quotes@), Shape::Tickers),
        ),
        Command::Ticker { coin_id, quotes } => Some(
            (tickers::detail_endpoint(coin_id@, quotes@), Shape::Ticker),
        ),
        Command::TickerHistory { coin_id, start, end, interval, limit, quote } => Some(
            (
                tickers::history_endpoint(
                    coin_id@,
                    start@,
                    end.deep_view(),
                    interval@,
                    limit,
                    quote@,
                ),
                Shape::TickerHistory,
            ),
        ),
        Command::Ohlcv { coin_id, start, end, interval, limit, quote } => Some(
            (
                ohlcv::historical_endpoint(
                    coin_id@,
                    start@,
                    end.deep_view(),
                    interval@,
                    limit,
                    quote@,
                ),
                Shape::Ohlcv,
            ),
        ),
        Command::OhlcvLatest { coin_id, quote } => Some(
            (ohlcv::latest_endpoint(coin_id@, quote@), Shape::Ohlcv),
        ),
        Command::OhlcvToday { coin_id, quote } => Some(
            (ohlcv::today_endpoint(coin_id@, quote@), Shape::Ohlcv),
        ),
        Command::Exchanges { limit, quotes } => Some(
            (exchanges::list_endpoint(limit, quotes@), Shape::Exchanges),
        ),
        Command::Exchange { exchange_id, quotes } => Some(
            (exchanges::detail_endpoint(exchange_id@, quotes@), Shape::Exchange),
        ),
        Command::ExchangeMarkets { exchange_id, limit, quotes } => Some(
            (exchanges::markets_endpoint(exchange_id@, limit, quotes@), Shape::ExchangeMarkets),
        ),
        Command::Tags { limit } => Some((tags::list_endpoint(limit), Shape::Tags)),
        Command::Tag { tag_id } => Some((tags::detail_endpoint(tag_id@), Shape::Tag)),
        Command::Person { person_id } => Some(
            (people::detail_endpoint(person_id@), Shape::Person),
        ),
        Command::Search { query, categories, limit, modifier } => Some(
            (
                search::search_endpoint(
                    query@,
                    categories.deep_view(),
                    limit,
                    modifier.deep_view(),
                ),
                Shape::Search,
            ),
        ),
        Command::Convert { base_id, quote_id, amount } => Some(
            (convert::convert_endpoint(base_id@, quote_id@, amount@), Shape::Convert),
        ),
        Command::Platforms => Some((contracts::platforms_endpoint(), Shape::Platforms)),
        Command::Contracts { platform_id, limit } => Some(
            (contracts::contracts_endpoint(platform_id@, limit), Shape::Contracts),
        ),
        Command::ContractTicker { platform_id, address } => Some(
            (contracts::ticker_endpoint(platform_id@, address@), Shape::ContractTicker),
        ),
        Command::ContractHistory { platform_id, address, start, end, interval, limit } => Some(
            (
                contracts::history_endpoint(
                    platform_id@,
                    address@,
                    start@,
                    end.deep_view(),
                    interval@,
                    limit,
                ),
                Shape::ContractHistory,
            ),
        ),
        Command::KeyInfo => Some((api_management::key_info_endpoint(), Shape::KeyInfo)),
        Command::Mappings => Some((api_management::mappings_endpoint(), Shape::Mappings)),
        Command::Changelog { limit, page } => Some(
            (api_management::changelog_endpoint(limit, page), Shape::Changelog),
        ),
        Command::Status => Some((status::probe_endpoint(), Shape::Status)),
        Command::Config(_) => None,
        Command::Attribution => None,
        Command::Shell => None,
        Command::Plans => None,
        Command::Onboard { .. } => None,
    }
}

/// Whether `plan` is what has to be done for `command` with or without an
/// API key: the record of the key is only asked for where there is a key;
/// every other command that needs the API asks its endpoint; the rest is
/// handed on as it came.
pub open spec fn plan_matches(command: Command, has_key: bool, plan: Plan) -> bool {
    match request_of(command) {
        Some((view, shape)) => if command is KeyInfo && !has_key {
            plan matches Plan::Fail(text) && text@ == api_management::NO_KEY_TEXT@
        } else {
            plan matches Plan::Fetch { endpoint, shape: decoded } && endpoint@ == view && decoded
                == shape
        },
        None => match command {
            Command::Config(cmd) => plan == Plan::Config(cmd),
            Command::Attribution => plan is Attribution,
            Command::Shell => plan is Shell,
            Command::Plans => plan is Plans,
            Command::Onboard { key } => plan == (Plan::Onboard { key }),
            _ => false,
        },
    }
}

fn as_text(value: &Option<String>) -> (r: Option<&str>)
    ensures
        r.deep_view() == value.deep_view(),
{
    match value {
        Some(text) => Some(text.as_str()),
        None => None,
    }
}

/// Decides what has to be done for a command.
pub fn plan(command: Command, has_key: bool) -> (r: Plan)
    ensures
        plan_matches(command, has_key, r),
{
    match command {
        Command::Global => Plan::Fetch { endpoint: global::execute(), shape: Shape::Global },
        Command::Coins { limit } => Plan::Fetch {
            endpoint: coins::execute_list(limit),
            shape: Shape::Coins,
        },
        Command::Coin { coin_id } => Plan::Fetch {
            endpoint: coins::execute_detail(coin_id.as_str()),
            shape: Shape::Coin,
        },
        Command::CoinEvents { coin_id, limit } => Plan::Fetch {
            endpoint: coins::execute_events(coin_id.as_str(), limit),
            shape: Shape::CoinEvents,
        },
        Command::CoinExchanges { coin_id, limit } => Plan::Fetch {
            endpoint: coins::execute_exchanges(coin_id.as_str(), limit),
            shape: Shape::CoinExchanges,
        },
        Command::CoinMarkets { coin_id, quotes, limit } => Plan::Fetch {
            endpoint: coins::execute_markets(coin_id.as_str(), quotes.as_str(), limit),
            shape: Shape::CoinMarkets,
        },
        Command::Tickers { limit, quotes } => Plan::Fetch {
            endpoint: tickers::execute_list(limit, quotes.as_str()),
            shape: Shape::Tickers,
        },
        Command::Ticker { coin_id, quotes } => Plan::Fetch {
            endpoint: tickers::execute_detail(coin_id.as_str(), quotes.as_str()),
            shape: Shape::Ticker,
        },
        Command::TickerHistory { coin_id, start, end, interval, limit, quote } => Plan::Fetch {
            endpoint: tickers::execute_history(
                coin_id.as_str(),
                start.as_str(),
                as_text(&end),
                interval.as_str(),
                limit,
                quote.as_str(),
            ),
            shape: Shape::TickerHistory,
        },
        Command::Ohlcv { coin_id, start, end, interval, limit, quote } => Plan::Fetch {
            endpoint: ohlcv::execute_historical(
                coin_id.as_str(),
                start.as_str(),
                as_text(&end),
                interval.as_str(),
                limit,
                quote.as_str(),
            ),
            shape: Shape::Ohlcv,
        },
        Command::OhlcvLatest { coin_id, quote } => Plan::Fetch {
            endpoint: ohlcv::execute_latest(coin_id.as_str(), quote.as_str()),
            shape: Shape::Ohlcv,
        },
        Command::OhlcvToday { coin_id, quote } => Plan::Fetch {
            endpoint: ohlcv::execute_today(coin_id.as_str(), quote.as_str()),
            shape: Shape::Ohlcv,
        },
        Command::Exchanges { limit, quotes } => Plan::Fetch {
            endpoint: exchanges::execute_list(limit, quotes.as_str()),
            shape: Shape::Exchanges,
        },
        Command::Exchange { exchange_id, quotes } => Plan::Fetch {
            endpoint: exchanges::execute_detail(exchange_id.as_str(), quotes.as_str()),
            shape: Shape::Exchange,
        },
        Command::ExchangeMarkets { exchange_id, limit, quotes } => Plan::Fetch {
            endpoint: exchanges::execute_markets(exchange_id.as_str(), limit, quotes.as_str()),
            shape: Shape::ExchangeMarkets,
        },
        Command::Tags { limit } => Plan::Fetch {
            endpoint: tags::execute_list(limit),
            shape: Shape::Tags,
        },
        Command::Tag { tag_id } => Plan::Fetch {
            endpoint: tags::execute_detail(tag_id.as_str()),
            shape: Shape::Tag,
        },
        Command::Person { person_id } => Plan::Fetch {
            endpoint: people::execute(person_id.as_str()),
            shape: Shape::Person,
        },
        Command::Search { query, categories, limit, modifier } => Plan::Fetch {
            endpoint: search::execute(
                query.as_str(),
                as_text(&categories),
                limit,
                as_text(&modifier),
            ),
            shape: Shape::Search,
        },
        Command::Convert { base_id, quote_id, amount } => Plan::Fetch {
            endpoint: convert::execute(base_id.as_str(), quote_id.as_str(), amount.as_str()),
            shape: Shape::Convert,
        },
        Command::Platforms => Plan::Fetch {
            endpoint: contracts::execute_platforms(),
            shape: Shape::Platforms,
        },
        Command::Contracts { platform_id, limit } => Plan::Fetch {
            endpoint: contracts::execute_contracts(platform_id.as_str(), limit),
            shape: Shape::Contracts,
        },
        Command::ContractTicker { platform_id, address } => Plan::Fetch {
            endpoint: contracts::execute_ticker(platform_id.as_str(), address.as_str()),
            shape: Shape::ContractTicker,
        },
        Command::ContractHistory { platform_id, address, start, end, interval, limit } => {
            Plan::Fetch {
                endpoint: contracts::execute_history(
                    platform_id.as_str(),
                    address.as_str(),
                    start.as_str(),
                    as_text(&end),
                    interval.as_str(),
                    limit,
                ),
                shape: Shape::ContractHistory,
            }
        },
        Command::KeyInfo => match api_management::execute_key_info(has_key) {
            Ok(endpoint) => Plan::Fetch { endpoint, shape: Shape::KeyInfo },
            Err(text) => Plan::Fail(text),
        },
        Command::Mappings => Plan::Fetch {
            endpoint: api_management::execute_mappings(),
            shape: Shape::Mappings,
        },
        Command::Changelog { limit, page } => Plan::Fetch {
            endpoint: api_management::execute_changelog(limit, page),
            shape: Shape::Changelog,
        },
        Command::Status => Plan::Fetch { endpoint: status::execute(), shape: Shape::Status },
        Command::Config(cmd) => Plan::Config(cmd),
        Command::Attribution => Plan::Attribution,
        Command::Shell => Plan::Shell,
        Command::Plans => Plan::Plans,
        Command::Onboard { key } => Plan::Onboard { key },
    }
}

} // verus!
