use coinpaprika_cli::commands::coins::{CoinExchange, CoinMarket, MarketQuote};
use coinpaprika_cli::commands::contracts::{ContractHistoryPoint, ContractQuote, ContractTicker};
use coinpaprika_cli::commands::convert::ConvertResult;
use coinpaprika_cli::commands::exchanges::{
    Exchange, ExchangeMarket, ExchangeMarketQuote, ExchangeQuote,
};
use coinpaprika_cli::commands::global::GlobalData;
use coinpaprika_cli::commands::ohlcv::OhlcvData;
use coinpaprika_cli::commands::tickers::{Ticker, TickerHistoryPoint, TickerQuote};
use coinpaprika_cli::commands::TABLE_QUOTE;
use coinpaprika_cli::output::coins::{print_coin_exchanges_table, print_markets_table};
use coinpaprika_cli::output::contracts::{print_contract_history, print_contract_ticker};
use coinpaprika_cli::output::convert::print_convert_result;
use coinpaprika_cli::output::exchanges::{
    print_exchange_detail, print_exchange_markets_table, print_exchanges_table,
};
use coinpaprika_cli::output::global::print_global;
use coinpaprika_cli::output::ohlcv::print_ohlcv_table;
use coinpaprika_cli::output::tickers::{
    print_history_table, print_ticker_detail, print_tickers_table,
};

const FOOTER: &str = "\n Data: CoinPaprika (coinpaprika.com) \u{b7} Free API: api.coinpaprika.com\n";
const DASH: &str = "\u{2014}";

fn t(text: &str) -> Option<String> {
    Some(text.to_string())
}

fn row(cells: &[&str]) -> Vec<String> {
    cells.iter().map(|c| c.to_string()).collect()
}

fn rounded(rows: Vec<Vec<String>>) -> String {
    tabled::Table::from_iter(rows).with(tabled::settings::Style::rounded()).to_string()
}

fn detail(rows: Vec<[&str; 2]>) -> String {
    tabled::Table::from_iter(rows)
        .with(tabled::settings::Style::rounded())
        .with(
            tabled::settings::Modify::new(tabled::settings::object::Columns::first())
                .with(tabled::settings::Width::wrap(20)),
        )
        .with(
            tabled::settings::Modify::new(tabled::settings::object::Columns::last())
                .with(tabled::settings::Width::wrap(80)),
        )
        .to_string()
}

fn quote() -> TickerQuote {
    TickerQuote {
        price: t("$97234.56"),
        volume_24h: t("$35.2B"),
        market_cap: t("$1.9T"),
        percent_change_1h: t("+0.10%"),
        percent_change_24h: t("-1.23%"),
        percent_change_7d: None,
        percent_change_30d: t("+12.00%"),
        ath_price: t("$108000.00"),
        ath_date: t("2025-01-20"),
        percent_from_price_ath: t("-9.97%"),
    }
}

fn ticker(usd: Option<TickerQuote>) -> Ticker {
    Ticker {
        id: "btc-bitcoin".to_string(),
        name: "Bitcoin, the first of them all".to_string(),
        symbol: "BTC".to_string(),
        rank: Some(1),
        circulating_supply: t("19.8M"),
        total_supply: t("19.8M"),
        max_supply: None,
        first_data_at: None,
        last_updated: t("2025-02-01T00:00:00Z"),
        usd,
    }
}

#[test]
fn the_tables_show_dollars() {
    assert_eq!(TABLE_QUOTE, "USD");
}

#[test]
fn tickers_table_rows() {
    let text = print_tickers_table(&vec![ticker(Some(quote())), ticker(None)]);
    let expected = rounded(vec![
        row(&["Rank", "Symbol", "Name", "Price", "24h Change", "Market Cap", "Volume (24h)"]),
        row(&["1", "BTC", "Bitcoin, the first \u{2026}", "$97234.56", "-1.23%", "$1.9T", "$35.2B"]),
        row(&["1", "BTC", "Bitcoin, the first \u{2026}", DASH, DASH, DASH, DASH]),
    ]);
    assert_eq!(text, format!("{}\n{}", expected, FOOTER));
}

#[test]
fn ticker_detail_rows() {
    let expected = detail(vec![
        ["Name", "Bitcoin, the first of them all"],
        ["Symbol", "BTC"],
        ["Rank", "1"],
        ["Price (USD)", "$97234.56"],
        ["Market Cap", "$1.9T"],
        ["Volume (24h)", "$35.2B"],
        ["Change (1h)", "+0.10%"],
        ["Change (24h)", "-1.23%"],
        ["Change (7d)", DASH],
        ["Change (30d)", "+12.00%"],
        ["ATH Price", "$108000.00"],
        ["ATH Date", "2025-01-20"],
        ["% From ATH", "-9.97%"],
        ["Circulating Supply", "19.8M"],
        ["Total Supply", "19.8M"],
        ["Max Supply", DASH],
        ["Last Updated", "2025-02-01T00:00:00Z"],
    ]);
    assert_eq!(print_ticker_detail(&ticker(Some(quote()))), format!("{}\n{}", expected, FOOTER));
    let expected = detail(vec![
        ["Name", "Bitcoin, the first of them all"],
        ["Symbol", "BTC"],
        ["Rank", "1"],
        ["Circulating Supply", "19.8M"],
        ["Total Supply", "19.8M"],
        ["Max Supply", DASH],
        ["Last Updated", "2025-02-01T00:00:00Z"],
    ]);
    assert_eq!(print_ticker_detail(&ticker(None)), format!("{}\n{}", expected, FOOTER));
}

#[test]
fn history_table_rows() {
    let points = vec![
        TickerHistoryPoint {
            timestamp: t("2024-01-01T00:00:00Z"),
            price: t("$42000.00"),
            volume_24h: t("$20.0B"),
            market_cap: None,
        },
    ];
    let expected = rounded(vec![
        row(&["Timestamp", "Price", "Volume (24h)", "Market Cap"]),
        row(&["2024-01-01T00:00:00Z", "$42000.00", "$20.0B", DASH]),
    ]);
    assert_eq!(print_history_table(&points), format!("{}\n{}", expected, FOOTER));
    let points = vec![
        ContractHistoryPoint {
            timestamp: None,
            price: t("$1.00"),
            volume_24h: None,
            market_cap: t("$80.0B"),
        },
    ];
    let expected = rounded(vec![
        row(&["Timestamp", "Price", "Volume (24h)", "Market Cap"]),
        row(&[DASH, "$1.00", DASH, "$80.0B"]),
    ]);
    assert_eq!(print_contract_history(&points), format!("{}\n{}", expected, FOOTER));
}

#[test]
fn global_rows() {
    let data = GlobalData {
        market_cap_usd: t("$3.2T"),
        volume_24h_usd: t("$120.5B"),
        bitcoin_dominance_percentage: t("58.1%"),
        cryptocurrencies_number: Some(8123),
        market_cap_ath_value: t("$3.7T"),
        market_cap_ath_date: t("2025-01-01"),
        volume_24h_ath_value: None,
        volume_24h_ath_date: None,
        volume_24h_percent_from_ath: None,
        volume_24h_percent_to_ath: None,
        market_cap_change_24h: t("+0.00%"),
        volume_24h_change_24h: None,
        last_updated: Some(1),
    };
    let expected = detail(vec![
        ["Market Cap", "$3.2T"],
        ["Volume (24h)", "$120.5B"],
        ["BTC Dominance", "58.1%"],
        ["Cryptocurrencies", "8123"],
        ["Market Cap ATH", "$3.7T"],
        ["Market Cap ATH Date", "2025-01-01"],
        ["Market Cap 24h Change", "+0.00%"],
        ["Volume 24h Change", DASH],
    ]);
    assert_eq!(print_global(&data), format!("{}\n{}", expected, FOOTER));
}

#[test]
fn candles_show_the_day_only() {
    let candle = |time_open: Option<String>| OhlcvData {
        time_open,
        time_close: None,
        open: t("$1.00"),
        high: t("$2.00"),
        low: t("$0.5000"),
        close: None,
        volume: t("$1.0K"),
        market_cap: None,
    };
    let data = vec![candle(t("2024-01-02T00:00:00Z")), candle(t("2024")), candle(None)];
    let expected = rounded(vec![
        row(&["Date", "Open", "High", "Low", "Close", "Volume"]),
        row(&["2024-01-02", "$1.00", "$2.00", "$0.5000", DASH, "$1.0K"]),
        row(&["2024", "$1.00", "$2.00", "$0.5000", DASH, "$1.0K"]),
        row(&[DASH, "$1.00", "$2.00", "$0.5000", DASH, "$1.0K"]),
    ]);
    assert_eq!(print_ohlcv_table(&data), format!("{}\n{}", expected, FOOTER));
}

fn exchange(usd: Option<ExchangeQuote>, description: Option<String>) -> Exchange {
    Exchange {
        id: "binance".to_string(),
        name: "Binance, the largest exchange there is".to_string(),
        description,
        active: Some(true),
        website_status: None,
        api_status: None,
        message: None,
        markets_data_fetched: None,
        adjusted_rank: Some(1),
        reported_rank: Some(2),
        currencies: Some(400),
        markets: None,
        usd,
        last_updated: t("2025-02-01"),
        confidence_score: t("0.96"),
    }
}

fn volumes() -> ExchangeQuote {
    ExchangeQuote {
        reported_volume_24h: t("$1.0B"),
        adjusted_volume_24h: t("$2.0B"),
        reported_volume_7d: t("$3.0B"),
        adjusted_volume_7d: t("$4.0B"),
        reported_volume_30d: t("$5.0B"),
        adjusted_volume_30d: None,
    }
}

#[test]
fn exchanges_table_rows() {
    let text = print_exchanges_table(&vec![exchange(Some(volumes()), None), exchange(None, None)]);
    let expected = rounded(vec![
        row(&["Rank", "Name", "Currencies", "Markets", "Volume (24h)", "Confidence"]),
        row(&["1", "Binance, the largest exc\u{2026}", "400", DASH, "$2.0B", "0.96"]),
        row(&["1", "Binance, the largest exc\u{2026}", "400", DASH, DASH, "0.96"]),
    ]);
    assert_eq!(text, format!("{}\n{}", expected, FOOTER));
}

#[test]
fn exchange_detail_rows() {
    let expected = detail(vec![
        ["Name", "Binance, the largest exchange there is"],
        ["ID", "binance"],
        ["Active", "Yes"],
        ["Rank (Adjusted)", "1"],
        ["Currencies", "400"],
        ["Markets", DASH],
        ["Confidence Score", "0.96"],
        ["Volume (24h)", "$2.0B"],
        ["Volume (7d)", "$4.0B"],
        ["Volume (30d)", DASH],
        ["Description", "Trades a lot"],
        ["Last Updated", "2025-02-01"],
    ]);
    assert_eq!(
        print_exchange_detail(&exchange(Some(volumes()), t("Trades a lot"))),
        format!("{}\n{}", expected, FOOTER)
    );
    let expected = detail(vec![
        ["Name", "Binance, the largest exchange there is"],
        ["ID", "binance"],
        ["Active", "Yes"],
        ["Rank (Adjusted)", "1"],
        ["Currencies", "400"],
        ["Markets", DASH],
        ["Confidence Score", "0.96"],
        ["Last Updated", "2025-02-01"],
    ]);
    assert_eq!(
        print_exchange_detail(&exchange(None, t(""))),
        format!("{}\n{}", expected, FOOTER)
    );
}

#[test]
fn exchange_markets_table_rows() {
    let market = |usd: Option<ExchangeMarketQuote>| ExchangeMarket {
        pair: t("BTC/USDT"),
        base_currency_id: None,
        base_currency_name: None,
        quote_currency_id: None,
        quote_currency_name: None,
        market_url: None,
        category: None,
        fee_type: None,
        outlier: None,
        reported_volume_24h_share: None,
        usd,
        trust_score: t("high"),
        last_updated: None,
    };
    let markets = vec![
        market(Some(ExchangeMarketQuote { price: t("$97000.00"), volume_24h: None })),
        market(None),
    ];
    let expected = rounded(vec![
        row(&["Pair", "Price", "Volume (24h)", "Trust"]),
        row(&["BTC/USDT", "$97000.00", DASH, "high"]),
        row(&["BTC/USDT", DASH, DASH, "high"]),
    ]);
    assert_eq!(print_exchange_markets_table(&markets), format!("{}\n{}", expected, FOOTER));
}

#[test]
fn coin_exchanges_and_markets_rows() {
    let exchanges = vec![
        CoinExchange {
            id: "binance".to_string(),
            name: "Binance".to_string(),
            adjusted_volume_24h_share: t("12.50%"),
            fiats: None,
        },
        CoinExchange {
            id: "kraken".to_string(),
            name: "Kraken".to_string(),
            adjusted_volume_24h_share: None,
            fiats: Some(Vec::new()),
        },
    ];
    let expected = rounded(vec![
        row(&["Exchange", "Volume Share (24h)"]),
        row(&["Binance", "12.50%"]),
        row(&["Kraken", DASH]),
    ]);
    assert_eq!(print_coin_exchanges_table(&exchanges), format!("{}\n{}", expected, FOOTER));

    let market = |usd: Option<MarketQuote>| CoinMarket {
        exchange_id: None,
        exchange_name: t("Binance"),
        pair: None,
        base_currency_id: None,
        base_currency_name: None,
        quote_currency_id: None,
        quote_currency_name: None,
        market_url: None,
        category: None,
        fee_type: None,
        outlier: None,
        adjusted_volume_24h_share: None,
        usd,
        trust_score: None,
        last_updated: None,
    };
    let markets = vec![
        market(Some(MarketQuote { price: None, volume_24h: t("$1.5M") })),
        market(None),
    ];
    let expected = rounded(vec![
        row(&["Exchange", "Pair", "Price", "Volume (24h)", "Trust"]),
        row(&["Binance", DASH, DASH, "$1.5M", DASH]),
        row(&["Binance", DASH, DASH, DASH, DASH]),
    ]);
    assert_eq!(print_markets_table(&markets), format!("{}\n{}", expected, FOOTER));
}

#[test]
fn contract_ticker_rows() {
    let ticker = |usd: Option<ContractQuote>| ContractTicker {
        id: None,
        name: t("Tether"),
        symbol: None,
        rank: Some(3),
        circulating_supply: t("140.0B"),
        total_supply: None,
        max_supply: None,
        first_data_at: None,
        last_updated: None,
        usd,
    };
    let usd = ContractQuote {
        price: t("$1.00"),
        volume_24h: t("$50.0B"),
        market_cap: t("$140.0B"),
        percent_change_24h: t("+0.01%"),
        percent_change_7d: None,
        percent_change_30d: None,
        percent_change_1y: None,
        ath_price: None,
        ath_date: None,
        percent_from_price_ath: None,
    };
    let expected = detail(vec![
        ["Name", "Tether"],
        ["Symbol", DASH],
        ["Rank", "3"],
        ["Price (USD)", "$1.00"],
        ["Market Cap", "$140.0B"],
        ["Volume (24h)", "$50.0B"],
        ["Change (24h)", "+0.01%"],
        ["Change (7d)", DASH],
        ["Circulating Supply", "140.0B"],
        ["Total Supply", DASH],
        ["Last Updated", DASH],
    ]);
    assert_eq!(print_contract_ticker(&ticker(Some(usd))), format!("{}\n{}", expected, FOOTER));
    let expected = detail(vec![
        ["Name", "Tether"],
        ["Symbol", DASH],
        ["Rank", "3"],
        ["Circulating Supply", "140.0B"],
        ["Total Supply", DASH],
        ["Last Updated", DASH],
    ]);
    assert_eq!(print_contract_ticker(&ticker(None)), format!("{}\n{}", expected, FOOTER));
}

#[test]
fn conversion_rows() {
    let result = ConvertResult {
        base_currency_id: t("btc-bitcoin"),
        base_currency_name: t("Bitcoin"),
        base_price_last_updated: None,
        quote_currency_id: None,
        quote_currency_name: None,
        quote_price_last_updated: None,
        amount: t("0.5"),
        price: None,
    };
    let expected = detail(vec![
        ["From", "Bitcoin (btc-bitcoin)"],
        ["To", "\u{2014} (\u{2014})"],
        ["Amount", "0.5"],
        ["Price", DASH],
    ]);
    assert_eq!(print_convert_result(&result), format!("{}\n{}", expected, FOOTER));
}
