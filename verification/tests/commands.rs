use coinpaprika_cli::commands::api_management::{self, KeyInfo, NO_KEY_TEXT};
use coinpaprika_cli::commands::coins::{self, CoinDetail, CoinEvent, CoinListItem, CoinTag, Whitepaper};
use coinpaprika_cli::commands::config::{config_info, print_key_saved, ConfigCommand};
use coinpaprika_cli::commands::contracts::{self, Contract};
use coinpaprika_cli::commands::people::{Person, Position};
use coinpaprika_cli::commands::search::{
    self, SearchCurrency, SearchExchange, SearchPerson, SearchResult, SearchTag,
};
use coinpaprika_cli::commands::status::{status_result, ApiStatus, StatusResult};
use coinpaprika_cli::commands::tags::Tag;
use coinpaprika_cli::commands::{ohlcv, take_first, tickers, Endpoint};
use coinpaprika_cli::dispatch::{plan, Command, Plan, Shape};
use coinpaprika_cli::output::api_management::print_key_info;
use coinpaprika_cli::output::coins::{print_coin_detail, print_coins_table, print_events_table};
use coinpaprika_cli::output::config::print_config_show;
use coinpaprika_cli::output::contracts::{
    can_print_contracts, print_contracts_table, print_platforms,
};
use coinpaprika_cli::output::people::print_person_detail;
use coinpaprika_cli::output::search::print_search_results;
use coinpaprika_cli::output::status::print_status;
use coinpaprika_cli::output::tags::{print_tag_detail, print_tags_table};

const FOOTER: &str = "\n Data: CoinPaprika (coinpaprika.com) \u{b7} Free API: api.coinpaprika.com\n";

fn pairs(list: &[(&str, &str)]) -> Vec<(String, String)> {
    list.iter().map(|(n, v)| (n.to_string(), v.to_string())).collect()
}

fn check(e: &Endpoint, path: &str, params: &[(&str, &str)], entity: &str, keep: Option<usize>) {
    assert_eq!(e.path, path);
    assert_eq!(e.params, pairs(params));
    assert_eq!(e.entity_path, entity);
    assert_eq!(e.keep, keep);
}

fn rounded(rows: Vec<Vec<String>>) -> String {
    tabled::Table::from_iter(rows).with(tabled::settings::Style::rounded()).to_string()
}

fn detail(rows: Vec<[&str; 2]>) -> String {
    tabled::Table::from_iter(rows)
        .with(tabled::settings::Style::rounded())
        .with(
            tabled::settings::Modify::new(tabled::settings::object::Columns::first())
                .with(tabled::settings::Width::wrap(20)),
        )
        .with(
            tabled::settings::Modify::new(tabled::settings::object::Columns::last())
                .with(tabled::settings::Width::wrap(80)),
        )
        .to_string()
}

fn row(cells: &[&str]) -> Vec<String> {
    cells.iter().map(|c| c.to_string()).collect()
}

#[test]
fn coin_endpoints() {
    check(&coins::execute_list(10), "/coins", &[], "/coins", Some(10));
    check(&coins::execute_detail("btc-bitcoin"), "/coins/btc-bitcoin", &[], "/coin/btc-bitcoin", None);
    check(&coins::execute_events("btc-bitcoin", 5), "/coins/btc-bitcoin/events", &[], "/coin/btc-bitcoin", Some(5));
    check(
        &coins::execute_exchanges("btc-bitcoin", 7),
        "/coins/btc-bitcoin/exchanges",
        &[],
        "/coin/btc-bitcoin",
        Some(7),
    );
    check(
        &coins::execute_markets("btc-bitcoin", "USD,BTC", 3),
        "/coins/btc-bitcoin/markets",
        &[("quotes", "USD,BTC")],
        "/coin/btc-bitcoin",
        Some(3),
    );
}

#[test]
fn history_endpoints_send_the_end_last_and_only_if_given() {
    check(
        &tickers::execute_history("btc-bitcoin", "2024-01-01", None, "24h", 50, "usd"),
        "/tickers/btc-bitcoin/historical",
        &[("start", "2024-01-01"), ("interval", "24h"), ("limit", "50"), ("quote", "usd")],
        "/coin/btc-bitcoin",
        None,
    );
    check(
        &ohlcv::execute_historical("eth-ethereum", "2024-01-01", Some("2024-02-01"), "1h", 1000, "btc"),
        "/coins/eth-ethereum/ohlcv/historical",
        &[
            ("start", "2024-01-01"),
            ("interval", "1h"),
            ("limit", "1000"),
            ("quote", "btc"),
            ("end", "2024-02-01"),
        ],
        "/coin/eth-ethereum",
        None,
    );
    check(
        &contracts::execute_history("eth-ethereum", "0xdac1", "2024-01-01", Some("2024-03-01"), "24h", 0),
        "/contracts/eth-ethereum/0xdac1/historical",
        &[("start", "2024-01-01"), ("interval", "24h"), ("limit", "0"), ("end", "2024-03-01")],
        "/contracts/eth-ethereum/0xdac1",
        None,
    );
}

#[test]
fn search_endpoint_adds_what_is_given() {
    check(
        &search::execute("bitcoin", None, 10, None),
        "/search",
        &[("q", "bitcoin"), ("limit", "10")],
        "/search",
        None,
    );
    check(
        &search::execute("eth", Some("currencies,exchanges"), 5, Some("symbol_search")),
        "/search",
        &[("q", "eth"), ("limit", "5"), ("categories", "currencies,exchanges"), ("modifier", "symbol_search")],
        "/search",
        None,
    );
    check(
        &search::execute("eth", None, 18446744073709551615, Some("symbol_search")),
        "/search",
        &[("q", "eth"), ("limit", "18446744073709551615"), ("modifier", "symbol_search")],
        "/search",
        None,
    );
}

#[test]
fn key_info_needs_a_key() {
    match api_management::execute_key_info(false) {
        Ok(_) => panic!("no request without a key"),
        Err(text) => {
            assert_eq!(text, NO_KEY_TEXT);
            assert!(text.starts_with("No API key configured. The key-info command requires a paid API key.\n\nTo get started:\n  Get your key:   https://coinpaprika.com/api/pricing\n"));
            assert!(text.ends_with("Run coinpaprika-cli plans to see what's included."));
        }
    }
    match api_management::execute_key_info(true) {
        Ok(e) => check(&e, "/key/info", &[], "/key/info", None),
        Err(_) => panic!("a key allows the request"),
    }
}

#[test]
fn plan_for_every_command_that_asks_the_api() {
    let s = |t: &str| t.to_string();
    let cases: Vec<(Command, &str, Vec<(&str, &str)>, &str, Option<usize>, Shape)> = vec![
        (Command::Global, "/global", vec![], "", None, Shape::Global),
        (Command::Coins { limit: 100 }, "/coins", vec![], "/coins", Some(100), Shape::Coins),
        (Command::Coin { coin_id: s("btc-bitcoin") }, "/coins/btc-bitcoin", vec![], "/coin/btc-bitcoin", None, Shape::Coin),
        (Command::CoinEvents { coin_id: s("x"), limit: 50 }, "/coins/x/events", vec![], "/coin/x", Some(50), Shape::CoinEvents),
        (Command::CoinExchanges { coin_id: s("x"), limit: 50 }, "/coins/x/exchanges", vec![], "/coin/x", Some(50), Shape::CoinExchanges),
        (Command::CoinMarkets { coin_id: s("x"), quotes: s("USD"), limit: 2 }, "/coins/x/markets", vec![("quotes", "USD")], "/coin/x", Some(2), Shape::CoinMarkets),
        (Command::Tickers { limit: 20, quotes: s("USD,BTC") }, "/tickers", vec![("quotes", "USD,BTC"), ("limit", "20")], "/tickers", None, Shape::Tickers),
        (Command::Ticker { coin_id: s("x"), quotes: s("USD") }, "/tickers/x", vec![("quotes", "USD")], "/coin/x", None, Shape::Ticker),
        (
            Command::TickerHistory { coin_id: s("x"), start: s("2024-01-01"), end: Some(s("2024-01-31")), interval: s("24h"), limit: 30, quote: s("usd") },
            "/tickers/x/historical",
            vec![("start", "2024-01-01"), ("interval", "24h"), ("limit", "30"), ("quote", "usd"), ("end", "2024-01-31")],
            "/coin/x",
            None,
            Shape::TickerHistory,
        ),
        (
            Command::Ohlcv { coin_id: s("x"), start: s("2024-01-01"), end: None, interval: s("24h"), limit: 30, quote: s("usd") },
            "/coins/x/ohlcv/historical",
            vec![("start", "2024-01-01"), ("interval", "24h"), ("limit", "30"), ("quote", "usd")],
            "/coin/x",
            None,
            Shape::Ohlcv,
        ),
        (Command::OhlcvLatest { coin_id: s("x"), quote: s("usd") }, "/coins/x/ohlcv/latest", vec![("quote", "usd")], "/coin/x", None, Shape::Ohlcv),
        (Command::OhlcvToday { coin_id: s("x"), quote: s("usd") }, "/coins/x/ohlcv/today", vec![("quote", "usd")], "/coin/x", None, Shape::Ohlcv),
        (Command::Exchanges { limit: 9, quotes: s("USD") }, "/exchanges", vec![("quotes", "USD")], "/exchanges", Some(9), Shape::Exchanges),
        (Command::Exchange { exchange_id: s("binance"), quotes: s("USD") }, "/exchanges/binance", vec![("quotes", "USD")], "/exchange/binance", None, Shape::Exchange),
        (Command::ExchangeMarkets { exchange_id: s("binance"), limit: 4, quotes: s("USD") }, "/exchanges/binance/markets", vec![("quotes", "USD")], "/exchange/binance", Some(4), Shape::ExchangeMarkets),
        (Command::Tags { limit: 50 }, "/tags", vec![], "/tags", Some(50), Shape::Tags),
        (Command::Tag { tag_id: s("defi") }, "/tags/defi", vec![], "/tag/defi", None, Shape::Tag),
        (Command::Person { person_id: s("vitalik-buterin") }, "/people/vitalik-buterin", vec![], "/people/vitalik-buterin", None, Shape::Person),
        (Command::Search { query: s("btc"), categories: None, limit: 10, modifier: None }, "/search", vec![("q", "btc"), ("limit", "10")], "/search", None, Shape::Search),
        (
            Command::Convert { base_id: s("btc-bitcoin"), quote_id: s("usd-us-dollars"), amount: s("0.5") },
            "/price-converter",
            vec![("base_currency_id", "btc-bitcoin"), ("quote_currency_id", "usd-us-dollars"), ("amount", "0.5")],
            "/convert",
            None,
            Shape::Convert,
        ),
        (Command::Platforms, "/contracts", vec![], "/contracts", None, Shape::Platforms),
        (Command::Contracts { platform_id: s("eth-ethereum"), limit: 20 }, "/contracts/eth-ethereum", vec![], "/contracts/eth-ethereum", Some(20), Shape::Contracts),
        (Command::ContractTicker { platform_id: s("eth-ethereum"), address: s("0xabc") }, "/contracts/eth-ethereum/0xabc", vec![], "/contracts/eth-ethereum/0xabc", None, Shape::ContractTicker),
        (
            Command::ContractHistory { platform_id: s("eth-ethereum"), address: s("0xabc"), start: s("2024-01-01"), end: None, interval: s("24h"), limit: 50 },
            "/contracts/eth-ethereum/0xabc/historical",
            vec![("start", "2024-01-01"), ("interval", "24h"), ("limit", "50")],
            "/contracts/eth-ethereum/0xabc",
            None,
            Shape::ContractHistory,
        ),
        (Command::KeyInfo, "/key/info", vec![], "/key/info", None, Shape::KeyInfo),
        (Command::Mappings, "/coins/mappings", vec![], "/coins/mappings", None, Shape::Mappings),
        (Command::Changelog { limit: 50, page: 2 }, "/changelog/ids", vec![("limit", "50"), ("page", "2")], "/changelog", None, Shape::Changelog),
        (Command::Status, "/global", vec![], "/status", None, Shape::Status),
    ];
    for (command, path, params, entity, keep, shape) in cases {
        match plan(command, true) {
            Plan::Fetch { endpoint, shape: got } => {
                check(&endpoint, path, &params, entity, keep);
                assert_eq!(got, shape);
            }
            other => panic!("expected a request for {}, got {:?}", path, other),
        }
    }
}

#[test]
fn plan_for_key_info_without_key_fails_before_asking() {
    match plan(Command::KeyInfo, false) {
        Plan::Fail(text) => assert_eq!(text, NO_KEY_TEXT),
        other => panic!("expected a failure, got {:?}", other),
    }
    assert!(matches!(plan(Command::Mappings, false), Plan::Fetch { .. }));
}

#[test]
fn plan_for_local_commands() {
    assert!(matches!(plan(Command::Attribution, false), Plan::Attribution));
    assert!(matches!(plan(Command::Shell, false), Plan::Shell));
    assert!(matches!(plan(Command::Plans, true), Plan::Plans));
    match plan(Command::Onboard { key: Some("k".to_string()) }, false) {
        Plan::Onboard { key } => assert_eq!(key, Some("k".to_string())),
        other => panic!("expected the wizard, got {:?}", other),
    }
    match plan(Command::Config(ConfigCommand::SetKey { key: "k".to_string() }), false) {
        Plan::Config(ConfigCommand::SetKey { key }) => assert_eq!(key, "k"),
        other => panic!("expected the configuration, got {:?}", other),
    }
    assert!(matches!(plan(Command::Config(ConfigCommand::Show), false), Plan::Config(ConfigCommand::Show)));
    assert!(matches!(plan(Command::Config(ConfigCommand::Reset), false), Plan::Config(ConfigCommand::Reset)));
}

#[test]
fn take_first_keeps_the_front() {
    assert_eq!(take_first(vec![1, 2, 3, 4], 2), vec![1, 2]);
    assert_eq!(take_first(vec![1, 2, 3, 4], 4), vec![1, 2, 3, 4]);
    assert_eq!(take_first(vec![1, 2, 3, 4], 9), vec![1, 2, 3, 4]);
    assert_eq!(take_first(vec![1, 2, 3, 4], 0), Vec::<i32>::new());
}

fn tag() -> Tag {
    Tag {
        id: "defi".to_string(),
        name: "DeFi".to_string(),
        description: Some("d".repeat(250)),
        tag_type: None,
        coin_counter: Some(120),
        ico_counter: Some(-3),
        coins: None,
    }
}

#[test]
fn tag_detail_rows() {
    let shortened = format!("{}\u{2026}", "d".repeat(199));
    let expected = detail(vec![
        ["ID", "defi"],
        ["Name", "DeFi"],
        ["Type", "\u{2014}"],
        ["Coins", "120"],
        ["ICOs", "-3"],
        ["Description", &shortened],
    ]);
    assert_eq!(print_tag_detail(&tag()), format!("{}\n{}", expected, FOOTER));

    let mut plain = tag();
    plain.description = Some(String::new());
    plain.tag_type = Some("functional".to_string());
    plain.coin_counter = None;
    let expected = detail(vec![
        ["ID", "defi"],
        ["Name", "DeFi"],
        ["Type", "functional"],
        ["Coins", "\u{2014}"],
        ["ICOs", "-3"],
    ]);
    assert_eq!(print_tag_detail(&plain), format!("{}\n{}", expected, FOOTER));
}

#[test]
fn tags_table_rows() {
    let mut long = tag();
    long.name = "n".repeat(36);
    let text = print_tags_table(&vec![tag(), long]);
    let cut = format!("{}\u{2026}", "n".repeat(34));
    let expected = rounded(vec![
        row(&["ID", "Name", "Type", "Coins", "ICOs"]),
        row(&["defi", "DeFi", "\u{2014}", "120", "-3"]),
        row(&["defi", &cut, "\u{2014}", "120", "-3"]),
    ]);
    assert_eq!(text, format!("{}\n{}", expected, FOOTER));
    let empty = print_tags_table(&Vec::new());
    assert_eq!(
        empty,
        format!("{}\n{}", rounded(vec![row(&["ID", "Name", "Type", "Coins", "ICOs"])]), FOOTER)
    );
}

#[test]
fn status_table() {
    let result = StatusResult {
        coinpaprika: ApiStatus { status: "OK".to_string(), response_time_ms: 123 },
        api_key_configured: false,
    };
    let expected = detail(vec![
        ["CoinPaprika API", "OK (123ms)"],
        ["API Key", "Not set (free tier)"],
        ["Plan", "Free (20,000 calls/mo)"],
    ]);
    assert_eq!(print_status(&result), format!("{}\n{}", expected, FOOTER));
    let result = status_result(false, 340282366920938463463374607431768211455, true);
    assert_eq!(result.coinpaprika.status, "ERROR");
    let expected = detail(vec![
        ["CoinPaprika API", "ERROR (340282366920938463463374607431768211455ms)"],
        ["API Key", "Configured"],
        ["Plan", "Paid (run key-info for details)"],
    ]);
    assert_eq!(print_status(&result), format!("{}\n{}", expected, FOOTER));
    assert_eq!(status_result(true, 0, false).coinpaprika.status, "OK");
    assert_eq!(status_result(true, 0, false).coinpaprika.response_time_ms, 0);
}

#[test]
fn config_table() {
    let expected = detail(vec![
        ["Config File", "/home/u/.coinpaprika/config.json"],
        ["API Key", "abcd...mnop"],
        ["Key Source", "CLI flag (--api-key)"],
        ["CoinPaprika URL", "https://api-pro.coinpaprika.com/v1"],
    ]);
    assert_eq!(
        print_config_show("/home/u/.coinpaprika/config.json", Some("abcdefghijklmnop"), "CLI flag (--api-key)"),
        format!("{}\n{}", expected, FOOTER)
    );
    let expected = detail(vec![
        ["Config File", "c"],
        ["API Key", "Not set"],
        ["Key Source", "Not set (using free tier)"],
        ["CoinPaprika URL", "https://api.coinpaprika.com/v1"],
    ]);
    assert_eq!(
        print_config_show("c", None, "Not set (using free tier)"),
        format!("{}\n{}", expected, FOOTER)
    );
}

#[test]
fn config_report_hides_the_key() {
    let info = config_info("c", Some("abcdefghijklmnop"), "Environment variable (COINPAPRIKA_API_KEY)");
    assert_eq!(info.config_file, "c");
    assert_eq!(info.api_key, Some("abcd...mnop".to_string()));
    assert_eq!(info.key_source, "Environment variable (COINPAPRIKA_API_KEY)");
    assert_eq!(info.coinpaprika_url, "https://api-pro.coinpaprika.com/v1");
    let info = config_info("c", None, "Not set (using free tier)");
    assert_eq!(info.api_key, None);
    assert_eq!(info.coinpaprika_url, "https://api.coinpaprika.com/v1");
    assert_eq!(print_key_saved("/p/config.json", "abcdefghijklmnop"), "API key saved to /p/config.json\nKey: abcd...mnop\n");
    assert_eq!(
        coinpaprika_cli::commands::config::print_key_stored("/p/config.json"),
        "API key saved to /p/config.json\n"
    );
}

fn coin(rank: Option<i64>, name: &str, active: Option<bool>) -> CoinListItem {
    CoinListItem {
        id: "btc-bitcoin".to_string(),
        name: name.to_string(),
        symbol: "BTC".to_string(),
        rank,
        is_new: Some(false),
        is_active: active,
        coin_type: Some("coin".to_string()),
    }
}

#[test]
fn coins_table_rows() {
    let long = "A coin with a name far longer than thirty characters";
    let text = print_coins_table(&vec![
        coin(Some(1), "Bitcoin", Some(true)),
        coin(None, long, Some(false)),
        coin(Some(0), "x", None),
    ]);
    let expected = rounded(vec![
        row(&["Rank", "Symbol", "Name", "Type", "Active"]),
        row(&["1", "BTC", "Bitcoin", "coin", "Yes"]),
        row(&["\u{2014}", "BTC", "A coin with a name far longer\u{2026}", "coin", "No"]),
        row(&["0", "BTC", "x", "coin", "\u{2014}"]),
    ]);
    assert_eq!(text, format!("{}\n{}", expected, FOOTER));
}

fn coin_detail() -> CoinDetail {
    CoinDetail {
        id: "btc-bitcoin".to_string(),
        name: "Bitcoin".to_string(),
        symbol: "BTC".to_string(),
        rank: Some(1),
        is_new: None,
        is_active: Some(true),
        coin_type: Some("coin".to_string()),
        logo: None,
        description: Some("Peer-to-peer cash".to_string()),
        open_source: Some(true),
        started_at: Some("2009-01-03T00:00:00Z".to_string()),
        development_status: None,
        hardware_wallet: Some(false),
        proof_type: Some("Proof of Work".to_string()),
        org_structure: None,
        hash_algorithm: Some("SHA256".to_string()),
        tags: Some(vec![
            CoinTag { id: "a".to_string(), name: "Cryptocurrency".to_string(), coin_counter: None, ico_counter: None },
            CoinTag { id: "b".to_string(), name: "Payments".to_string(), coin_counter: None, ico_counter: None },
            CoinTag { id: "c".to_string(), name: "Store of value".to_string(), coin_counter: None, ico_counter: None },
        ]),
        team: None,
        whitepaper: Some(Whitepaper { link: Some("https://bitcoin.org/bitcoin.pdf".to_string()), thumbnail: None }),
        first_data_at: None,
        last_data_at: None,
    }
}

#[test]
fn coin_detail_rows() {
    let expected = detail(vec![
        ["Name", "Bitcoin"],
        ["Symbol", "BTC"],
        ["Rank", "1"],
        ["Type", "coin"],
        ["Active", "Yes"],
        ["Started", "2009-01-03T00:00:00Z"],
        ["Proof Type", "Proof of Work"],
        ["Hash Algorithm", "SHA256"],
        ["Org Structure", "\u{2014}"],
        ["Dev Status", "\u{2014}"],
        ["Open Source", "Yes"],
        ["Hardware Wallet", "No"],
        ["Tags", "Cryptocurrency, Payments, Store of value"],
        ["Description", "Peer-to-peer cash"],
        ["Whitepaper", "https://bitcoin.org/bitcoin.pdf"],
    ]);
    assert_eq!(print_coin_detail(&coin_detail()), format!("{}\n{}", expected, FOOTER));
}

#[test]
fn coin_detail_leaves_out_what_is_missing() {
    let mut bare = coin_detail();
    bare.tags = None;
    bare.description = Some(String::new());
    bare.whitepaper = Some(Whitepaper { link: None, thumbnail: Some("t".to_string()) });
    let text = print_coin_detail(&bare);
    assert!(!text.contains("Tags"));
    assert!(!text.contains("Description"));
    assert!(!text.contains("Whitepaper"));
    assert!(text.contains("Hardware Wallet"));
    let mut no_tags = coin_detail();
    no_tags.tags = Some(Vec::new());
    no_tags.description = None;
    no_tags.whitepaper = None;
    let expected = detail(vec![
        ["Name", "Bitcoin"],
        ["Symbol", "BTC"],
        ["Rank", "1"],
        ["Type", "coin"],
        ["Active", "Yes"],
        ["Started", "2009-01-03T00:00:00Z"],
        ["Proof Type", "Proof of Work"],
        ["Hash Algorithm", "SHA256"],
        ["Org Structure", "\u{2014}"],
        ["Dev Status", "\u{2014}"],
        ["Open Source", "Yes"],
        ["Hardware Wallet", "No"],
        ["Tags", ""],
    ]);
    assert_eq!(print_coin_detail(&no_tags), format!("{}\n{}", expected, FOOTER));
}

#[test]
fn events_table_rows() {
    let events = vec![
        CoinEvent {
            id: None,
            date: Some("2024-04-20".to_string()),
            date_to: None,
            name: Some("Halving".to_string()),
            description: None,
            is_conference: Some(false),
            link: None,
            proof_image_link: None,
        },
        CoinEvent {
            id: None,
            date: None,
            date_to: None,
            name: None,
            description: None,
            is_conference: None,
            link: None,
            proof_image_link: None,
        },
    ];
    let expected = rounded(vec![
        row(&["Date", "Name", "Conference"]),
        row(&["2024-04-20", "Halving", "No"]),
        row(&["\u{2014}", "\u{2014}", "\u{2014}"]),
    ]);
    assert_eq!(print_events_table(&events), format!("{}\n{}", expected, FOOTER));
}

#[test]
fn platforms_list() {
    let platforms = vec!["eth-ethereum".to_string(), "bnb-binance-coin".to_string()];
    assert_eq!(
        print_platforms(&platforms),
        format!("Contract Platforms:\n  eth-ethereum\n  bnb-binance-coin\n{}", FOOTER)
    );
    assert_eq!(print_platforms(&Vec::new()), format!("Contract Platforms:\n{}", FOOTER));
}

#[test]
fn contracts_table_rows() {
    let contracts = vec![
        Contract {
            address: Some("0xdac17f958d2ee523a2206206994597c13d831ec7".to_string()),
            contract_type: Some("ERC20".to_string()),
            id: Some("usdt-tether".to_string()),
            active: Some(true),
        },
        Contract { address: None, contract_type: None, id: None, active: None },
    ];
    assert!(can_print_contracts(&contracts));
    let expected = rounded(vec![
        row(&["Address", "Type", "Coin ID", "Active"]),
        row(&["0xdac1...1ec7", "ERC20", "usdt-tether", "Yes"]),
        row(&["\u{2014}", "\u{2014}", "\u{2014}", "\u{2014}"]),
    ]);
    assert_eq!(print_contracts_table(&contracts), format!("{}\n{}", expected, FOOTER));
    let odd = vec![Contract {
        address: Some("12345\u{e9}7890123456".to_string()),
        contract_type: None,
        id: None,
        active: None,
    }];
    assert!(!can_print_contracts(&odd));
}

#[test]
fn person_detail_rows() {
    let person = Person {
        id: Some("vitalik-buterin".to_string()),
        name: Some("Vitalik Buterin".to_string()),
        description: Some("Co-founder".to_string()),
        teams_count: Some(2),
        positions: Some(vec![
            Position {
                coin_id: Some("eth-ethereum".to_string()),
                coin_name: Some("Ethereum".to_string()),
                position: Some("Author".to_string()),
            },
            Position { coin_id: None, coin_name: None, position: None },
        ]),
    };
    let expected = detail(vec![
        ["Name", "Vitalik Buterin"],
        ["ID", "vitalik-buterin"],
        ["Teams", "2"],
        ["Author", "Ethereum (eth-ethereum)"],
        ["Position", "\u{2014} (\u{2014})"],
        ["Description", "Co-founder"],
    ]);
    assert_eq!(print_person_detail(&person), format!("{}\n{}", expected, FOOTER));
    let nobody = Person { id: None, name: None, description: None, teams_count: None, positions: None };
    let expected = detail(vec![["Name", "\u{2014}"], ["ID", "\u{2014}"], ["Teams", "\u{2014}"]]);
    assert_eq!(print_person_detail(&nobody), format!("{}\n{}", expected, FOOTER));
}

#[test]
fn key_info_rows() {
    let info = KeyInfo {
        plan: Some("Starter".to_string()),
        usage: Some("{\n  \"calls\": 5\n}".to_string()),
        message: Some(String::new()),
    };
    let expected = detail(vec![["Plan", "Starter"], ["Usage", "{\n  \"calls\": 5\n}"]]);
    assert_eq!(print_key_info(&info), format!("{}\n{}", expected, FOOTER));
    let info = KeyInfo { plan: None, usage: None, message: Some("hello".to_string()) };
    let expected = detail(vec![["Plan", "\u{2014}"], ["Message", "hello"]]);
    assert_eq!(print_key_info(&info), format!("{}\n{}", expected, FOOTER));
}

#[test]
fn search_results_by_section() {
    let result = SearchResult {
        currencies: Some(vec![SearchCurrency {
            id: "btc-bitcoin".to_string(),
            name: "Bitcoin".to_string(),
            symbol: "BTC".to_string(),
            rank: Some(1),
            is_active: Some(true),
            coin_type: None,
        }]),
        exchanges: Some(vec![
            SearchExchange { id: Some("binance".to_string()), name: Some("Binance".to_string()) },
            SearchExchange { id: None, name: None },
        ]),
        people: Some(vec![SearchPerson {
            id: Some("satoshi-nakamoto".to_string()),
            name: Some("Satoshi Nakamoto".to_string()),
            teams_count: None,
        }]),
        tags: Some(vec![SearchTag {
            id: Some("defi".to_string()),
            name: Some("DeFi".to_string()),
            coin_counter: Some(42),
            ico_counter: None,
        }]),
    };
    let table = rounded(vec![
        row(&["Rank", "Symbol", "Name", "ID"]),
        row(&["1", "BTC", "Bitcoin", "btc-bitcoin"]),
    ]);
    let expected = format!(
        "Currencies:\n{}\n\nExchanges:\n  binance \u{2014} Binance\n  \u{2014} \u{2014} \u{2014}\n\nPeople:\n  satoshi-nakamoto \u{2014} Satoshi Nakamoto (teams: 0)\n\nTags:\n  defi \u{2014} DeFi (coins: 42)\n\n{}",
        table, FOOTER
    );
    assert_eq!(print_search_results(&result), expected);
}

#[test]
fn search_results_leave_out_empty_sections() {
    let nothing = SearchResult { currencies: None, exchanges: Some(Vec::new()), people: None, tags: Some(Vec::new()) };
    assert_eq!(print_search_results(&nothing), FOOTER);
    let only_tags = SearchResult {
        currencies: Some(Vec::new()),
        exchanges: None,
        people: None,
        tags: Some(vec![SearchTag { id: None, name: None, coin_counter: Some(-1), ico_counter: None }]),
    };
    assert_eq!(
        print_search_results(&only_tags),
        format!("Tags:\n  \u{2014} \u{2014} \u{2014} (coins: -1)\n\n{}", FOOTER)
    );
}
