use coinpaprika_cli::output::{
    detail_field, print_detail_table, print_error, print_json_wrapped, truncate,
    truncate_address, Channel, Field, OutputFormat, ResponseMeta,
};

#[test]
fn truncate_short_string_unchanged() {
    assert_eq!(truncate("hello", 10), "hello");
}

#[test]
fn truncate_long_string_appends_ellipsis() {
    let result = truncate("hello world", 5);
    assert_eq!(result.chars().count(), 5);
    assert!(result.ends_with('\u{2026}'));
}

#[test]
fn truncate_address_short() {
    assert_eq!(truncate_address("0x1234567890abcdef"), "0x1234...cdef");
}

#[test]
fn wrapped_json_has_the_envelope() {
    let meta = ResponseMeta::stamped("/coin/btc-bitcoin", "2024-01-01T00:00:00+00:00".to_string());
    let payload = "{\n  \"id\": \"btc-bitcoin\",\n  \"tags\": [\n    \"a\"\n  ]\n}";
    let text = print_json_wrapped(payload, meta, false);
    let expected = "{\n  \"data\": {\n    \"id\": \"btc-bitcoin\",\n    \"tags\": [\n      \"a\"\n    ]\n  },\n  \"_meta\": {\n    \"source\": \"CoinPaprika\",\n    \"url\": \"https://coinpaprika.com/coin/btc-bitcoin\",\n    \"api_docs\": \"https://api.coinpaprika.com\",\n    \"attribution\": \"Powered by CoinPaprika \u{00b7} Free crypto market data\",\n    \"timestamp\": \"2024-01-01T00:00:00+00:00\"\n  }\n}\n";
    assert_eq!(text, expected);
}

#[test]
fn truncate_counts_characters_not_bytes() {
    assert_eq!(truncate("\u{e9}\u{e9}\u{e9}\u{e9}\u{e9}\u{e9}", 4), "\u{e9}\u{e9}\u{e9}\u{2026}");
    assert_eq!(truncate("\u{e9}\u{e9}\u{e9}\u{e9}", 4), "\u{e9}\u{e9}\u{e9}\u{e9}");
}

#[test]
fn truncate_at_the_boundary() {
    assert_eq!(truncate("hello", 5), "hello");
    assert_eq!(truncate("hello!", 5), "hell\u{2026}");
    assert_eq!(truncate("hello", 1), "\u{2026}");
    assert_eq!(truncate("", 0), "");
}

#[test]
fn truncate_with_no_budget_still_marks_the_cut() {
    assert_eq!(truncate("a", 0), "\u{2026}");
}

#[test]
fn truncate_fills_the_budget() {
    let text = "The quick brown fox jumps over the lazy dog";
    for max in 1..text.chars().count() {
        let cut = truncate(text, max);
        assert_eq!(cut.chars().count(), max);
        assert!(cut.ends_with('\u{2026}'));
    }
    for max in text.chars().count()..60 {
        assert_eq!(truncate(text, max), text);
    }
}

#[test]
fn addresses_up_to_thirteen_bytes_are_kept() {
    assert_eq!(truncate_address(""), "");
    assert_eq!(truncate_address("0x12345678901"), "0x12345678901");
    assert_eq!(truncate_address("0x123456789012"), "0x1234...9012");
}

#[test]
fn raw_json_is_the_payload() {
    let meta = ResponseMeta::stamped("/coins", "t".to_string());
    let payload = "[\n  {\n    \"id\": \"btc-bitcoin\"\n  }\n]";
    assert_eq!(print_json_wrapped(payload, meta, true), format!("{}\n", payload));
    assert_eq!(coinpaprika_cli::output::print_json(payload), format!("{}\n", payload));
}

#[test]
fn wrapped_json_parses_to_payload_and_five_meta_fields() {
    let payload_value = {
        let mut coin = serde_json::Map::new();
        coin.insert("id".to_string(), serde_json::Value::String("btc \"bitcoin\"".to_string()));
        coin.insert("rank".to_string(), serde_json::Value::from(1));
        coin.insert("tags".to_string(), serde_json::Value::Array(vec![]));
        serde_json::Value::Array(vec![serde_json::Value::Object(coin), serde_json::Value::Null])
    };
    let payload = serde_json::to_string_pretty(&payload_value).unwrap();
    let meta = ResponseMeta::stamped("/coins", "2024-05-06T07:08:09.123+00:00".to_string());
    let text = print_json_wrapped(&payload, meta, false);
    let parsed: serde_json::Value = serde_json::from_str(&text).unwrap();
    let top = parsed.as_object().unwrap();
    assert_eq!(top.len(), 2);
    assert_eq!(top["data"], payload_value);
    let meta = top["_meta"].as_object().unwrap();
    assert_eq!(meta.len(), 5);
    assert_eq!(meta["source"], "CoinPaprika");
    assert_eq!(meta["url"], "https://coinpaprika.com/coins");
    assert_eq!(meta["api_docs"], "https://api.coinpaprika.com");
    assert_eq!(meta["attribution"], "Powered by CoinPaprika \u{b7} Free crypto market data");
    assert_eq!(meta["timestamp"], "2024-05-06T07:08:09.123+00:00");
    assert!(text.starts_with("{\n  \"data\": [\n    {\n      \"id\": "));
    assert!(text.find("\"data\"").unwrap() < text.find("\"_meta\"").unwrap());
    assert!(text.ends_with("\n  }\n}\n"));
}

#[test]
fn meta_is_the_same_for_every_entity() {
    for path in ["", "/coins", "/coin/btc-bitcoin", "/search"] {
        let meta = ResponseMeta::coinpaprika(path);
        assert_eq!(meta.source, "CoinPaprika");
        assert_eq!(meta.url, format!("https://coinpaprika.com{}", path));
        assert_eq!(meta.api_docs, "https://api.coinpaprika.com");
        assert_eq!(meta.attribution, "Powered by CoinPaprika \u{b7} Free crypto market data");
        assert!(chrono::DateTime::parse_from_rfc3339(&meta.timestamp).is_ok());
        assert!(meta.timestamp.chars().count() >= 25);
        assert!(meta.timestamp.ends_with("+00:00"));
    }
}

#[test]
fn errors_go_to_the_error_channel_in_table_mode() {
    let shown = print_error("Not found.", OutputFormat::Table);
    assert_eq!(shown.channel, Channel::Stderr);
    assert_eq!(shown.text, "Error: Not found.\n");
}

#[test]
fn errors_are_one_json_object_in_json_mode() {
    let shown = print_error("bad \"id\"\nline two", OutputFormat::Json);
    assert_eq!(shown.channel, Channel::Stdout);
    assert_eq!(shown.text, "{\"error\":\"bad \\\"id\\\"\\nline two\"}\n");
    let parsed: serde_json::Value = serde_json::from_str(&shown.text).unwrap();
    assert_eq!(parsed.as_object().unwrap().len(), 1);
    assert_eq!(parsed["error"], "bad \"id\"\nline two");
}

#[test]
fn footer_names_the_source() {
    assert_eq!(
        coinpaprika_cli::output::print_coinpaprika_footer(),
        "\n Data: CoinPaprika (coinpaprika.com) \u{b7} Free API: api.coinpaprika.com\n"
    );
}

#[test]
fn table_has_rounded_corners_and_a_header_line() {
    let rows = vec![
        vec!["Rank".to_string(), "Symbol".to_string()],
        vec!["1".to_string(), "BTC".to_string()],
        vec!["2".to_string(), "ETH".to_string()],
    ];
    let expected = "\
╭──────┬────────╮
│ Rank │ Symbol │
├──────┼────────┤
│ 1    │ BTC    │
│ 2    │ ETH    │
╰──────┴────────╯
";
    assert_eq!(coinpaprika_cli::output::print_table(&rows), expected);
}

#[test]
fn detail_table_wraps_long_values() {
    let mut rows: Vec<Field> = Vec::new();
    detail_field(&mut rows, "ID", "defi".to_string());
    detail_field(&mut rows, "Name", "DeFi".to_string());
    let expected = "\
╭──────┬──────╮
│ ID   │ defi │
├──────┼──────┤
│ Name │ DeFi │
╰──────┴──────╯
";
    assert_eq!(print_detail_table(rows), expected);

    let long = "x".repeat(100);
    let wide = vec![
        Field { label: "A label that is longer than twenty".to_string(), value: long.clone() },
    ];
    let text = print_detail_table(wide);
    let drawn = tabled::Table::from_iter(vec![vec![
        "A label that is longer than twenty".to_string(),
        long,
    ]])
    .with(tabled::settings::Style::rounded())
    .with(
        tabled::settings::Modify::new(tabled::settings::object::Columns::first())
            .with(tabled::settings::Width::wrap(20)),
    )
    .with(
        tabled::settings::Modify::new(tabled::settings::object::Columns::last())
            .with(tabled::settings::Width::wrap(80)),
    )
    .to_string();
    assert_eq!(text, format!("{}\n", drawn));
    for line in text.lines() {
        assert!(line.chars().count() <= 20 + 80 + 7);
    }
    assert!(text.lines().count() > 3);
}

#[test]
fn wrapped_payload_is_indented_as_a_member_would_be() {
    let mut inner = serde_json::Map::new();
    inner.insert("empty".to_string(), serde_json::Value::Array(vec![]));
    inner.insert("none".to_string(), serde_json::Value::Object(serde_json::Map::new()));
    inner.insert("text".to_string(), serde_json::Value::String("line\nbreak \"q\"".to_string()));
    inner.insert(
        "list".to_string(),
        serde_json::Value::Array(vec![serde_json::Value::from(1), serde_json::Value::Bool(true)]),
    );
    let payload_value = serde_json::Value::Array(vec![
        serde_json::Value::Object(inner),
        serde_json::Value::from(2),
    ]);
    let payload = serde_json::to_string_pretty(&payload_value).unwrap();
    let mut single = serde_json::Map::new();
    single.insert("data".to_string(), payload_value);
    let alone = serde_json::to_string_pretty(&serde_json::Value::Object(single)).unwrap();
    let opening = alone.strip_suffix("\n}").unwrap();
    let meta = ResponseMeta::stamped("", String::new());
    let text = print_json_wrapped(&payload, meta, false);
    assert!(text.starts_with(opening));
    assert!(text[opening.len()..].starts_with(",\n  \"_meta\": {\n    \"source\": \"CoinPaprika\",\n"));
}

#[test]
fn wrapped_response_is_the_document_without_the_line_break() {
    let wrapped = coinpaprika_cli::output::WrappedResponse {
        data: "[]".to_string(),
        _meta: ResponseMeta::stamped("/tags", "t".to_string()),
    };
    let text = wrapped.to_json();
    assert_eq!(
        text,
        "{\n  \"data\": [],\n  \"_meta\": {\n    \"source\": \"CoinPaprika\",\n    \"url\": \"https://coinpaprika.com/tags\",\n    \"api_docs\": \"https://api.coinpaprika.com\",\n    \"attribution\": \"Powered by CoinPaprika \u{b7} Free crypto market data\",\n    \"timestamp\": \"t\"\n  }\n}"
    );
    let meta = ResponseMeta::stamped("/tags", "t".to_string());
    assert_eq!(print_json_wrapped("[]", meta, false), format!("{}\n", text));
}
