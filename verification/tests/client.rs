use coinpaprika_cli::client::{
    classify, ApiClient, ErrorKind, FORBIDDEN_TEXT, FREE_TIER_TEXT, PRO_BASE, PUBLIC_BASE,
    RATE_LIMITED_TEXT, UPGRADE_PLAN_TEXT, USER_AGENT,
};

#[test]
fn client_with_key_uses_pro_endpoint() {
    let client = ApiClient::new(Some("secret".to_string()));
    assert!(client.has_key());
    assert_eq!(client.base_url(), "https://api-pro.coinpaprika.com/v1");
    assert_eq!(client.base_url(), PRO_BASE);
}

#[test]
fn client_without_key_uses_public_endpoint() {
    let client = ApiClient::new(None);
    assert!(!client.has_key());
    assert_eq!(client.base_url(), "https://api.coinpaprika.com/v1");
    assert_eq!(client.base_url(), PUBLIC_BASE);
}

#[test]
fn request_carries_key_and_parameters_in_order() {
    let client = ApiClient::new(Some("secret".to_string()));
    let params = vec![
        ("quotes".to_string(), "USD,BTC".to_string()),
        ("limit".to_string(), "5".to_string()),
    ];
    let req = client.coinpaprika_get("/tickers", params.clone());
    assert_eq!(req.url, "https://api-pro.coinpaprika.com/v1/tickers");
    assert_eq!(req.user_agent, "coinpaprika-cli/0.1.0");
    assert_eq!(req.user_agent, USER_AGENT);
    assert_eq!(req.authorization, Some("secret".to_string()));
    assert_eq!(req.query, params);
}

#[test]
fn request_without_key_has_no_authorization() {
    let client = ApiClient::new(None);
    let req = client.coinpaprika_get("/global", Vec::new());
    assert_eq!(req.url, "https://api.coinpaprika.com/v1/global");
    assert_eq!(req.authorization, None);
    assert!(req.query.is_empty());
}

#[test]
fn success_hands_the_body_on() {
    let client = ApiClient::new(None);
    for status in [200u16, 201, 204, 299] {
        let got = client.receive(status, "{\"a\":1}".to_string());
        match got {
            Ok(body) => assert_eq!(body, "{\"a\":1}"),
            Err(e) => panic!("status {} was classified as {:?}", status, e.kind),
        }
    }
}

#[test]
fn payment_required_without_key_names_the_free_tier() {
    let e = classify(402, "ignored", false);
    assert_eq!(e.kind, ErrorKind::PaymentRequired);
    assert_eq!(e.message, FREE_TIER_TEXT);
    assert!(e.message.starts_with("Free tier rate limit reached, or this endpoint requires a paid plan.\n\nIf you just hit"));
    assert!(e.message.ends_with("  Set your key:      coinpaprika-cli config set-key <YOUR_KEY>"));
}

#[test]
fn payment_required_with_key_names_the_upgrade() {
    let e = classify(402, "ignored", true);
    assert_eq!(e.kind, ErrorKind::PaymentRequired);
    assert_eq!(e.message, UPGRADE_PLAN_TEXT);
    assert!(e.message.starts_with("This endpoint requires a higher-tier plan.\n\nCheck your plan:   coinpaprika-cli key-info\n"));
    assert!(e.message.ends_with("  Enterprise \u{2014} Custom limits, dedicated support"));
}

#[test]
fn payment_required_text_depends_on_the_key_alone() {
    let with_a = classify(402, "body a", true).message;
    let with_b = classify(402, "another body", true).message;
    let without_a = classify(402, "body a", false).message;
    let without_b = classify(402, "another body", false).message;
    assert_eq!(with_a, with_b);
    assert_eq!(without_a, without_b);
    assert_ne!(with_a, without_a);
}

#[test]
fn unauthenticated_request_that_gets_402_reports_the_free_tier() {
    let client = ApiClient::new(None);
    let req = client.coinpaprika_get("/tickers/btc-bitcoin/historical", Vec::new());
    assert_eq!(req.authorization, None);
    match client.receive(402, "{\"error\":\"payment required\"}".to_string()) {
        Ok(_) => panic!("402 must not succeed"),
        Err(e) => {
            assert_eq!(e.kind, ErrorKind::PaymentRequired);
            assert_eq!(e.message, FREE_TIER_TEXT);
            assert_ne!(e.message, UPGRADE_PLAN_TEXT);
        }
    }
}

#[test]
fn authenticated_request_that_gets_402_reports_the_upgrade() {
    let client = ApiClient::new(Some("k".to_string()));
    match client.receive(402, String::new()) {
        Ok(_) => panic!("402 must not succeed"),
        Err(e) => assert_eq!(e.message, UPGRADE_PLAN_TEXT),
    }
}

#[test]
fn rate_limited() {
    let e = classify(429, "slow down", true);
    assert_eq!(e.kind, ErrorKind::RateLimited);
    assert_eq!(e.message, "Rate limit exceeded. Wait a moment and try again.");
    assert_eq!(e.message, RATE_LIMITED_TEXT);
}

#[test]
fn forbidden() {
    let e = classify(403, "no", true);
    assert_eq!(e.kind, ErrorKind::Forbidden);
    assert_eq!(e.message, "Invalid API key. Check your key with `coinpaprika-cli config show`");
    assert_eq!(e.message, FORBIDDEN_TEXT);
}

#[test]
fn not_found_carries_the_body() {
    let e = classify(404, "{\"error\":\"id not found\"}", false);
    assert_eq!(e.kind, ErrorKind::NotFound);
    assert_eq!(
        e.message,
        "Not found. Check the ID format (e.g., btc-bitcoin for Bitcoin). API response: {\"error\":\"id not found\"}"
    );
}

#[test]
fn server_errors_name_the_status() {
    let e = classify(500, "boom", false);
    assert_eq!(e.kind, ErrorKind::ServerUnavailable);
    assert_eq!(
        e.message,
        "CoinPaprika API is temporarily unavailable. Try again shortly. (500 Internal Server Error)"
    );
    let e = classify(503, "boom", true);
    assert_eq!(e.kind, ErrorKind::ServerUnavailable);
    assert_eq!(
        e.message,
        "CoinPaprika API is temporarily unavailable. Try again shortly. (503 Service Unavailable)"
    );
    let e = classify(599, "", true);
    assert_eq!(e.kind, ErrorKind::ServerUnavailable);
    assert_eq!(
        e.message,
        "CoinPaprika API is temporarily unavailable. Try again shortly. (599 <unknown status code>)"
    );
}

#[test]
fn other_statuses_carry_status_and_body() {
    let e = classify(400, "bad", false);
    assert_eq!(e.kind, ErrorKind::Other);
    assert_eq!(e.message, "CoinPaprika API error 400 Bad Request: bad");
    let e = classify(301, "", false);
    assert_eq!(e.kind, ErrorKind::Other);
    assert_eq!(e.message, "CoinPaprika API error 301 Moved Permanently: ");
    let e = classify(600, "x", false);
    assert_eq!(e.kind, ErrorKind::Other);
    assert_eq!(e.message, "CoinPaprika API error 600 <unknown status code>: x");
}

#[test]
fn status_text_is_the_one_of_the_http_crate() {
    for code in 100u16..1000 {
        if (200..300).contains(&code) || code == 402 || code == 403 || code == 404 || code == 429 {
            continue;
        }
        let status = reqwest::StatusCode::from_u16(code).unwrap();
        let e = classify(code, "b", false);
        if (500..600).contains(&code) {
            assert_eq!(
                e.message,
                format!(
                    "CoinPaprika API is temporarily unavailable. Try again shortly. ({})",
                    status
                )
            );
        } else {
            assert_eq!(e.message, format!("CoinPaprika API error {}: b", status));
        }
    }
}

#[test]
fn every_failure_is_an_error() {
    let client = ApiClient::new(None);
    for status in [100u16, 199, 300, 304, 400, 401, 402, 403, 404, 418, 429, 500, 502, 599, 600, 0, 65535] {
        assert!(client.receive(status, String::new()).is_err());
    }
}

#[test]
fn statuses_outside_the_table() {
    let e = classify(0, "", false);
    assert_eq!(e.kind, ErrorKind::Other);
    assert_eq!(e.message, "CoinPaprika API error 0 <unknown status code>: ");
    let e = classify(65535, "", false);
    assert_eq!(e.message, "CoinPaprika API error 65535 <unknown status code>: ");
}

#[test]
fn failures_that_are_not_statuses() {
    let e = coinpaprika_cli::client::ClassifiedError::decode_failure("missing field `id` at line 1 column 2");
    assert_eq!(e.kind, ErrorKind::DecodeFailure);
    assert_eq!(e.message, "missing field `id` at line 1 column 2");
    let e = coinpaprika_cli::client::ClassifiedError::io_failure("connection refused");
    assert_eq!(e.kind, ErrorKind::IoFailure);
    assert_eq!(e.message, "connection refused");
    for status in 0u16..1000 {
        let kind = classify(status, "", false).kind;
        assert_ne!(kind, ErrorKind::DecodeFailure);
        assert_ne!(kind, ErrorKind::IoFailure);
    }
}
