use polymarket_arb_bot::config::{config_path_or_default, Cli, PolymarketConfig, RoundTiming};

fn polymarket(gamma: Option<&str>, clob: Option<&str>) -> PolymarketConfig {
    PolymarketConfig {
        gamma_api_url: gamma.map(|s| s.to_string()),
        clob_api_url: clob.map(|s| s.to_string()),
        private_key: None,
        proxy_wallet: None,
        signature_type: None,
    }
}

#[test]
fn urls_default_when_absent() {
    assert_eq!(PolymarketConfig::gamma_url(&None), "https://gamma-api.polymarket.com");
    assert_eq!(PolymarketConfig::clob_url(&None), "https://clob.polymarket.com");
    let p = Some(polymarket(None, None));
    assert_eq!(PolymarketConfig::gamma_url(&p), "https://gamma-api.polymarket.com");
    assert_eq!(PolymarketConfig::clob_url(&p), "https://clob.polymarket.com");
}

#[test]
fn configured_urls_win() {
    let p = Some(polymarket(Some("http://g.local"), Some("http://c.local")));
    assert_eq!(PolymarketConfig::gamma_url(&p), "http://g.local");
    assert_eq!(PolymarketConfig::clob_url(&p), "http://c.local");
}

#[test]
fn config_path_defaults() {
    assert_eq!(config_path_or_default(&None), "config.json");
    assert_eq!(config_path_or_default(&Some("other.json".to_string())), "other.json");
    let cli = Cli { config: "config.json".to_string(), simulation: true, production: false };
    assert!(cli.simulation && !cli.production);
}

#[test]
fn round_timing_defaults_and_overrides() {
    let d = RoundTiming::from_options(None, None, None, None);
    assert_eq!(d, RoundTiming { timeframe_sec: 900, check_interval_ms: 1000, dump_window_sec: 120, stop_loss_wait_sec: 300 });
    let o = RoundTiming::from_options(Some(5), Some(250), Some(60), Some(90));
    assert_eq!(o, RoundTiming { timeframe_sec: 300, check_interval_ms: 250, dump_window_sec: 60, stop_loss_wait_sec: 90 });
}
