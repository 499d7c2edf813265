use vstd::prelude::*;

verus! {

/// The command line of the bot.
pub struct Cli {
    /// Path of the JSON configuration file.
    pub config: String,
    /// Run against simulated markets.
    pub simulation: bool,
    /// Run against the live market.
    pub production: bool,
}

/// Connection settings for the Polymarket APIs.
pub struct PolymarketConfig {
    pub gamma_api_url: Option<String>,
    pub clob_api_url: Option<String>,
    pub private_key: Option<String>,
    pub proxy_wallet: Option<String>,
    pub signature_type: Option<u8>,
}

/// The round and loop timing, resolved from the optional configuration fields.
#[derive(Clone, Copy, Debug, PartialEq, Eq, Structural)]
pub struct RoundTiming {
    /// Length of a round (one market candle), in seconds.
    pub timeframe_sec: u64,
    /// Pause between two snapshots, in milliseconds.
    pub check_interval_ms: u64,
    /// How long after a round starts a dump may still open a first leg, in seconds.
    pub dump_window_sec: u64,
    /// How long an open first leg waits for a hedge before a stop-loss, in seconds.
    pub stop_loss_wait_sec: u64,
}

/// The default path of the configuration file.
pub open spec fn default_config_path() -> Seq<char> {
    "config.json"@
}

/// The default market-discovery API.
pub open spec fn default_gamma_api_url() -> Seq<char> {
    "https://gamma-api.polymarket.com"@
}

/// The default order-book API.
pub open spec fn default_clob_api_url() -> Seq<char> {
    "https://clob.polymarket.com"@
}

/// The default length of a round, in minutes.
pub const DEFAULT_TIMEFRAME_MINUTES: u32 = 15;

/// The default pause between snapshots, in milliseconds.
pub const DEFAULT_CHECK_INTERVAL_MS: u64 = 1000;

/// The default dump-detection window, in seconds.
pub const DEFAULT_DUMP_WINDOW_SECONDS: u64 = 120;

/// The default stop-loss wait, in seconds.
pub const DEFAULT_STOP_LOSS_WAIT_SECONDS: u64 = 300;

/// The value of an optional string, or `default` when it is absent.
pub open spec fn string_or(v: Option<String>, default: Seq<char>) -> Seq<char> {
    match v {
        Some(s) => s@,
        None => default,
    }
}

/// The configuration file to read: the given path, else `config.json`.
pub fn config_path_or_default(config: &Option<String>) -> (r: String)
    ensures
        r@ == string_or(*config, default_config_path()),
{
    match config {
        Some(p) => p.clone(),
        None => "config.json".to_owned(),
    }
}

impl PolymarketConfig {
    /// The market-discovery API to use: the configured one, else the public default.
    pub fn gamma_url(polymarket: &Option<PolymarketConfig>) -> (r: String)
        ensures
            r@ == match polymarket {
                Some(p) => string_or(p.gamma_api_url, default_gamma_api_url()),
                None => default_gamma_api_url(),
            },
    {
        match polymarket {
            Some(p) => match &p.gamma_api_url {
                Some(u) => u.clone(),
                None => "https://gamma-api.polymarket.com".to_owned(),
            },
            None => "https://gamma-api.polymarket.com".to_owned(),
        }
    }

    /// The order-book API to use: the configured one, else the public default.
    pub fn clob_url(polymarket: &Option<PolymarketConfig>) -> (r: String)
        ensures
            r@ == match polymarket {
                Some(p) => string_or(p.clob_api_url, default_clob_api_url()),
                None => default_clob_api_url(),
            },
    {
        match polymarket {
            Some(p) => match &p.clob_api_url {
                Some(u) => u.clone(),
                None => "https://clob.polymarket.com".to_owned(),
            },
            None => "https://clob.polymarket.com".to_owned(),
        }
    }
}

impl RoundTiming {
    /// Resolves the timing settings, taking the default for each absent one.
    pub fn from_options(
        timeframe_minutes: Option<u32>,
        check_interval_ms: Option<u64>,
        dump_window_seconds: Option<u64>,
        stop_loss_max_wait_seconds: Option<u64>,
    ) -> (r: RoundTiming)
        ensures
            r.timeframe_sec == 60 * match timeframe_minutes {
                Some(m) => m,
                None => DEFAULT_TIMEFRAME_MINUTES,
            },
            r.check_interval_ms == match check_interval_ms {
                Some(v) => v,
                None => DEFAULT_CHECK_INTERVAL_MS,
            },
            r.dump_window_sec == match dump_window_seconds {
                Some(v) => v,
                None => DEFAULT_DUMP_WINDOW_SECONDS,
            },
            r.stop_loss_wait_sec == match stop_loss_max_wait_seconds {
                Some(v) => v,
                None => DEFAULT_STOP_LOSS_WAIT_SECONDS,
            },
    {
        let minutes: u32 = match timeframe_minutes {
            Some(m) => m,
            None => DEFAULT_TIMEFRAME_MINUTES,
        };
        RoundTiming {
            timeframe_sec: (minutes as u64) * 60,
            check_interval_ms: match check_interval_ms {
                Some(v) => v,
                None => DEFAULT_CHECK_INTERVAL_MS,
            },
            dump_window_sec: match dump_window_seconds {
                Some(v) => v,
                None => DEFAULT_DUMP_WINDOW_SECONDS,
            },
            stop_loss_wait_sec: match stop_loss_max_wait_seconds {
                Some(v) => v,
                None => DEFAULT_STOP_LOSS_WAIT_SECONDS,
            },
        }
    }
}

} // verus!
