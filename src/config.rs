//! Credentials, given once at startup.
use vstd::prelude::*;

verus! {

/// The credentials of the exchange and of the prediction service.
#[derive(Clone, Debug)]
pub struct Config {
    pub binance_api_key: String,
    pub binance_secret_key: String,
    pub openai_api_key: String,
}

/// A setting that the process cannot start without.
#[derive(Clone, Copy, Debug, PartialEq, Eq, Structural)]
pub enum Setting {
    BinanceApiKey,
    BinanceSecretKey,
    OpenAiApiKey,
}

/// A required setting is absent or empty.
#[derive(Clone, Copy, Debug, PartialEq, Eq, Structural)]
pub enum ConfigError {
    Missing(Setting),
}

pub open spec fn variable_name(s: Setting) -> Seq<char> {
    match s {
        Setting::BinanceApiKey => "BINANCE_API_KEY"@,
        Setting::BinanceSecretKey => "BINANCE_SECRET_KEY"@,
        Setting::OpenAiApiKey => "OPENAI_API_KEY"@,
    }
}

impl Setting {
    /// The environment variable that holds the setting.
    pub fn variable(&self) -> (r: &'static str)
        ensures
            r@ == variable_name(*self),
    {
        match self {
            Setting::BinanceApiKey => "BINANCE_API_KEY",
            Setting::BinanceSecretKey => "BINANCE_SECRET_KEY",
            Setting::OpenAiApiKey => "OPENAI_API_KEY",
        }
    }
}

pub open spec fn present(v: Option<String>) -> bool {
    v is Some && v->Some_0@.len() > 0
}

fn is_present(v: &Option<String>) -> (r: bool)
    ensures
        r == present(*v),
{
    match v {
        Some(s) => s.unicode_len() > 0,
        None => false,
    }
}

impl Config {
    /// Builds the configuration from the values found for each setting.
    /// The first setting, in declaration order, that is absent or empty is
    /// reported.
    pub fn from_values(
        binance_api_key: Option<String>,
        binance_secret_key: Option<String>,
        openai_api_key: Option<String>,
    ) -> (r: Result<Config, ConfigError>)
        ensures
            !present(binance_api_key) ==> r == Err::<Config, ConfigError>(
                ConfigError::Missing(Setting::BinanceApiKey),
            ),
            present(binance_api_key) && !present(binance_secret_key) ==> r == Err::<
                Config,
                ConfigError,
            >(ConfigError::Missing(Setting::BinanceSecretKey)),
            present(binance_api_key) && present(binance_secret_key) && !present(openai_api_key)
                ==> r == Err::<Config, ConfigError>(ConfigError::Missing(Setting::OpenAiApiKey)),
            present(binance_api_key) && present(binance_secret_key) && present(openai_api_key)
                ==> r == Ok::<Config, ConfigError>(
                Config {
                    binance_api_key: binance_api_key->Some_0,
                    binance_secret_key: binance_secret_key->Some_0,
                    openai_api_key: openai_api_key->Some_0,
                },
            ),
    {
        if !is_present(&binance_api_key) {
            return Err(ConfigError::Missing(Setting::BinanceApiKey));
        }
        if !is_present(&binance_secret_key) {
            return Err(ConfigError::Missing(Setting::BinanceSecretKey));
        }
        if !is_present(&openai_api_key) {
            return Err(ConfigError::Missing(Setting::OpenAiApiKey));
        }
        match (binance_api_key, binance_secret_key, openai_api_key) {
            (Some(a), Some(b), Some(c)) => Ok(
                Config { binance_api_key: a, binance_secret_key: b, openai_api_key: c },
            ),
            _ => Err(ConfigError::Missing(Setting::BinanceApiKey)),
        }
    }
}

} // verus!
