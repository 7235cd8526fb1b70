use cexarbot::config::{Config, ConfigError, Setting};

#[test]
fn all_settings_present() {
    let c = Config::from_values(Some("k".to_string()), Some("s".to_string()), Some("o".to_string())).unwrap();
    assert_eq!(c.binance_api_key, "k");
    assert_eq!(c.binance_secret_key, "s");
    assert_eq!(c.openai_api_key, "o");
}

#[test]
fn first_missing_setting_is_reported() {
    let r = Config::from_values(None, None, Some("o".to_string()));
    assert_eq!(r.unwrap_err(), ConfigError::Missing(Setting::BinanceApiKey));
    let r = Config::from_values(Some("k".to_string()), Some(String::new()), None);
    assert_eq!(r.unwrap_err(), ConfigError::Missing(Setting::BinanceSecretKey));
    let r = Config::from_values(Some("k".to_string()), Some("s".to_string()), None);
    assert_eq!(r.unwrap_err(), ConfigError::Missing(Setting::OpenAiApiKey));
    assert_eq!(Setting::OpenAiApiKey.variable(), "OPENAI_API_KEY");
}
