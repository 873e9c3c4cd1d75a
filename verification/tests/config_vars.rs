use tg_ai_bot_rust::config::{Config, ConfigError};

fn s(v: &str) -> Option<String> {
    Some(v.to_string())
}

#[test]
fn full_settings_are_kept() {
    let cfg = Config::from_vars(s("tok"), s("mybot"), s("-100123"), s("postgres://db"), s("redis://r/"))
        .unwrap();
    assert_eq!(cfg.telegram_token, "tok");
    assert_eq!(cfg.telegram_bot_username, "mybot");
    assert_eq!(cfg.allowed_group_id, -100123);
    assert_eq!(cfg.database_dsn, "postgres://db");
    assert_eq!(cfg.redis_url, "redis://r/");
}

#[test]
fn defaults_fill_optional_settings() {
    let cfg = Config::from_vars(s("tok"), None, None, s("dsn"), None).unwrap();
    assert_eq!(cfg.telegram_bot_username, "");
    assert_eq!(cfg.allowed_group_id, 0);
    assert_eq!(cfg.redis_url, "redis://127.0.0.1/");
}

#[test]
fn malformed_group_id_is_zero() {
    for g in ["", "abc", " 12", "12 ", "1_000", "+", "-", "99999999999999999999", "0x10"] {
        let cfg = Config::from_vars(s("tok"), None, s(g), s("dsn"), None).unwrap();
        assert_eq!(cfg.allowed_group_id, 0, "{:?}", g);
    }
}

#[test]
fn group_id_parses_like_std() {
    for g in ["0", "+7", "-0", "42", "-9223372036854775808", "9223372036854775807", "9223372036854775808", "-9223372036854775809", "007"] {
        let cfg = Config::from_vars(s("tok"), None, s(g), s("dsn"), None).unwrap();
        assert_eq!(cfg.allowed_group_id, g.parse::<i64>().unwrap_or(0), "{:?}", g);
    }
}

#[test]
fn missing_token_is_reported_first() {
    assert_eq!(
        Config::from_vars(None, None, None, None, None).unwrap_err(),
        ConfigError::MissingTelegramToken
    );
    assert_eq!(
        Config::from_vars(None, s("u"), s("1"), s("dsn"), s("r")).unwrap_err(),
        ConfigError::MissingTelegramToken
    );
}

#[test]
fn missing_dsn_is_reported() {
    assert_eq!(
        Config::from_vars(s("tok"), s("u"), s("1"), None, s("r")).unwrap_err(),
        ConfigError::MissingDatabaseDsn
    );
}
