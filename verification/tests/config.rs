use lim_backend::config::{
    generate_default_server_config, or_default, parse_bounded, port, session_expiration,
    DEFAULT_PORT,
};
use lim_backend::session::DEFAULT_SESSION_EXPIRATION;

#[test]
fn session_expiration_defaults_to_fourteen_days() {
    assert_eq!(DEFAULT_SESSION_EXPIRATION, 60 * 60 * 24 * 14);
    assert_eq!(session_expiration(None), Some(1_209_600));
    assert_eq!(session_expiration(Some("3600")), Some(3600));
    assert_eq!(session_expiration(Some("0")), Some(0));
    assert_eq!(session_expiration(Some("soon")), None);
    assert_eq!(session_expiration(Some("")), None);
    assert_eq!(session_expiration(Some("18446744073709551615")), Some(u64::MAX));
    assert_eq!(session_expiration(Some("18446744073709551616")), None);
}

#[test]
fn port_defaults_to_8080() {
    assert_eq!(DEFAULT_PORT, 8080);
    assert_eq!(port(None), Some(8080));
    assert_eq!(port(Some("80")), Some(80));
    assert_eq!(port(Some("65535")), Some(65535));
    assert_eq!(port(Some("65536")), None);
    assert_eq!(port(Some("http")), None);
}

#[test]
fn numbers_are_read_as_the_standard_library_reads_them() {
    for text in [
        "0", "7", "+7", "007", "+0", "", "+", "-1", "1 ", " 1", "1_000", "１２", "12a", "++1",
        "4294967296", "18446744073709551615", "18446744073709551616", "99999999999999999999999",
        "0000000000000000000000000000000001",
    ] {
        assert_eq!(parse_bounded(text, u64::MAX), text.parse::<u64>().ok(), "{text:?}");
        assert_eq!(
            parse_bounded(text, 65535).map(|value| value as u16),
            text.parse::<u16>().ok(),
            "{text:?}"
        );
        assert_eq!(
            parse_bounded(text, 255).map(|value| value as u8),
            text.parse::<u8>().ok(),
            "{text:?}"
        );
    }
    assert_eq!(parse_bounded("5", 4), None);
    assert_eq!(parse_bounded("4", 4), Some(4));
    assert_eq!(parse_bounded("0", 0), Some(0));
    assert_eq!(parse_bounded("10", 9), None);
}

#[test]
fn settings_fall_back_where_the_environment_is_silent() {
    let settings = generate_default_server_config(None, None, None, None, None, None);
    assert_eq!(settings.database_name, "limdb");
    assert_eq!(settings.database_user, "limadmin");
    assert_eq!(settings.database_password, "limpassword");
    assert_eq!(settings.database_host, "localhost");
    assert_eq!(settings.cache_url, "redis://127.0.0.1");
    assert_eq!(settings.provisioning_token, None);
}

#[test]
fn settings_take_what_the_environment_gives() {
    let settings = generate_default_server_config(
        Some("db".to_string()),
        Some("me".to_string()),
        Some("pw".to_string()),
        Some("db.internal".to_string()),
        Some("cache.internal:6379".to_string()),
        Some("token".to_string()),
    );
    assert_eq!(settings.database_name, "db");
    assert_eq!(settings.database_user, "me");
    assert_eq!(settings.database_password, "pw");
    assert_eq!(settings.database_host, "db.internal");
    assert_eq!(settings.cache_url, "redis://cache.internal:6379");
    assert_eq!(settings.provisioning_token, Some("token".to_string()));
    assert_eq!(or_default(None, "x"), "x");
    assert_eq!(or_default(Some("y".to_string()), "x"), "y");
}
