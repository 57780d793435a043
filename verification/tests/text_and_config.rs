use trestle::config::{
    default_host, default_language, default_log_level, default_port, default_retention_days,
    default_theme, default_true, Config, LoggingConfig, ServerConfig, UiConfig, DEFAULT_HOST,
    DEFAULT_PORT,
};
use trestle::error::TrestleError;
use trestle::text::{parse_u16, u64_to_decimal};

#[test]
fn decimal_rendering() {
    assert_eq!(u64_to_decimal(0), "0");
    assert_eq!(u64_to_decimal(7), "7");
    assert_eq!(u64_to_decimal(31415), "31415");
    assert_eq!(u64_to_decimal(u64::MAX), "18446744073709551615");
}

#[test]
fn u16_parsing_follows_std() {
    for s in ["0", "1", "+7", "0007", "65535", "31415"] {
        assert_eq!(parse_u16(s), s.parse::<u16>().ok(), "{}", s);
    }
    for s in ["", "+", "-1", "65536", "1 ", " 1", "12a", "٣", "99999999999"] {
        assert_eq!(parse_u16(s), None, "{}", s);
        assert_eq!(s.parse::<u16>().ok(), None, "{}", s);
    }
}

#[test]
fn parse_reads_back_decimal() {
    for n in [0u16, 1, 9, 10, 99, 100, 31415, 65535] {
        assert_eq!(parse_u16(&u64_to_decimal(n as u64)), Some(n));
    }
}

#[test]
fn field_defaults() {
    assert_eq!(default_host(), "localhost");
    assert_eq!(DEFAULT_HOST, "localhost");
    assert_eq!(default_port(), 31415);
    assert_eq!(DEFAULT_PORT, 31415);
    assert_eq!(default_theme(), "system");
    assert_eq!(default_language(), "zh-CN");
    assert!(default_true());
    assert_eq!(default_log_level(), "info");
    assert_eq!(default_retention_days(), 7);
}

#[test]
fn section_defaults() {
    let c = Config::default();
    assert_eq!(c.server.host, "localhost");
    assert_eq!(c.server.port, 31415);
    assert_eq!(c.ui.theme, "system");
    assert_eq!(c.ui.language, "");
    assert!(!c.ui.auto_start);
    assert!(!c.ui.minimize_to_tray);
    assert_eq!(c.logging.level, "info");
    assert_eq!(c.logging.retention_days, 7);
    let u = UiConfig::default();
    assert_eq!(u.theme, "system");
    assert!(["light", "dark", "system"].contains(&u.theme.as_str()));
    let l = LoggingConfig::default();
    assert_eq!(l.retention_days, 7);
}

#[test]
fn listen_address() {
    let s = ServerConfig { host: "127.0.0.1".to_string(), port: 8080 };
    assert_eq!(s.listen_address(), "127.0.0.1:8080");
    assert_eq!(ServerConfig::default().listen_address(), "localhost:31415");
}

#[test]
fn error_messages() {
    assert_eq!(TrestleError::Config("x".to_string()).message(), "配置错误: x");
    assert_eq!(TrestleError::Request("x".to_string()).message(), "请求错误: x");
    assert_eq!(TrestleError::Upstream("HTTP 500".to_string()).message(), "上游服务错误: HTTP 500");
    assert_eq!(TrestleError::Route("r".to_string()).message(), "路由错误: r");
    assert_eq!(TrestleError::Serialization("s".to_string()).message(), "序列化错误: s");
    assert_eq!(TrestleError::Io("i".to_string()).message(), "IO 错误: i");
    assert_eq!(TrestleError::Http("h".to_string()).message(), "HTTP 错误: h");
}
