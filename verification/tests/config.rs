use domeneshop_mcp::config::{Config, DEFAULT_BASE_URL, DEFAULT_BIND};

#[test]
fn defaults_apply_where_nothing_is_set() {
    let c = Config::from_values(None, None);
    assert_eq!(c.base_url, "https://api.domeneshop.no/v0");
    assert_eq!(c.bind, "127.0.0.1:3000");
    assert_eq!(c.base_url, DEFAULT_BASE_URL);
    assert_eq!(c.bind, DEFAULT_BIND);
}

#[test]
fn set_values_win() {
    let c = Config::from_values(Some("http://localhost:9".to_string()), Some("0.0.0.0:80".to_string()));
    assert_eq!(c.base_url, "http://localhost:9");
    assert_eq!(c.bind, "0.0.0.0:80");
    let c = Config::from_values(None, Some("[::1]:1".to_string()));
    assert_eq!(c.base_url, DEFAULT_BASE_URL);
    assert_eq!(c.bind, "[::1]:1");
}
