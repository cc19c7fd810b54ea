use domeneshop_mcp::client::{
    DOMAINS_PATH, api_url, check_status, dns_records_path, domain_path, find_domain_id, status_text,
};
use domeneshop_mcp::error::ErrorKind;
use domeneshop_mcp::json::{Json, JsonNumber};

fn obj(fields: Vec<(&str, Json)>) -> Json {
    Json::Object(fields.into_iter().map(|(k, v)| (k.to_string(), v)).collect())
}

fn s(t: &str) -> Json {
    Json::String(t.to_string())
}

fn num(n: i64) -> Json {
    if n >= 0 {
        Json::Number(JsonNumber::PosInt(n as u64))
    } else {
        Json::Number(JsonNumber::NegInt(n))
    }
}

#[test]
fn urls_and_paths() {
    assert_eq!(api_url("https://api.domeneshop.no/v0", DOMAINS_PATH), "https://api.domeneshop.no/v0/domains");
    assert_eq!(domain_path(12), "/domains/12");
    assert_eq!(dns_records_path(12), "/domains/12/dns");
    assert_eq!(api_url("http://x", &dns_records_path(-1)), "http://x/domains/-1/dns");
}

#[test]
fn status_text_is_number_and_reason() {
    assert_eq!(status_text(200), "200 OK");
    assert_eq!(status_text(404), "404 Not Found");
    assert_eq!(status_text(500), "500 Internal Server Error");
    assert_eq!(status_text(599), "599 <unknown status code>");
}

#[test]
fn success_statuses_pass_the_body() {
    assert_eq!(check_status(200, "u", "body".to_string()).unwrap(), "body");
    assert_eq!(check_status(204, "u", String::new()).unwrap(), "");
    assert_eq!(check_status(299, "u", "b".to_string()).unwrap(), "b");
}

#[test]
fn other_statuses_are_internal_errors() {
    let e = check_status(404, "https://api/domains/1", "nope".to_string()).unwrap_err();
    assert_eq!(e.kind, ErrorKind::InternalError);
    assert_eq!(e.message, "Domeneshop API 404 Not Found for https://api/domains/1: nope");
    let e = check_status(199, "u", "b".to_string()).unwrap_err();
    assert_eq!(e.message, "Domeneshop API 199 <unknown status code> for u: b");
    let e = check_status(300, "u", "b".to_string()).unwrap_err();
    assert_eq!(e.message, "Domeneshop API 300 Multiple Choices for u: b");
}

#[test]
fn domain_lookup_matches_exactly() {
    let items = vec![
        obj(vec![("domain", s("sub.example.com")), ("id", num(1))]),
        obj(vec![("domain", s("example.com")), ("id", num(2))]),
        obj(vec![("domain", s("example.com")), ("id", num(3))]),
    ];
    assert_eq!(find_domain_id(&items, "example.com").unwrap(), 2);
    assert_eq!(find_domain_id(&items, "sub.example.com").unwrap(), 1);
    let e = find_domain_id(&items, "example").unwrap_err();
    assert_eq!(e.kind, ErrorKind::InvalidParams);
    assert_eq!(e.message, "domain \"example\" not found");
}

#[test]
fn domain_lookup_takes_the_first_match() {
    let items = vec![
        obj(vec![("domain", s("a.no"))]),
        obj(vec![("domain", s("a.no")), ("id", num(5))]),
    ];
    let e = find_domain_id(&items, "a.no").unwrap_err();
    assert_eq!(e.message, "domain \"a.no\" not found");
}

#[test]
fn domain_lookup_reads_only_integer_ids() {
    let items = vec![
        obj(vec![("domain", s("big.no")), ("id", Json::Number(JsonNumber::PosInt(u64::MAX)))]),
        obj(vec![("domain", s("neg.no")), ("id", num(-4))]),
        obj(vec![("domain", s("txt.no")), ("id", s("9"))]),
        obj(vec![("domain", s("flt.no")), ("id", Json::Number(JsonNumber::Float("1.5".to_string())))]),
        s("not an object"),
        obj(vec![("domain", num(7)), ("id", num(7))]),
    ];
    assert!(find_domain_id(&items, "big.no").is_err());
    assert_eq!(find_domain_id(&items, "neg.no").unwrap(), -4);
    assert!(find_domain_id(&items, "txt.no").is_err());
    assert!(find_domain_id(&items, "flt.no").is_err());
    assert!(find_domain_id(&items, "7").is_err());
    assert!(find_domain_id(&Vec::new(), "x").is_err());
}

#[test]
fn domain_lookup_quotes_the_name() {
    let e = find_domain_id(&Vec::new(), "we\"ird\n").unwrap_err();
    assert_eq!(e.message, format!("domain {:?} not found", "we\"ird\n"));
}

#[test]
fn record_path() {
    assert_eq!(domeneshop_mcp::client::dns_record_path(3, 44), "/domains/3/dns/44");
}
