use domeneshop_mcp::error::ErrorKind;
use domeneshop_mcp::json::{Json, JsonNumber};
use domeneshop_mcp::tool::create_dns_record::{self, created_message, new_record};
use domeneshop_mcp::tool::delete_dns_record::{self, deleted_message};
use domeneshop_mcp::tool::dns::{
    DataAddresses, DnsRecord, RecordType, build_dns_record, record_type_name, required,
};
use domeneshop_mcp::tool::get_domain::strip_private_fields;
use domeneshop_mcp::tool::list_domains::summarize;
use domeneshop_mcp::tool::update_dns_record::{self, create_from_update, updated_message};

fn no_addrs() -> DataAddresses {
    DataAddresses { ipv4: None, ipv6: None }
}

fn params(t: RecordType, data: &str) -> create_dns_record::Params {
    create_dns_record::Params {
        domain_id: 1,
        record_type: t,
        host: "www".to_string(),
        ttl: None,
        data: data.to_string(),
        priority: None,
        weight: None,
        port: None,
        usage: None,
        selector: None,
        matching_type: None,
    }
}

#[test]
fn a_record_needs_an_ipv4_address() {
    let a = DataAddresses { ipv4: Some([192, 0, 2, 1]), ipv6: None };
    let r = build_dns_record(params(RecordType::A, "192.0.2.1"), 7, &a).unwrap();
    assert_eq!(r, DnsRecord::A { host: "www".to_string(), id: 7, ttl: 3600, data: [192, 0, 2, 1] });
    let e = build_dns_record(params(RecordType::A, "nope"), 7, &no_addrs()).unwrap_err();
    assert_eq!(e.kind, ErrorKind::InvalidParams);
    assert_eq!(e.message, "`data` must be a valid IPv4 address, got \"nope\"");
}

#[test]
fn aaaa_record_needs_an_ipv6_address() {
    let a = DataAddresses { ipv4: None, ipv6: Some([0x2001, 0xdb8, 0, 0, 0, 0, 0, 1]) };
    let mut p = params(RecordType::Aaaa, "2001:db8::1");
    p.ttl = Some(60);
    let r = build_dns_record(p, 0, &a).unwrap();
    assert_eq!(
        r,
        DnsRecord::Aaaa { host: "www".to_string(), id: 0, ttl: 60, data: [0x2001, 0xdb8, 0, 0, 0, 0, 0, 1] }
    );
    let e = build_dns_record(params(RecordType::Aaaa, "1.2.3.4"), 0, &no_addrs()).unwrap_err();
    assert_eq!(e.message, "`data` must be a valid IPv6 address, got \"1.2.3.4\"");
}

#[test]
fn text_records_take_the_data_as_it_is() {
    let r = build_dns_record(params(RecordType::Cname, "target.example."), 3, &no_addrs()).unwrap();
    assert_eq!(r, DnsRecord::Cname { host: "www".to_string(), id: 3, ttl: 3600, data: "target.example.".to_string() });
    let r = build_dns_record(params(RecordType::Txt, "v=spf1 -all"), 3, &no_addrs()).unwrap();
    assert_eq!(r, DnsRecord::Txt { host: "www".to_string(), id: 3, ttl: 3600, data: "v=spf1 -all".to_string() });
}

#[test]
fn mx_needs_a_priority() {
    let e = build_dns_record(params(RecordType::Mx, "mx.no"), 0, &no_addrs()).unwrap_err();
    assert_eq!(e.kind, ErrorKind::InvalidParams);
    assert_eq!(e.message, "`priority` is required for MX records");
    let mut p = params(RecordType::Mx, "mx.no");
    p.priority = Some(10);
    let r = build_dns_record(p, 0, &no_addrs()).unwrap();
    assert_eq!(r, DnsRecord::Mx { host: "www".to_string(), id: 0, ttl: 3600, data: "mx.no".to_string(), priority: 10 });
}

#[test]
fn srv_needs_priority_weight_and_port_in_that_order() {
    let mut p = params(RecordType::Srv, "sip.no");
    p.weight = Some(1);
    p.port = Some(5060);
    assert_eq!(build_dns_record(p, 0, &no_addrs()).unwrap_err().message, "`priority` is required for SRV records");
    let mut p = params(RecordType::Srv, "sip.no");
    p.priority = Some(1);
    p.port = Some(5060);
    assert_eq!(build_dns_record(p, 0, &no_addrs()).unwrap_err().message, "`weight` is required for SRV records");
    let mut p = params(RecordType::Srv, "sip.no");
    p.priority = Some(1);
    p.weight = Some(2);
    assert_eq!(build_dns_record(p, 0, &no_addrs()).unwrap_err().message, "`port` is required for SRV records");
    let mut p = params(RecordType::Srv, "sip.no");
    p.priority = Some(1);
    p.weight = Some(2);
    p.port = Some(5060);
    let r = build_dns_record(p, 4, &no_addrs()).unwrap();
    assert_eq!(
        r,
        DnsRecord::Srv { host: "www".to_string(), id: 4, ttl: 3600, data: "sip.no".to_string(), priority: 1, weight: 2, port: 5060 }
    );
}

#[test]
fn tlsa_needs_usage_selector_and_matching_type() {
    let p = params(RecordType::Tlsa, "abcd");
    assert_eq!(build_dns_record(p, 0, &no_addrs()).unwrap_err().message, "`usage` is required for TLSA records");
    let mut p = params(RecordType::Tlsa, "abcd");
    p.usage = Some(3);
    assert_eq!(build_dns_record(p, 0, &no_addrs()).unwrap_err().message, "`selector` is required for TLSA records");
    let mut p = params(RecordType::Tlsa, "abcd");
    p.usage = Some(3);
    p.selector = Some(1);
    assert_eq!(build_dns_record(p, 0, &no_addrs()).unwrap_err().message, "`matching_type` is required for TLSA records");
    let mut p = params(RecordType::Tlsa, "abcd");
    p.usage = Some(3);
    p.selector = Some(1);
    p.matching_type = Some(1);
    p.ttl = Some(120);
    let r = build_dns_record(p, 0, &no_addrs()).unwrap();
    assert_eq!(
        r,
        DnsRecord::Tlsa { host: "www".to_string(), id: 0, ttl: 120, data: "abcd".to_string(), usage: 3, selector: 1, dtype: 1 }
    );
}

#[test]
fn new_records_carry_id_zero() {
    let r = new_record(params(RecordType::Txt, "x"), &no_addrs()).unwrap();
    assert_eq!(r, DnsRecord::Txt { host: "www".to_string(), id: 0, ttl: 3600, data: "x".to_string() });
}

#[test]
fn update_overwrites_every_field() {
    let u = update_dns_record::Params {
        domain: "a.no".to_string(),
        record_id: 99,
        record_type: RecordType::Mx,
        host: "@".to_string(),
        ttl: Some(300),
        data: "mx.a.no".to_string(),
        priority: Some(5),
        weight: Some(6),
        port: Some(7),
        usage: Some(8),
        selector: Some(9),
        matching_type: Some(10),
    };
    let c = create_from_update(u, 12);
    assert_eq!(c.domain_id, 12);
    assert_eq!(c.record_type, RecordType::Mx);
    assert_eq!(c.host, "@");
    assert_eq!(c.ttl, Some(300));
    assert_eq!(c.data, "mx.a.no");
    assert_eq!((c.priority, c.weight, c.port), (Some(5), Some(6), Some(7)));
    assert_eq!((c.usage, c.selector, c.matching_type), (Some(8), Some(9), Some(10)));
    let r = build_dns_record(c, 99, &no_addrs()).unwrap();
    assert_eq!(r, DnsRecord::Mx { host: "@".to_string(), id: 99, ttl: 300, data: "mx.a.no".to_string(), priority: 5 });
}

#[test]
fn answers_of_the_tools() {
    assert_eq!(
        created_message(RecordType::Aaaa, "www", 5, Some(17)),
        "Created Aaaa record for host \"www\" on domain 5 (id: 17)"
    );
    assert_eq!(
        created_message(RecordType::Txt, "@", 5, None),
        "Created Txt record for host \"@\" on domain 5 (id: unknown)"
    );
    assert_eq!(updated_message(99, "a.no"), "Updated DNS record 99 on domain a.no");
    let d = delete_dns_record::Params { domain_id: 5, record_id: 17 };
    assert_eq!(deleted_message(&d), "Deleted DNS record 17 from domain 5");
}

#[test]
fn record_type_names_follow_debug() {
    for t in [RecordType::A, RecordType::Aaaa, RecordType::Cname, RecordType::Mx, RecordType::Srv, RecordType::Tlsa, RecordType::Txt] {
        assert_eq!(record_type_name(t), format!("{:?}", t));
    }
}

fn obj(fields: Vec<(&str, Json)>) -> Json {
    Json::Object(fields.into_iter().map(|(k, v)| (k.to_string(), v)).collect())
}

#[test]
fn get_domain_leaves_out_private_members() {
    let doc = obj(vec![
        ("domain", Json::String("a.no".to_string())),
        ("id", Json::Number(JsonNumber::PosInt(1))),
        ("registrant", Json::String("Ola".to_string())),
        ("renew", Json::Bool(true)),
        ("services", Json::Object(vec![])),
        ("status", Json::String("active".to_string())),
    ]);
    let expected = obj(vec![
        ("domain", Json::String("a.no".to_string())),
        ("id", Json::Number(JsonNumber::PosInt(1))),
        ("status", Json::String("active".to_string())),
    ]);
    assert_eq!(strip_private_fields(doc), expected);
    assert_eq!(strip_private_fields(Json::Null), Json::Null);
    assert_eq!(
        strip_private_fields(Json::Array(vec![obj(vec![("renew", Json::Null)])])),
        Json::Array(vec![obj(vec![("renew", Json::Null)])])
    );
}

#[test]
fn list_domains_gives_id_and_domain_pairs() {
    let items = vec![
        obj(vec![("domain", Json::String("a.no".to_string())), ("id", Json::Number(JsonNumber::PosInt(1)))]),
        obj(vec![("id", Json::Number(JsonNumber::PosInt(2)))]),
        Json::Null,
        obj(vec![("domain", Json::Number(JsonNumber::PosInt(3)))]),
        obj(vec![("domain", Json::String("b\"q.no".to_string()))]),
        obj(vec![("id", Json::Number(JsonNumber::NegInt(-6))), ("domain", Json::String("c.no".to_string()))]),
    ];
    assert_eq!(
        summarize(&items).unwrap(),
        "[{\"id\":1,\"domain\":\"a.no\"},{\"id\":null,\"domain\":\"b\\\"q.no\"},{\"id\":-6,\"domain\":\"c.no\"}]"
    );
    assert_eq!(summarize(&Vec::new()).unwrap(), "[]");
    assert_eq!(summarize(&vec![Json::Null]).unwrap(), "[]");
}

#[test]
fn required_gives_the_value_or_names_the_field() {
    assert_eq!(required(Some(7i16), "port", "SRV").unwrap(), 7);
    let e = required::<i16>(None, "weight", "SRV").unwrap_err();
    assert_eq!(e.kind, ErrorKind::InvalidParams);
    assert_eq!(e.message, "`weight` is required for SRV records");
}

#[test]
fn list_domains_escapes_names_as_json() {
    let name = "a\\b\"c\u{8}\t\n\u{c}\r\u{1}\u{1f}\u{7f}é";
    let items = vec![obj(vec![("domain", Json::String(name.to_string()))])];
    let expected = format!("[{{\"id\":null,\"domain\":{}}}]", serde_json::to_string(name).unwrap());
    assert_eq!(summarize(&items).unwrap(), expected);
    assert_eq!(
        summarize(&items).unwrap(),
        "[{\"id\":null,\"domain\":\"a\\\\b\\\"c\\b\\t\\n\\f\\r\\u0001\\u001f\u{7f}é\"}]"
    );
}
