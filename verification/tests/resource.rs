use domeneshop_mcp::error::ErrorKind;
use domeneshop_mcp::resource::list_dns_records::{
    URI_TEMPLATE, contents, descriptor_for, parse_uri, template, uri_for,
};
use domeneshop_mcp::resource::list_domains::{self, URI};
use domeneshop_mcp::resource::{DomainInfo, ResourceRoute, resource_list, route, templates};

#[test]
fn uri_for_writes_the_record_list_uri() {
    assert_eq!(uri_for(42), "domeneshop://domains/42/dns");
    assert_eq!(uri_for(-3), "domeneshop://domains/-3/dns");
    assert_eq!(uri_for(0), "domeneshop://domains/0/dns");
}

#[test]
fn parse_uri_reads_the_domain_id() {
    assert_eq!(parse_uri("domeneshop://domains/42/dns"), Some(42));
    assert_eq!(parse_uri("domeneshop://domains/+42/dns"), Some(42));
    assert_eq!(parse_uri("domeneshop://domains/-42/dns"), Some(-42));
    assert_eq!(parse_uri("domeneshop://domains/0042/dns"), Some(42));
}

#[test]
fn parse_uri_refuses_other_shapes() {
    for uri in [
        "domeneshop://domains",
        "domeneshop://domains/",
        "domeneshop://domains/dns",
        "domeneshop://domains//dns",
        "domeneshop://domains/42",
        "domeneshop://domains/42/",
        "domeneshop://domains/42/dnsx",
        "domeneshop://domains/42/dns/",
        "domeneshop://domains/4/2/dns",
        "domeneshop://domains/abc/dns",
        "domeneshop://domain/42/dns",
        "https://domains/42/dns",
        "domeneshop://domains/99999999999999999999/dns",
        "",
    ] {
        assert_eq!(parse_uri(uri), None, "uri {:?}", uri);
    }
}

#[test]
fn every_uri_leads_back_to_its_domain() {
    for id in [0i64, 1, 7, 42, 1000, 123456789, -5, i64::MAX, i64::MIN] {
        assert_eq!(parse_uri(&uri_for(id)), Some(id));
        assert_eq!(route(&uri_for(id)).unwrap(), ResourceRoute::DnsRecords(id));
    }
}

#[test]
fn route_resolves_known_uris() {
    assert_eq!(route(URI).unwrap(), ResourceRoute::Domains);
    assert_eq!(route("domeneshop://domains/17/dns").unwrap(), ResourceRoute::DnsRecords(17));
    let e = route("domeneshop://nothing").unwrap_err();
    assert_eq!(e.kind, ErrorKind::ResourceNotFound);
    assert_eq!(e.message, "unknown resource: domeneshop://nothing");
}

#[test]
fn descriptor_for_a_named_domain() {
    let d = descriptor_for(7, Some("example.com"));
    assert_eq!(d.uri, "domeneshop://domains/7/dns");
    assert_eq!(d.name, "dns:example.com");
    assert_eq!(d.title.as_deref(), Some("DNS records for example.com"));
    assert_eq!(d.description.as_deref(), Some("All DNS records on domain id 7"));
    assert_eq!(d.mime_type.as_deref(), Some("application/json"));
}

#[test]
fn descriptor_for_an_unnamed_domain() {
    let d = descriptor_for(-12, None);
    assert_eq!(d.uri, "domeneshop://domains/-12/dns");
    assert_eq!(d.name, "dns:domain");
    assert_eq!(d.title.as_deref(), Some("DNS records for domain"));
    assert_eq!(d.description.as_deref(), Some("All DNS records on domain id -12"));
}

#[test]
fn the_template_and_the_domain_list() {
    let t = template();
    assert_eq!(t.uri_template, URI_TEMPLATE);
    assert_eq!(t.uri_template, "domeneshop://domains/{domainId}/dns");
    assert_eq!(t.name, "dns-records");
    assert_eq!(t.title.as_deref(), Some("DNS records for a domain"));
    assert_eq!(
        t.description.as_deref(),
        Some(
            "JSON array of DNS records for the given domain id. Substitute `{domainId}` with \
             the id from the `domeneshop://domains` resource."
        )
    );
    assert_eq!(templates().len(), 1);
    let d = list_domains::descriptor();
    assert_eq!(d.uri, "domeneshop://domains");
    assert_eq!(d.name, "domains");
    assert_eq!(d.title.as_deref(), Some("All Domeneshop domains"));
    assert_eq!(
        d.description.as_deref(),
        Some(
            "JSON array of all domains on the authenticated account, with id, registrar status, \
             expiry date, and enabled services."
        )
    );
}

#[test]
fn resource_list_without_domains() {
    let list = resource_list(None);
    assert_eq!(list.len(), 1);
    assert_eq!(list[0].uri, URI);
}

#[test]
fn resource_list_names_each_domain_with_an_id() {
    let domains = vec![
        DomainInfo { id: Some(1), domain: Some("a.no".to_string()) },
        DomainInfo { id: None, domain: Some("lost.no".to_string()) },
        DomainInfo { id: Some(3), domain: None },
    ];
    let list = resource_list(Some(domains));
    assert_eq!(list.len(), 3);
    assert_eq!(list[0].uri, URI);
    assert_eq!(list[1].uri, "domeneshop://domains/1/dns");
    assert_eq!(list[1].name, "dns:a.no");
    assert_eq!(list[2].uri, "domeneshop://domains/3/dns");
    assert_eq!(list[2].name, "dns:domain");
    for d in &list[1..] {
        assert!(matches!(route(&d.uri).unwrap(), ResourceRoute::DnsRecords(_)));
    }
}

#[test]
fn contents_wrap_the_body() {
    let c = contents(9, "[]".to_string());
    assert_eq!(c.len(), 1);
    assert_eq!(c[0].uri, "domeneshop://domains/9/dns");
    assert_eq!(c[0].mime_type.as_deref(), Some("application/json"));
    assert_eq!(c[0].text, "[]");
    let c = list_domains::contents("[{}]".to_string());
    assert_eq!(c[0].uri, "domeneshop://domains");
    assert_eq!(c[0].text, "[{}]");
}
