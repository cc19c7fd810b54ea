//! The resource that lists the DNS records of one domain, addressed by
//! `domeneshop://domains/{domainId}/dns`.
use vstd::prelude::*;

use crate::decimal::{
    i64_text, int_text, lemma_nat_digits, lemma_parse_int_text, nat_digits, parse_i64,
    parse_i64_text,
};
use crate::resource::{
    JSON_MIME, ResourceDescriptor, ResourceDescriptorView, ResourceTemplateDescriptor,
    ResourceTemplateView, TextContents, TextContentsView,
};
use crate::text::{contains_char_between, ends_with, has_prefix, has_suffix, starts_with};

verus! {

pub const URI_TEMPLATE: &'static str = "domeneshop://domains/{domainId}/dns";

/// What every record-list URI begins with.
pub const URI_PREFIX: &'static str = "domeneshop://domains/";

/// What every record-list URI ends with.
pub const URI_SUFFIX: &'static str = "/dns";

/// The URI of the record list of domain `domain_id`.
pub open spec fn spec_uri_for(domain_id: int) -> Seq<char> {
    URI_PREFIX@ + int_text(domain_id) + URI_SUFFIX@
}

/// The text that stands for the domain id in `uri`: what follows the prefix
/// `domeneshop://domains/` up to the first `/`, where that `/` begins the
/// final `/dns` (so the text holds no `/`); `None` where `uri` has no such shape.
pub open spec fn uri_id_text(uri: Seq<char>) -> Option<Seq<char>> {
    let p = URI_PREFIX@;
    let q = URI_SUFFIX@;
    if uri.len() >= p.len() + q.len() && has_prefix(uri, p) && has_suffix(uri, q) && !uri.subrange(
        p.len() as int,
        uri.len() - q.len(),
    ).contains('/') {
        Some(uri.subrange(p.len() as int, uri.len() - q.len()))
    } else {
        None
    }
}

/// The domain id that `uri` names: its id text read as an `i64`.
pub open spec fn spec_parse_uri(uri: Seq<char>) -> Option<i64> {
    match uri_id_text(uri) {
        Some(t) => parse_i64_text(t),
        None => None,
    }
}

pub fn uri_for(domain_id: i64) -> (r: String)
    ensures
        r@ == spec_uri_for(domain_id as int),
{
    let mut s = URI_PREFIX.to_owned();
    let id = i64_text(domain_id);
    s.append(id.as_str());
    s.append(URI_SUFFIX);
    s
}

/// Parse a URI like `domeneshop://domains/42/dns` and return the domain id.
pub fn parse_uri(uri: &str) -> (r: Option<i64>)
    ensures
        r == spec_parse_uri(uri@),
{
    let n = uri.unicode_len();
    let pl = URI_PREFIX.unicode_len();
    let ql = URI_SUFFIX.unicode_len();
    if n < ql || n - ql < pl {
        return None;
    }
    if !starts_with(uri, URI_PREFIX) || !ends_with(uri, URI_SUFFIX) {
        return None;
    }
    if contains_char_between(uri, '/', pl, n - ql) {
        return None;
    }
    let id = uri.substring_char(pl, n - ql);
    parse_i64(id)
}

/// Every record-list URI names the domain it was made for.
pub proof fn lemma_parse_uri_for(domain_id: i64)
    ensures
        spec_parse_uri(spec_uri_for(domain_id as int)) == Some(domain_id),
{
    let p = URI_PREFIX@;
    let q = URI_SUFFIX@;
    let t = int_text(domain_id as int);
    let uri = spec_uri_for(domain_id as int);
    assert(uri.take(p.len() as int) =~= p);
    assert(uri.skip(uri.len() - q.len()) =~= q);
    assert(uri.subrange(p.len() as int, uri.len() - q.len()) =~= t);
    let m: nat = if domain_id < 0 {
        (-(domain_id as int)) as nat
    } else {
        domain_id as nat
    };
    lemma_nat_digits(m);
    assert(!t.contains('/')) by {
        if t.contains('/') {
            let k = choose|k: int| 0 <= k < t.len() && t[k] == '/';
            if domain_id < 0 {
                assert(t[k] == '-' || t[k] == nat_digits(m)[k - 1]);
            } else {
                assert(t[k] == nat_digits(m)[k]);
            }
        }
    }
    lemma_parse_int_text(domain_id);
}

/// Distinct domains have distinct record-list URIs.
pub proof fn lemma_uri_for_injective(a: i64, b: i64)
    ensures
        spec_uri_for(a as int) == spec_uri_for(b as int) ==> a == b,
{
    lemma_parse_uri_for(a);
    lemma_parse_uri_for(b);
}

/// The descriptor of the record list of domain `domain_id`, labelled with
/// `display_name` or else with the word `domain`.
pub open spec fn spec_descriptor_for(
    domain_id: int,
    display_name: Option<Seq<char>>,
) -> ResourceDescriptorView {
    let label = match display_name {
        Some(n) => n,
        None => "domain"@,
    };
    ResourceDescriptorView {
        uri: spec_uri_for(domain_id),
        name: "dns:"@ + label,
        title: Some("DNS records for "@ + label),
        description: Some("All DNS records on domain id "@ + int_text(domain_id)),
        mime_type: Some(JSON_MIME@),
    }
}

pub open spec fn spec_template() -> ResourceTemplateView {
    ResourceTemplateView {
        uri_template: URI_TEMPLATE@,
        name: "dns-records"@,
        title: Some("DNS records for a domain"@),
        description: Some(
            "JSON array of DNS records for the given domain id. Substitute `{domainId}` \
             with the id from the `domeneshop://domains` resource."@,
        ),
        mime_type: Some(JSON_MIME@),
    }
}

pub fn template() -> (r: ResourceTemplateDescriptor)
    ensures
        r@ == spec_template(),
{
    ResourceTemplateDescriptor {
        uri_template: URI_TEMPLATE.to_owned(),
        name: "dns-records".to_owned(),
        title: Some("DNS records for a domain".to_owned()),
        description: Some(
            "JSON array of DNS records for the given domain id. Substitute `{domainId}` \
             with the id from the `domeneshop://domains` resource.".to_owned(),
        ),
        mime_type: Some(JSON_MIME.to_owned()),
    }
}

pub fn descriptor_for(domain_id: i64, display_name: Option<&str>) -> (r: ResourceDescriptor)
    ensures
        r@ == spec_descriptor_for(
            domain_id as int,
            match display_name {
                Some(s) => Some(s@),
                None => None,
            },
        ),
{
    let uri = uri_for(domain_id);
    let label = match display_name {
        Some(s) => s,
        None => "domain",
    };
    let mut name = "dns:".to_owned();
    name.append(label);
    let mut title = "DNS records for ".to_owned();
    title.append(label);
    let mut description = "All DNS records on domain id ".to_owned();
    let id = i64_text(domain_id);
    description.append(id.as_str());
    ResourceDescriptor {
        uri,
        name,
        title: Some(title),
        description: Some(description),
        mime_type: Some(JSON_MIME.to_owned()),
    }
}

/// The contents read from the record list of domain `domain_id`: the upstream
/// JSON text `body`, unchanged.
pub fn contents(domain_id: i64, body: String) -> (r: Vec<TextContents>)
    ensures
        r@.len() == 1,
        r@[0]@ == (TextContentsView {
            uri: spec_uri_for(domain_id as int),
            mime_type: Some(JSON_MIME@),
            text: body@,
        }),
{
    let mut v = Vec::new();
    v.push(TextContents { uri: uri_for(domain_id), mime_type: Some(JSON_MIME.to_owned()), text: body });
    v
}

} // verus!
