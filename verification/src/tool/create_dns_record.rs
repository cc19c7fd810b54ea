//! The tool that creates a DNS record on a domain.
use vstd::prelude::*;

use crate::decimal::{i64_text, int_text};
use crate::error::ServiceError;
use crate::text::{debug_quoted, debug_text};
use crate::tool::dns::{
    DataAddresses, DnsRecord, RecordType, build_dns_record, record_type_name,
    spec_build_dns_record, spec_build_error, spec_record_type_name,
};

verus! {

/// The arguments of a create request.
#[derive(Debug)]
pub struct Params {
    /// Domain ID (from `list_domains`).
    pub domain_id: i64,
    /// DNS record type.
    pub record_type: RecordType,
    /// Host/subdomain. Use "@" for apex, "*" for wildcard, or a name like "www".
    pub host: String,
    /// TTL in seconds. Must be a multiple of 60, between 60 and 604800. Defaults to 3600.
    pub ttl: Option<i64>,
    /// Target value. IPv4 for A, IPv6 for AAAA, hostname for CNAME/MX/SRV,
    /// free text for TXT, or the hex hash for TLSA.
    pub data: String,
    /// MX/SRV priority (preference). Required for those types.
    pub priority: Option<i16>,
    /// SRV weight. Required for SRV only.
    pub weight: Option<i16>,
    /// SRV port. Required for SRV only.
    pub port: Option<i16>,
    /// TLSA usage field. Required for TLSA only.
    pub usage: Option<i16>,
    /// TLSA selector. Required for TLSA only.
    pub selector: Option<i16>,
    /// TLSA matching type (aka dtype). Required for TLSA only.
    pub matching_type: Option<i16>,
}

/// The record that a create request sends: a new record carries id 0.
pub fn new_record(p: Params, addrs: &DataAddresses) -> (r: Result<DnsRecord, ServiceError>)
    ensures
        match spec_build_dns_record(p, 0, *addrs) {
            Some(record) => r == Ok::<DnsRecord, ServiceError>(record),
            None => r matches Err(e) && e.is(
                crate::error::ErrorKind::InvalidParams,
                spec_build_error(p),
            ),
        },
{
    build_dns_record(p, 0, addrs)
}

/// The answer to a create request, given the id the API gave the new record
/// (`None` where it gave none).
pub open spec fn spec_created_message(
    record_type: RecordType,
    host: Seq<char>,
    domain_id: i64,
    id: Option<i64>,
) -> Seq<char> {
    "Created "@ + spec_record_type_name(record_type) + " record for host "@ + debug_text(host)
        + " on domain "@ + int_text(domain_id as int) + " (id: "@ + match id {
        Some(v) => int_text(v as int),
        None => "unknown"@,
    } + ")"@
}

pub fn created_message(record_type: RecordType, host: &str, domain_id: i64, id: Option<i64>) -> (r:
    String)
    ensures
        r@ == spec_created_message(record_type, host@, domain_id, id),
{
    let mut s = "Created ".to_owned();
    s.append(record_type_name(record_type));
    s.append(" record for host ");
    let quoted = debug_quoted(host);
    s.append(quoted.as_str());
    s.append(" on domain ");
    let d = i64_text(domain_id);
    s.append(d.as_str());
    s.append(" (id: ");
    match id {
        Some(v) => {
            let t = i64_text(v);
            s.append(t.as_str());
        },
        None => s.append("unknown"),
    }
    s.append(")");
    s
}

} // verus!
