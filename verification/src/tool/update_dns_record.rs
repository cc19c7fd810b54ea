//! The tool that replaces an existing DNS record.
use vstd::prelude::*;

use crate::decimal::{i64_text, int_text};
use crate::tool::create_dns_record;
use crate::tool::dns::{
    DataAddresses, RecordType, record_host, record_id, record_ttl, record_type_of,
    spec_build_dns_record, ttl_or_default,
};

verus! {

/// The arguments of an update request.
#[derive(Debug)]
pub struct Params {
    /// Domain name (e.g. `example.com`).
    pub domain: String,
    /// ID of the record to update.
    pub record_id: i64,
    /// DNS record type.
    pub record_type: RecordType,
    /// Host/subdomain.
    pub host: String,
    /// TTL in seconds. Multiple of 60, 60-604800. Defaults to 3600.
    pub ttl: Option<i64>,
    /// Target value (see `create_dns_record` for format per type).
    pub data: String,
    pub priority: Option<i16>,
    pub weight: Option<i16>,
    pub port: Option<i16>,
    pub usage: Option<i16>,
    pub selector: Option<i16>,
    pub matching_type: Option<i16>,
}

/// The create request with the same record fields as update request `p`,
/// on the domain with id `domain_id` that `p.domain` resolved to.
pub open spec fn spec_create_from_update(p: Params, domain_id: i64) -> create_dns_record::Params {
    create_dns_record::Params {
        domain_id,
        record_type: p.record_type,
        host: p.host,
        ttl: p.ttl,
        data: p.data,
        priority: p.priority,
        weight: p.weight,
        port: p.port,
        usage: p.usage,
        selector: p.selector,
        matching_type: p.matching_type,
    }
}

pub fn create_from_update(p: Params, domain_id: i64) -> (r: create_dns_record::Params)
    ensures
        r == spec_create_from_update(p, domain_id),
{
    create_dns_record::Params {
        domain_id,
        record_type: p.record_type,
        host: p.host,
        ttl: p.ttl,
        data: p.data,
        priority: p.priority,
        weight: p.weight,
        port: p.port,
        usage: p.usage,
        selector: p.selector,
        matching_type: p.matching_type,
    }
}

/// An update overwrites every field: the record it sends is the record that
/// a create with the same fields would send, with the updated record's id in
/// place of the new record's 0.
pub proof fn lemma_update_sends_full_record(p: Params, domain_id: i64, addrs: DataAddresses)
    ensures
        spec_build_dns_record(spec_create_from_update(p, domain_id), p.record_id, addrs) matches Some(
            r,
        ) ==> {
            &&& record_type_of(r) == p.record_type
            &&& record_id(r) == p.record_id
            &&& record_host(r) == p.host
            &&& record_ttl(r) == ttl_or_default(p.ttl)
        },
        spec_build_dns_record(spec_create_from_update(p, domain_id), p.record_id, addrs) is Some
            <==> spec_build_dns_record(spec_create_from_update(p, domain_id), 0, addrs) is Some,
{
}

pub open spec fn spec_updated_message(record_id: i64, domain: Seq<char>) -> Seq<char> {
    "Updated DNS record "@ + int_text(record_id as int) + " on domain "@ + domain
}

/// The answer to an update request.
pub fn updated_message(record_id: i64, domain: &str) -> (r: String)
    ensures
        r@ == spec_updated_message(record_id, domain@),
{
    let mut s = "Updated DNS record ".to_owned();
    let id = i64_text(record_id);
    s.append(id.as_str());
    s.append(" on domain ");
    s.append(domain);
    s
}

} // verus!
