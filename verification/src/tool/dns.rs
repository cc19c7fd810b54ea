//! The DNS records that the tools send upstream, and how a flat tool request
//! becomes one.
use vstd::prelude::*;

use crate::error::{ErrorKind, ServiceError};
use crate::text::{debug_quoted, debug_text};
use crate::tool::create_dns_record;

verus! {

/// The kinds of DNS record the tools handle.
#[derive(Clone, Copy, Debug, PartialEq, Eq, Structural)]
pub enum RecordType {
    A,
    Aaaa,
    Cname,
    Mx,
    Srv,
    Tlsa,
    Txt,
}

/// How `Debug` writes a record type: the variant's name.
pub open spec fn spec_record_type_name(t: RecordType) -> Seq<char> {
    match t {
        RecordType::A => "A"@,
        RecordType::Aaaa => "Aaaa"@,
        RecordType::Cname => "Cname"@,
        RecordType::Mx => "Mx"@,
        RecordType::Srv => "Srv"@,
        RecordType::Tlsa => "Tlsa"@,
        RecordType::Txt => "Txt"@,
    }
}

pub fn record_type_name(t: RecordType) -> (r: &'static str)
    ensures
        r@ == spec_record_type_name(t),
{
    match t {
        RecordType::A => "A",
        RecordType::Aaaa => "Aaaa",
        RecordType::Cname => "Cname",
        RecordType::Mx => "Mx",
        RecordType::Srv => "Srv",
        RecordType::Tlsa => "Tlsa",
        RecordType::Txt => "Txt",
    }
}

/// What the `data` of a request reads as where it is an IP address: its
/// four octets as `Ipv4Addr` parses it, and its eight segments as `Ipv6Addr`
/// parses it (`None` where that parse fails).
#[derive(Clone, Copy, Debug)]
pub struct DataAddresses {
    pub ipv4: Option<[u8; 4]>,
    pub ipv6: Option<[u16; 8]>,
}

/// A DNS record as the API takes it.
#[derive(Debug, PartialEq)]
#[allow(inconsistent_fields)]
pub enum DnsRecord {
    A { host: String, id: i64, ttl: i64, data: [u8; 4] },
    Aaaa { host: String, id: i64, ttl: i64, data: [u16; 8] },
    Cname { host: String, id: i64, ttl: i64, data: String },
    Mx { host: String, id: i64, ttl: i64, data: String, priority: i16 },
    Srv {
        host: String,
        id: i64,
        ttl: i64,
        data: String,
        priority: i16,
        weight: i16,
        port: i16,
    },
    Tlsa {
        host: String,
        id: i64,
        ttl: i64,
        data: String,
        usage: i16,
        selector: i16,
        dtype: i16,
    },
    Txt { host: String, id: i64, ttl: i64, data: String },
}

/// The TTL of a request, 3600 seconds where it gives none.
pub open spec fn ttl_or_default(ttl: Option<i64>) -> i64 {
    match ttl {
        Some(t) => t,
        None => 3600,
    }
}

pub open spec fn required_message(field: Seq<char>, record_type: Seq<char>) -> Seq<char> {
    "`"@ + field + "` is required for "@ + record_type + " records"@
}

pub open spec fn address_message(family: Seq<char>, data: Seq<char>) -> Seq<char> {
    "`data` must be a valid "@ + family + " address, got "@ + debug_text(data)
}

/// The record that request `p` describes, with record id `id`: the fields
/// of its type taken from `p`; `None` where a field that the type needs is
/// missing or the data is no address of the type's family.
pub open spec fn spec_build_dns_record(
    p: create_dns_record::Params,
    id: i64,
    addrs: DataAddresses,
) -> Option<DnsRecord> {
    let ttl = ttl_or_default(p.ttl);
    match p.record_type {
        RecordType::A => match addrs.ipv4 {
            Some(ip) => Some(DnsRecord::A { host: p.host, id, ttl, data: ip }),
            None => None,
        },
        RecordType::Aaaa => match addrs.ipv6 {
            Some(ip) => Some(DnsRecord::Aaaa { host: p.host, id, ttl, data: ip }),
            None => None,
        },
        RecordType::Cname => Some(DnsRecord::Cname { host: p.host, id, ttl, data: p.data }),
        RecordType::Mx => match p.priority {
            Some(priority) => Some(DnsRecord::Mx { host: p.host, id, ttl, data: p.data, priority }),
            None => None,
        },
        RecordType::Srv => match (p.priority, p.weight, p.port) {
            (Some(priority), Some(weight), Some(port)) => Some(
                DnsRecord::Srv { host: p.host, id, ttl, data: p.data, priority, weight, port },
            ),
            _ => None,
        },
        RecordType::Tlsa => match (p.usage, p.selector, p.matching_type) {
            (Some(usage), Some(selector), Some(dtype)) => Some(
                DnsRecord::Tlsa { host: p.host, id, ttl, data: p.data, usage, selector, dtype },
            ),
            _ => None,
        },
        RecordType::Txt => Some(DnsRecord::Txt { host: p.host, id, ttl, data: p.data }),
    }
}

/// Why request `p` makes no record: the first field that its type needs
/// and that is missing, or the data that is no address of the type's family.
pub open spec fn spec_build_error(p: create_dns_record::Params) -> Seq<char> {
    match p.record_type {
        RecordType::A => address_message("IPv4"@, p.data@),
        RecordType::Aaaa => address_message("IPv6"@, p.data@),
        RecordType::Mx => required_message("priority"@, "MX"@),
        RecordType::Srv => if p.priority is None {
            required_message("priority"@, "SRV"@)
        } else if p.weight is None {
            required_message("weight"@, "SRV"@)
        } else {
            required_message("port"@, "SRV"@)
        },
        RecordType::Tlsa => if p.usage is None {
            required_message("usage"@, "TLSA"@)
        } else if p.selector is None {
            required_message("selector"@, "TLSA"@)
        } else {
            required_message("matching_type"@, "TLSA"@)
        },
        _ => Seq::empty(),
    }
}

/// Request `p` holds every field that its record type needs.
pub open spec fn fields_complete(p: create_dns_record::Params, addrs: DataAddresses) -> bool {
    match p.record_type {
        RecordType::A => addrs.ipv4 is Some,
        RecordType::Aaaa => addrs.ipv6 is Some,
        RecordType::Cname => true,
        RecordType::Mx => p.priority is Some,
        RecordType::Srv => p.priority is Some && p.weight is Some && p.port is Some,
        RecordType::Tlsa => p.usage is Some && p.selector is Some && p.matching_type is Some,
        RecordType::Txt => true,
    }
}

pub open spec fn record_host(r: DnsRecord) -> String {
    match r {
        DnsRecord::A { host, .. } => host,
        DnsRecord::Aaaa { host, .. } => host,
        DnsRecord::Cname { host, .. } => host,
        DnsRecord::Mx { host, .. } => host,
        DnsRecord::Srv { host, .. } => host,
        DnsRecord::Tlsa { host, .. } => host,
        DnsRecord::Txt { host, .. } => host,
    }
}

pub open spec fn record_id(r: DnsRecord) -> i64 {
    match r {
        DnsRecord::A { id, .. } => id,
        DnsRecord::Aaaa { id, .. } => id,
        DnsRecord::Cname { id, .. } => id,
        DnsRecord::Mx { id, .. } => id,
        DnsRecord::Srv { id, .. } => id,
        DnsRecord::Tlsa { id, .. } => id,
        DnsRecord::Txt { id, .. } => id,
    }
}

pub open spec fn record_ttl(r: DnsRecord) -> i64 {
    match r {
        DnsRecord::A { ttl, .. } => ttl,
        DnsRecord::Aaaa { ttl, .. } => ttl,
        DnsRecord::Cname { ttl, .. } => ttl,
        DnsRecord::Mx { ttl, .. } => ttl,
        DnsRecord::Srv { ttl, .. } => ttl,
        DnsRecord::Tlsa { ttl, .. } => ttl,
        DnsRecord::Txt { ttl, .. } => ttl,
    }
}

/// The type of a record.
pub open spec fn record_type_of(r: DnsRecord) -> RecordType {
    match r {
        DnsRecord::A { .. } => RecordType::A,
        DnsRecord::Aaaa { .. } => RecordType::Aaaa,
        DnsRecord::Cname { .. } => RecordType::Cname,
        DnsRecord::Mx { .. } => RecordType::Mx,
        DnsRecord::Srv { .. } => RecordType::Srv,
        DnsRecord::Tlsa { .. } => RecordType::Tlsa,
        DnsRecord::Txt { .. } => RecordType::Txt,
    }
}

/// Maps the flat request `p` to the record of its type, with record id `id`;
/// a missing field or a malformed address is an invalid-params error.
pub fn build_dns_record(p: create_dns_record::Params, id: i64, addrs: &DataAddresses) -> (r: Result<
    DnsRecord,
    ServiceError,
>)
    ensures
        match spec_build_dns_record(p, id, *addrs) {
            Some(record) => r == Ok::<DnsRecord, ServiceError>(record),
            None => r matches Err(e) && e.is(ErrorKind::InvalidParams, spec_build_error(p)),
        },
{
    let ttl = match p.ttl {
        Some(t) => t,
        None => 3600,
    };
    let host = p.host;
    let data = p.data;
    match p.record_type {
        RecordType::A => match addrs.ipv4 {
            Some(ip) => Ok(DnsRecord::A { data: ip, host, id, ttl }),
            None => Err(invalid(address_error("IPv4", data.as_str()))),
        },
        RecordType::Aaaa => match addrs.ipv6 {
            Some(ip) => Ok(DnsRecord::Aaaa { data: ip, host, id, ttl }),
            None => Err(invalid(address_error("IPv6", data.as_str()))),
        },
        RecordType::Cname => Ok(DnsRecord::Cname { data, host, id, ttl }),
        RecordType::Mx => {
            let priority = required(p.priority, "priority", "MX")?;
            Ok(DnsRecord::Mx { data, host, id, ttl, priority })
        },
        RecordType::Srv => {
            let priority = required(p.priority, "priority", "SRV")?;
            let weight = required(p.weight, "weight", "SRV")?;
            let port = required(p.port, "port", "SRV")?;
            Ok(DnsRecord::Srv { data, host, id, ttl, priority, weight, port })
        },
        RecordType::Tlsa => {
            let usage = required(p.usage, "usage", "TLSA")?;
            let selector = required(p.selector, "selector", "TLSA")?;
            let dtype = required(p.matching_type, "matching_type", "TLSA")?;
            Ok(DnsRecord::Tlsa { data, host, id, ttl, usage, selector, dtype })
        },
        RecordType::Txt => Ok(DnsRecord::Txt { data, host, id, ttl }),
    }
}

fn address_error(family: &str, data: &str) -> (r: String)
    ensures
        r@ == address_message(family@, data@),
{
    let mut msg = "`data` must be a valid ".to_owned();
    msg.append(family);
    msg.append(" address, got ");
    let quoted = debug_quoted(data);
    msg.append(quoted.as_str());
    msg
}

/// The value of a field that a record type needs; its absence is an
/// invalid-params error naming the field and the type.
pub fn required<T>(value: Option<T>, field: &str, record_type: &str) -> (r: Result<T, ServiceError>)
    ensures
        match value {
            Some(v) => r == Ok::<T, ServiceError>(v),
            None => r matches Err(e) && e.is(
                ErrorKind::InvalidParams,
                required_message(field@, record_type@),
            ),
        },
{
    match value {
        Some(v) => Ok(v),
        None => {
            let mut msg = "`".to_owned();
            msg.append(field);
            msg.append("` is required for ");
            msg.append(record_type);
            msg.append(" records");
            Err(invalid(msg))
        },
    }
}

fn invalid(msg: String) -> (e: ServiceError)
    ensures
        e.is(ErrorKind::InvalidParams, msg@),
{
    ServiceError::invalid_params(msg)
}

/// A request makes a record exactly where it holds every field that its
/// record type needs.
pub proof fn lemma_build_succeeds_iff_complete(
    p: create_dns_record::Params,
    id: i64,
    addrs: DataAddresses,
)
    ensures
        spec_build_dns_record(p, id, addrs) is Some <==> fields_complete(p, addrs),
{
}

/// Every field of a request lands in the record field of the same meaning:
/// the data (or the address it reads as), the MX and SRV priority, the SRV
/// weight and port, and the TLSA usage, selector and matching type (as `dtype`).
pub proof fn lemma_type_fields_in_place(p: create_dns_record::Params, id: i64, addrs: DataAddresses)
    ensures
        match spec_build_dns_record(p, id, addrs) {
            Some(DnsRecord::A { data, .. }) => addrs.ipv4 == Some(data),
            Some(DnsRecord::Aaaa { data, .. }) => addrs.ipv6 == Some(data),
            Some(DnsRecord::Cname { data, .. }) => data == p.data,
            Some(DnsRecord::Mx { data, priority, .. }) => data == p.data && p.priority == Some(
                priority,
            ),
            Some(DnsRecord::Srv { data, priority, weight, port, .. }) => data == p.data
                && p.priority == Some(priority) && p.weight == Some(weight) && p.port == Some(port),
            Some(DnsRecord::Tlsa { data, usage, selector, dtype, .. }) => data == p.data
                && p.usage == Some(usage) && p.selector == Some(selector) && p.matching_type
                == Some(dtype),
            Some(DnsRecord::Txt { data, .. }) => data == p.data,
            None => true,
        },
{
}

/// A record is built of the type that was asked for, and carries the host
/// and record id it was built with and the requested TTL, 3600 where none
/// was requested.
pub proof fn lemma_built_record_carries(p: create_dns_record::Params, id: i64, addrs: DataAddresses)
    ensures
        spec_build_dns_record(p, id, addrs) matches Some(r) ==> {
            &&& record_type_of(r) == p.record_type
            &&& record_host(r) == p.host
            &&& record_id(r) == id
            &&& record_ttl(r) == ttl_or_default(p.ttl)
        },
{
}

} // verus!
