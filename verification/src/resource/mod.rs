//! The resources the service offers: the domain list and, per domain, its DNS
//! records. What they are called, how a URI is resolved, and what is listed.
pub mod list_dns_records;
pub mod list_domains;

use vstd::prelude::*;

use crate::error::{ErrorKind, ServiceError};
use crate::resource::list_dns_records::{
    lemma_parse_uri_for, parse_uri, spec_descriptor_for, spec_parse_uri, spec_uri_for,
};
use crate::text::str_eq;

verus! {

/// The MIME type of every resource.
pub const JSON_MIME: &'static str = "application/json";

/// The text of an optional string.
pub open spec fn opt_text(o: Option<String>) -> Option<Seq<char>> {
    match o {
        Some(s) => Some(s@),
        None => None,
    }
}

/// A resource as it is announced to the client.
#[derive(Debug)]
pub struct ResourceDescriptor {
    pub uri: String,
    pub name: String,
    pub title: Option<String>,
    pub description: Option<String>,
    pub mime_type: Option<String>,
}

pub struct ResourceDescriptorView {
    pub uri: Seq<char>,
    pub name: Seq<char>,
    pub title: Option<Seq<char>>,
    pub description: Option<Seq<char>>,
    pub mime_type: Option<Seq<char>>,
}

impl View for ResourceDescriptor {
    type V = ResourceDescriptorView;

    open spec fn view(&self) -> ResourceDescriptorView {
        ResourceDescriptorView {
            uri: self.uri@,
            name: self.name@,
            title: opt_text(self.title),
            description: opt_text(self.description),
            mime_type: opt_text(self.mime_type),
        }
    }
}

/// A family of resources, announced by its URI template.
#[derive(Debug)]
pub struct ResourceTemplateDescriptor {
    pub uri_template: String,
    pub name: String,
    pub title: Option<String>,
    pub description: Option<String>,
    pub mime_type: Option<String>,
}

pub struct ResourceTemplateView {
    pub uri_template: Seq<char>,
    pub name: Seq<char>,
    pub title: Option<Seq<char>>,
    pub description: Option<Seq<char>>,
    pub mime_type: Option<Seq<char>>,
}

impl View for ResourceTemplateDescriptor {
    type V = ResourceTemplateView;

    open spec fn view(&self) -> ResourceTemplateView {
        ResourceTemplateView {
            uri_template: self.uri_template@,
            name: self.name@,
            title: opt_text(self.title),
            description: opt_text(self.description),
            mime_type: opt_text(self.mime_type),
        }
    }
}

/// Text read from a resource.
#[derive(Debug)]
pub struct TextContents {
    pub uri: String,
    pub mime_type: Option<String>,
    pub text: String,
}

pub struct TextContentsView {
    pub uri: Seq<char>,
    pub mime_type: Option<Seq<char>>,
    pub text: Seq<char>,
}

impl View for TextContents {
    type V = TextContentsView;

    open spec fn view(&self) -> TextContentsView {
        TextContentsView { uri: self.uri@, mime_type: opt_text(self.mime_type), text: self.text@ }
    }
}

/// What the domain listing of the upstream API tells of one domain.
#[derive(Debug)]
pub struct DomainInfo {
    pub id: Option<i64>,
    pub domain: Option<String>,
}

/// Which resource a URI names.
#[derive(Clone, Copy, Debug, PartialEq, Eq, Structural)]
pub enum ResourceRoute {
    /// The domain list.
    Domains,
    /// The DNS records of the domain with this id.
    DnsRecords(i64),
}

/// The resource that `uri` names, if any: the domain list by its exact URI,
/// else the record list whose URI `parse_uri` reads.
pub open spec fn spec_route(uri: Seq<char>) -> Option<ResourceRoute> {
    if uri == list_domains::URI@ {
        Some(ResourceRoute::Domains)
    } else {
        match spec_parse_uri(uri) {
            Some(id) => Some(ResourceRoute::DnsRecords(id)),
            None => None,
        }
    }
}

/// Resolves the URI of a read request; an unknown URI is answered
/// "unknown resource: {uri}".
pub fn route(uri: &str) -> (r: Result<ResourceRoute, ServiceError>)
    ensures
        match spec_route(uri@) {
            Some(route) => r == Ok::<ResourceRoute, ServiceError>(route),
            None => r matches Err(e) && e.is(
                ErrorKind::ResourceNotFound,
                "unknown resource: "@ + uri@,
            ),
        },
{
    if str_eq(uri, list_domains::URI) {
        Ok(ResourceRoute::Domains)
    } else {
        match parse_uri(uri) {
            Some(id) => Ok(ResourceRoute::DnsRecords(id)),
            None => {
                let mut msg = "unknown resource: ".to_owned();
                msg.append(uri);
                Err(ServiceError::resource_not_found(msg))
            },
        }
    }
}

/// The URI of the record list of a domain leads back to that domain.
pub proof fn lemma_route_uri_for(domain_id: i64)
    ensures
        spec_route(spec_uri_for(domain_id as int)) == Some(ResourceRoute::DnsRecords(domain_id)),
{
    lemma_parse_uri_for(domain_id);
    reveal_strlit("domeneshop://domains");
    reveal_strlit("domeneshop://domains/");
    let u = spec_uri_for(domain_id as int);
    assert(u[20] == '/');
    assert(list_domains::URI@.len() == 20);
}

/// The URI of the domain list names the domain list.
pub proof fn lemma_route_domains()
    ensures
        spec_route(list_domains::URI@) == Some(ResourceRoute::Domains),
{
}

/// Every announced record list can be read back: its URI names its domain.
pub proof fn lemma_descriptor_routes(domain_id: i64, display_name: Option<Seq<char>>)
    ensures
        spec_route(spec_descriptor_for(domain_id as int, display_name).uri) == Some(
            ResourceRoute::DnsRecords(domain_id),
        ),
{
    lemma_route_uri_for(domain_id);
}

/// The record lists announced for the domains `ds`: one for each domain that
/// has an id, in order, labelled with its name where it has one.
pub open spec fn spec_domain_descriptors(ds: Seq<DomainInfo>) -> Seq<ResourceDescriptorView>
    decreases ds.len(),
{
    if ds.len() == 0 {
        seq![]
    } else {
        let rest = spec_domain_descriptors(ds.drop_last());
        match ds.last().id {
            Some(id) => rest.push(spec_descriptor_for(id as int, opt_text(ds.last().domain))),
            None => rest,
        }
    }
}

pub open spec fn descriptor_views(v: Seq<ResourceDescriptor>) -> Seq<ResourceDescriptorView> {
    v.map_values(|d: ResourceDescriptor| d@)
}

pub fn templates() -> (r: Vec<ResourceTemplateDescriptor>)
    ensures
        r@.len() == 1,
        r@[0]@ == list_dns_records::spec_template(),
{
    let mut v = Vec::new();
    v.push(list_dns_records::template());
    v
}

/// The resources announced to a client: the domain list first, then the
/// record list of each domain of `domains`, where the domains could be
/// fetched (`None` where they could not).
pub fn resource_list(domains: Option<Vec<DomainInfo>>) -> (r: Vec<ResourceDescriptor>)
    ensures
        descriptor_views(r@) == seq![list_domains::spec_descriptor()] + match domains {
            Some(ds) => spec_domain_descriptors(ds@),
            None => Seq::<ResourceDescriptorView>::empty(),
        },
{
    let mut resources: Vec<ResourceDescriptor> = Vec::new();
    resources.push(list_domains::descriptor());
    match domains {
        None => {
            assert(descriptor_views(resources@) =~= seq![list_domains::spec_descriptor()]);
        },
        Some(ds) => {
            assert(ds@.take(0) =~= Seq::<DomainInfo>::empty());
            assert(descriptor_views(resources@) =~= seq![list_domains::spec_descriptor()]
                + spec_domain_descriptors(ds@.take(0)));
            let mut i: usize = 0;
            while i < ds.len()
                invariant
                    i <= ds@.len(),
                    descriptor_views(resources@) == seq![list_domains::spec_descriptor()]
                        + spec_domain_descriptors(ds@.take(i as int)),
                decreases ds@.len() - i,
            {
                let d = &ds[i];
                let ghost before = resources@;
                assert(ds@.take(i + 1).drop_last() =~= ds@.take(i as int));
                assert(ds@.take(i + 1).last() == ds@[i as int]);
                match d.id {
                    Some(id) => {
                        let name = match &d.domain {
                            Some(s) => Some(s.as_str()),
                            None => None,
                        };
                        let desc = list_dns_records::descriptor_for(id, name);
                        resources.push(desc);
                        assert(descriptor_views(resources@) =~= descriptor_views(before).push(
                            desc@,
                        ));
                    },
                    None => {},
                }
                i = i + 1;
            }
            assert(ds@.take(ds@.len() as int) =~= ds@);
        },
    }
    resources
}

} // verus!
