//! What the service makes of the upstream API's answers: the URLs it calls,
//! how a response status is judged, and how a domain name is resolved to
//! its id.
use vstd::prelude::*;

use crate::decimal::{i64_text, int_text, nat_digits};
use crate::error::{ErrorKind, ServiceError};
use crate::json::{Json, i64_field, i64_member, str_field, str_member};
use crate::text::{debug_quoted, debug_text, str_eq};

verus! {

/// The path of the domain list.
pub const DOMAINS_PATH: &'static str = "/domains";

/// The URL of `path` under the API at `base_url`.
pub fn api_url(base_url: &str, path: &str) -> (r: String)
    ensures
        r@ == base_url@ + path@,
{
    let mut s = base_url.to_owned();
    s.append(path);
    s
}

/// The path of one domain: `/domains/{id}`.
pub fn domain_path(domain_id: i64) -> (r: String)
    ensures
        r@ == DOMAINS_PATH@ + "/"@ + int_text(domain_id as int),
{
    let mut s = DOMAINS_PATH.to_owned();
    s.append("/");
    let id = i64_text(domain_id);
    s.append(id.as_str());
    s
}

/// The path of the DNS records of one domain: `/domains/{id}/dns`.
pub fn dns_records_path(domain_id: i64) -> (r: String)
    ensures
        r@ == DOMAINS_PATH@ + "/"@ + int_text(domain_id as int) + "/dns"@,
{
    let mut s = domain_path(domain_id);
    s.append("/dns");
    s
}

/// The path of one DNS record of one domain: `/domains/{id}/dns/{record_id}`.
pub fn dns_record_path(domain_id: i64, record_id: i64) -> (r: String)
    ensures
        r@ == DOMAINS_PATH@ + "/"@ + int_text(domain_id as int) + "/dns"@ + "/"@ + int_text(
            record_id as int,
        ),
{
    let mut s = dns_records_path(domain_id);
    s.append("/");
    let id = i64_text(record_id);
    s.append(id.as_str());
    s
}

/// The reason phrase that the HTTP status table gives for `code`, if any.
pub uninterp spec fn status_reason(code: u16) -> Option<Seq<char>>;

/// `StatusCode::canonical_reason` of the status `code`; its result is named
/// by `status_reason` and nothing more is claimed of it.
#[verifier::external_body]
fn canonical_reason(code: u16) -> (r: Option<&'static str>)
    requires
        100 <= code <= 999,
    ensures
        match r {
            Some(s) => status_reason(code) == Some(s@),
            None => status_reason(code) is None,
        },
{
    match reqwest::StatusCode::from_u16(code) {
        Ok(status) => status.canonical_reason(),
        Err(_) => None,
    }
}

/// How a status is written: its number, a space, and its reason phrase or
/// `<unknown status code>`.
pub open spec fn spec_status_text(code: u16) -> Seq<char> {
    nat_digits(code as nat) + " "@ + match status_reason(code) {
        Some(reason) => reason,
        None => "<unknown status code>"@,
    }
}

/// The text of a response status, as its `Display` writes it.
pub fn status_text(code: u16) -> (r: String)
    requires
        100 <= code <= 999,
    ensures
        r@ == spec_status_text(code),
{
    let mut s = i64_text(code as i64);
    s.append(" ");
    match canonical_reason(code) {
        Some(reason) => s.append(reason),
        None => s.append("<unknown status code>"),
    }
    s
}

/// A status of the success class, 200 to 299.
pub open spec fn is_success(code: u16) -> bool {
    200 <= code < 300
}

/// Exactly the statuses 200 through 299 are successes; 201 Created, 204 No
/// Content and the rest of the class among them.
pub proof fn lemma_success_class(code: u16)
    ensures
        is_success(code) <==> (200 <= code && code <= 299),
        code == 200 || code == 201 || code == 204 ==> is_success(code),
{
}

/// The body of a response to a request for `url`, where its status is a
/// success; otherwise an internal error that shows the status, the URL
/// and the body.
pub fn check_status(status: u16, url: &str, body: String) -> (r: Result<String, ServiceError>)
    requires
        100 <= status <= 999,
    ensures
        is_success(status) ==> r == Ok::<String, ServiceError>(body),
        200 <= status <= 299 ==> r == Ok::<String, ServiceError>(body),
        !is_success(status) ==> (r matches Err(e) && e.is(
            ErrorKind::InternalError,
            "Domeneshop API "@ + spec_status_text(status) + " for "@ + url@ + ": "@ + body@,
        )),
{
    if 200 <= status && status < 300 {
        Ok(body)
    } else {
        let mut msg = "Domeneshop API ".to_owned();
        let st = status_text(status);
        msg.append(st.as_str());
        msg.append(" for ");
        msg.append(url);
        msg.append(": ");
        msg.append(body.as_str());
        Err(ServiceError::internal_error(msg))
    }
}

/// The id of the domain named exactly `name` among the listed `items`: the
/// `id` of the first item whose `domain` is `name`, where that `id` is an
/// integer. (The upstream `?domain=` filter matches substrings, so the list
/// may hold other domains too.)
pub open spec fn spec_domain_id(items: Seq<Json>, name: Seq<char>) -> Option<i64>
    decreases items.len(),
{
    if items.len() == 0 {
        None
    } else if str_member(items[0], "domain"@) == Some(name) {
        i64_member(items[0], "id"@)
    } else {
        spec_domain_id(items.drop_first(), name)
    }
}

/// Resolves a domain name to its id among the domains the API listed; a
/// name that no item carries exactly is answered `domain "{name}" not found`.
pub fn find_domain_id(items: &Vec<Json>, name: &str) -> (r: Result<i64, ServiceError>)
    ensures
        match spec_domain_id(items@, name@) {
            Some(id) => r == Ok::<i64, ServiceError>(id),
            None => r matches Err(e) && e.is(
                ErrorKind::InvalidParams,
                "domain "@ + debug_text(name@) + " not found"@,
            ),
        },
{
    let mut i: usize = 0;
    assert(items@.skip(0) =~= items@);
    while i < items.len()
        invariant
            i <= items@.len(),
            spec_domain_id(items@, name@) == spec_domain_id(items@.skip(i as int), name@),
        decreases items@.len() - i,
    {
        assert(items@.skip(i as int)[0] == items@[i as int]);
        let found = match str_field(&items[i], "domain") {
            Some(d) => str_eq(d.as_str(), name),
            None => false,
        };
        if found {
            return match i64_field(&items[i], "id") {
                Some(id) => Ok(id),
                None => Err(not_found(name)),
            };
        }
        assert(items@.skip(i as int).drop_first() =~= items@.skip(i + 1));
        i = i + 1;
    }
    Err(not_found(name))
}

fn not_found(name: &str) -> (e: ServiceError)
    ensures
        e.is(ErrorKind::InvalidParams, "domain "@ + debug_text(name@) + " not found"@),
{
    let mut msg = "domain ".to_owned();
    let quoted = debug_quoted(name);
    msg.append(quoted.as_str());
    msg.append(" not found");
    ServiceError::invalid_params(msg)
}

/// A domain id is only ever taken from an item whose `domain` is exactly
/// the name asked for, and it is that item's `id`.
pub proof fn lemma_domain_id_exact(items: Seq<Json>, name: Seq<char>)
    ensures
        spec_domain_id(items, name) matches Some(id) ==> exists|k: int|
            0 <= k < items.len() && #[trigger] str_member(items[k], "domain"@) == Some(name)
                && i64_member(items[k], "id"@) == Some(id),
    decreases items.len(),
{
    if items.len() > 0 && str_member(items[0], "domain"@) != Some(name) {
        lemma_domain_id_exact(items.drop_first(), name);
        if spec_domain_id(items, name) is Some {
            let k = choose|k: int|
                0 <= k < items.drop_first().len() && #[trigger] str_member(
                    items.drop_first()[k],
                    "domain"@,
                ) == Some(name) && i64_member(items.drop_first()[k], "id"@) == spec_domain_id(
                    items,
                    name,
                );
            assert(items.drop_first()[k] == items[k + 1]);
        }
    } else if items.len() > 0 {
        assert(str_member(items[0], "domain"@) == Some(name));
    }
}

/// The first item named `name` decides: where it has no integer `id`, the
/// lookup fails even if a later item of that name has one.
pub proof fn lemma_domain_id_first(items: Seq<Json>, name: Seq<char>, k: int)
    requires
        0 <= k < items.len(),
        str_member(items[k], "domain"@) == Some(name),
        forall|j: int| 0 <= j < k ==> str_member(#[trigger] items[j], "domain"@) != Some(name),
    ensures
        spec_domain_id(items, name) == i64_member(items[k], "id"@),
    decreases k,
{
    if k > 0 {
        let rest = items.drop_first();
        assert forall|j: int| 0 <= j < k - 1 implies str_member(#[trigger] rest[j], "domain"@)
            != Some(name) by {
            assert(rest[j] == items[j + 1]);
        }
        assert(rest[k - 1] == items[k]);
        assert(str_member(items[0], "domain"@) != Some(name));
        lemma_domain_id_first(rest, name, k - 1);
    }
}

} // verus!
