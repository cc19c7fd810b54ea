//! The tool that deletes a DNS record.
use vstd::prelude::*;

use crate::decimal::{i64_text, int_text};

verus! {

/// The arguments of a delete request.
#[derive(Debug)]
pub struct Params {
    /// Domain ID (from `list_domains`).
    pub domain_id: i64,
    /// ID of the DNS record to delete.
    pub record_id: i64,
}

pub open spec fn spec_deleted_message(p: Params) -> Seq<char> {
    "Deleted DNS record "@ + int_text(p.record_id as int) + " from domain "@ + int_text(
        p.domain_id as int,
    )
}

/// The answer to a delete request.
pub fn deleted_message(p: &Params) -> (r: String)
    ensures
        r@ == spec_deleted_message(*p),
{
    let mut s = "Deleted DNS record ".to_owned();
    let rid = i64_text(p.record_id);
    s.append(rid.as_str());
    s.append(" from domain ");
    let did = i64_text(p.domain_id);
    s.append(did.as_str());
    s
}

} // verus!
