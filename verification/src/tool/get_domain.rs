//! The tool that reads one domain by its name.
use vstd::prelude::*;

use crate::json::Json;
use crate::text::str_eq;

verus! {

/// The arguments of a get request.
#[derive(Debug)]
pub struct Params {
    /// Domain name (e.g. `example.com`).
    pub domain: String,
}

/// The members of a domain that the tool leaves out of its answer.
pub open spec fn is_private_field(key: Seq<char>) -> bool {
    key == "registrant"@ || key == "renew"@ || key == "services"@
}

/// The members of `fields` that are not private, in their order.
pub open spec fn public_fields(fields: Seq<(String, Json)>) -> Seq<(String, Json)>
    decreases fields.len(),
{
    if fields.len() == 0 {
        seq![]
    } else {
        let rest = public_fields(fields.drop_last());
        if is_private_field(fields.last().0@) {
            rest
        } else {
            rest.push(fields.last())
        }
    }
}

fn private_field(key: &str) -> (r: bool)
    ensures
        r == is_private_field(key@),
{
    str_eq(key, "registrant") || str_eq(key, "renew") || str_eq(key, "services")
}

/// The domain document without its `registrant`, `renew` and `services`
/// members; a document that is no object is left as it is.
pub fn strip_private_fields(doc: Json) -> (r: Json)
    ensures
        match doc {
            Json::Object(fields) => r matches Json::Object(kept) && kept@ == public_fields(fields@),
            _ => r == doc,
        },
{
    match doc {
        Json::Object(fields) => {
            let ghost orig = fields@;
            let n = fields.len();
            let mut rest = fields;
            let mut kept: Vec<(String, Json)> = Vec::new();
            let mut i: usize = 0;
            assert(orig.take(0) =~= Seq::<(String, Json)>::empty());
            assert(orig.skip(0) =~= orig);
            while rest.len() > 0
                invariant
                    i + rest@.len() == orig.len(),
                    orig.len() == n,
                    rest@ == orig.skip(i as int),
                    kept@ == public_fields(orig.take(i as int)),
                decreases rest@.len(),
            {
                let member = rest.remove(0);
                assert(member == orig[i as int]);
                assert(orig.take(i + 1).drop_last() =~= orig.take(i as int));
                assert(orig.take(i + 1).last() == orig[i as int]);
                assert(rest@ =~= orig.skip(i + 1));
                if !private_field(member.0.as_str()) {
                    kept.push(member);
                }
                i = i + 1;
            }
            assert(orig.take(i as int) =~= orig);
            Json::Object(kept)
        },
        other => other,
    }
}

/// Whether a member is kept: its key is none of `registrant`, `renew`, `services`.
pub open spec fn kept_member() -> spec_fn((String, Json)) -> bool {
    |m: (String, Json)| !(m.0@ == "registrant"@ || m.0@ == "renew"@ || m.0@ == "services"@)
}

/// The answer keeps exactly the members whose key is not `registrant`,
/// `renew` or `services`, in their order: every other member (such as
/// `expiry_date`) is kept.
pub proof fn lemma_public_fields_exact(fields: Seq<(String, Json)>)
    ensures
        public_fields(fields) == fields.filter(kept_member()),
    decreases fields.len(),
{
    reveal(Seq::filter);
    if fields.len() > 0 {
        lemma_public_fields_exact(fields.drop_last());
    }
}

/// Stripping keeps every public member, in order, and no private one.
pub proof fn lemma_public_fields(fields: Seq<(String, Json)>)
    ensures
        forall|k: int|
            0 <= k < public_fields(fields).len() ==> !is_private_field(
                #[trigger] public_fields(fields)[k].0@,
            ),
        forall|k: int|
            0 <= k < public_fields(fields).len() ==> fields.contains(
                #[trigger] public_fields(fields)[k],
            ),
        forall|k: int|
            0 <= k < fields.len() && !is_private_field(#[trigger] fields[k].0@)
                ==> public_fields(fields).contains(fields[k]),
    decreases fields.len(),
{
    if fields.len() > 0 {
        let init = fields.drop_last();
        lemma_public_fields(init);
        let p = public_fields(fields);
        assert forall|k: int| 0 <= k < p.len() implies fields.contains(#[trigger] p[k]) by {
            if k < public_fields(init).len() {
                let j = choose|j: int| 0 <= j < init.len() && init[j] == public_fields(init)[k];
                assert(fields[j] == init[j]);
            } else {
                assert(fields[fields.len() - 1] == fields.last());
            }
        }
        assert forall|k: int| 0 <= k < fields.len() && !is_private_field(
            #[trigger] fields[k].0@,
        ) implies p.contains(fields[k]) by {
            if k < fields.len() - 1 {
                assert(init[k] == fields[k]);
                let j = choose|j: int|
                    0 <= j < public_fields(init).len() && public_fields(init)[j] == init[k];
                assert(p[j] == public_fields(init)[j]);
            } else {
                assert(p[p.len() - 1] == fields.last());
            }
        }
    }
}

} // verus!
