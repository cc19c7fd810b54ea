//! The tool that lists the domains of the account as `{id, domain}` pairs.
use vstd::prelude::*;

use crate::decimal::{i64_text, int_text};
use crate::error::ServiceError;
use crate::json::{Json, encode_json_string, i64_field, i64_member, json_string_text, str_field, str_member};

verus! {

/// The listed domains that have a name, in order: each item's `id` (where it
/// is an integer) and its `domain`, where that is a string.
pub open spec fn spec_domain_pairs(items: Seq<Json>) -> Seq<(Option<i64>, Seq<char>)>
    decreases items.len(),
{
    if items.len() == 0 {
        seq![]
    } else {
        let rest = spec_domain_pairs(items.drop_last());
        match str_member(items.last(), "domain"@) {
            Some(name) => rest.push((i64_member(items.last(), "id"@), name)),
            None => rest,
        }
    }
}

/// Whether a listed item has a name: its `domain` member is a string.
pub open spec fn named_item() -> spec_fn(Json) -> bool {
    |v: Json| str_member(v, "domain"@) is Some
}

/// The pair of a named item: its integer `id`, if any, and its name.
pub open spec fn item_pair() -> spec_fn(Json) -> (Option<i64>, Seq<char>) {
    |v: Json| (i64_member(v, "id"@), str_member(v, "domain"@)->0)
}

/// Every listed item whose `domain` is a string gives one pair, in order and
/// with no limit: the pairs are the named items, each as its id and name.
pub proof fn lemma_every_named_domain_listed(items: Seq<Json>)
    ensures
        spec_domain_pairs(items) == items.filter(named_item()).map_values(item_pair()),
        spec_domain_pairs(items).len() == items.filter(named_item()).len(),
    decreases items.len(),
{
    reveal(Seq::filter);
    if items.len() > 0 {
        lemma_every_named_domain_listed(items.drop_last());
        let f = items.drop_last().filter(named_item());
        if named_item()(items.last()) {
            assert(f.push(items.last()).map_values(item_pair()) =~= f.map_values(item_pair()).push(
                item_pair()(items.last()),
            ));
        }
    }
}

/// The JSON object of one pair: `{"id":<id>,"domain":<name>}`, with `null`
/// for a missing id.
pub open spec fn pair_text(pair: (Option<i64>, Seq<char>)) -> Seq<char> {
    "{\"id\":"@ + match pair.0 {
        Some(id) => int_text(id as int),
        None => "null"@,
    } + ",\"domain\":"@ + json_string_text(pair.1) + "}"@
}

/// The objects of `pairs`, separated by commas.
pub open spec fn joined_pairs(pairs: Seq<(Option<i64>, Seq<char>)>) -> Seq<char>
    decreases pairs.len(),
{
    if pairs.len() == 0 {
        seq![]
    } else if pairs.len() == 1 {
        pair_text(pairs[0])
    } else {
        joined_pairs(pairs.drop_last()) + ","@ + pair_text(pairs.last())
    }
}

/// The answer of the tool: the JSON array of the `{id, domain}` pairs.
pub open spec fn spec_summary(items: Seq<Json>) -> Seq<char> {
    "["@ + joined_pairs(spec_domain_pairs(items)) + "]"@
}

/// Appends the object of one pair to `out`.
fn push_pair(out: &mut String, id: Option<i64>, name: &str)
    ensures
        final(out)@ == old(out)@ + pair_text((id, name@)),
{
    let encoded = match encode_json_string(name) {
        Ok(t) => t,
        Err(_) => {
            assert(false);
            String::new()
        },
    };
    out.append("{\"id\":");
    match id {
        Some(v) => {
            let t = i64_text(v);
            out.append(t.as_str());
        },
        None => out.append("null"),
    }
    out.append(",\"domain\":");
    out.append(encoded.as_str());
    out.append("}");
}

/// Lists the `{id, domain}` pair of each listed item that has a name, as a
/// JSON array. It always succeeds.
pub fn summarize(items: &Vec<Json>) -> (r: Result<String, ServiceError>)
    ensures
        r matches Ok(t) && t@ == spec_summary(items@),
{
    let mut body = String::new();
    let mut count: usize = 0;
    let mut i: usize = 0;
    assert(items@.take(0) =~= Seq::<Json>::empty());
    while i < items.len()
        invariant
            i <= items@.len(),
            count == spec_domain_pairs(items@.take(i as int)).len(),
            count <= i,
            body@ == joined_pairs(spec_domain_pairs(items@.take(i as int))),
        decreases items@.len() - i,
    {
        assert(items@.take(i + 1).drop_last() =~= items@.take(i as int));
        assert(items@.take(i + 1).last() == items@[i as int]);
        match str_field(&items[i], "domain") {
            Some(name) => {
                let id = i64_field(&items[i], "id");
                let ghost before = body@;
                if count > 0 {
                    body.append(",");
                }
                push_pair(&mut body, id, name.as_str());
                count = count + 1;
                proof {
                    let ps = spec_domain_pairs(items@.take(i + 1));
                    assert(ps.drop_last() =~= spec_domain_pairs(items@.take(i as int)));
                    assert(ps.last() == (id, name@));
                    if ps.len() == 1 {
                        assert(before =~= Seq::<char>::empty());
                        assert(body@ =~= pair_text(ps[0]));
                    } else {
                        assert(body@ =~= joined_pairs(ps.drop_last()) + ","@ + pair_text(ps.last()));
                    }
                }
            },
            None => {},
        }
        i = i + 1;
    }
    assert(items@.take(items@.len() as int) =~= items@);
    let mut out = "[".to_owned();
    out.append(body.as_str());
    out.append("]");
    Ok(out)
}

} // verus!
