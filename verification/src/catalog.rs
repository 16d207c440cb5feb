//! Model-catalog projection: flattening the backend's catalog reply into
//! the list of model names.
//!
//! The backend answers the catalog request with a JSON object holding a
//! `models` array whose elements each ought to carry a string `name`.  A
//! reply that is not JSON at all is a failure; a reply without a usable
//! array yields an empty list; an element without a usable name is skipped
//! rather than producing a placeholder.

use vstd::prelude::*;

verus! {

/// The catalog entries carried by a backend reply body: nothing when the
/// body is not valid JSON; otherwise one entry per element of the top-level
/// `models` array (none when that array is missing or not an array), each
/// holding the element's string `name` field if it has one.  The parse is
/// delegated to an outside JSON library, so the value of this function is
/// not given here; it is a function of the body's bytes alone.
pub uninterp spec fn catalog_entries_of(body: Seq<u8>) -> Option<Seq<Option<Seq<char>>>>;

/// The names of the usable entries, in order; entries without a name are
/// skipped.
pub open spec fn names_of(entries: Seq<Option<Seq<char>>>) -> Seq<Seq<char>>
    decreases entries.len(),
{
    if entries.len() == 0 {
        Seq::<Seq<char>>::empty()
    } else {
        let prefix = names_of(entries.drop_last());
        match entries.last() {
            Option::Some(name) => prefix.push(name),
            Option::None => prefix,
        }
    }
}

/// Relies on `serde_json::from_slice`, `serde_json::Value::get`,
/// `serde_json::Value::as_array` and `serde_json::Value::as_str`: whether
/// the body parses, which elements its `models` array has, and each
/// element's string `name`, depend on the body's bytes alone.
#[verifier::external_body]
fn parse_catalog(body: &[u8]) -> (r: Option<Vec<Option<String>>>)
    ensures
        r.deep_view() == catalog_entries_of(body@),
{
    let value: serde_json::Value = match serde_json::from_slice(body) {
        Ok(v) => v,
        Err(_) => return None,
    };
    let entries = match value.get("models").and_then(|m| m.as_array()) {
        Some(list) => list
            .iter()
            .map(|e| e.get("name").and_then(|n| n.as_str()).map(String::from))
            .collect(),
        None => Vec::new(),
    };
    Some(entries)
}

/// Keeps, in order, the name of every entry that has one.
pub fn project_models(entries: &Vec<Option<String>>) -> (r: Vec<String>)
    ensures
        r.deep_view() == names_of(entries.deep_view()),
{
    let ghost edv: Seq<Option<Seq<char>>> = entries.deep_view();
    let mut r: Vec<String> = Vec::new();
    let mut i: usize = 0;
    while i < entries.len()
        invariant
            0 <= i <= entries@.len(),
            edv == entries.deep_view(),
            edv.len() == entries@.len(),
            r.deep_view() == names_of(edv.take(i as int)),
        decreases entries@.len() - i,
    {
        proof {
            assert(edv.take(i + 1).drop_last() =~= edv.take(i as int));
            assert(edv.take(i + 1).last() == edv[i as int]);
        }
        match &entries[i] {
            Option::Some(name) => {
                let ghost r0: Seq<Seq<char>> = r.deep_view();
                r.push(name.clone());
                proof {
                    assert(edv[i as int] matches Option::Some(n) && n == name@);
                    assert(r.deep_view() =~~= r0.push(name@));
                }
            },
            Option::None => {
                proof {
                    assert(edv[i as int] is None);
                }
            },
        }
        i = i + 1;
    }
    proof {
        assert(edv.take(edv.len() as int) =~= edv);
    }
    r
}

/// Projects a backend catalog reply body into the flat list of model
/// names: nothing when the body is not valid JSON, and otherwise exactly
/// the names of the usable entries, in order.
pub fn models_from_body(body: &[u8]) -> (r: Option<Vec<String>>)
    ensures
        r is Some <==> catalog_entries_of(body@) is Some,
        r matches Some(names) ==> catalog_entries_of(body@) matches Some(entries)
            && names.deep_view() == names_of(entries),
{
    match parse_catalog(body) {
        Option::Some(entries) => Option::Some(project_models(&entries)),
        Option::None => Option::None,
    }
}

} // verus!
