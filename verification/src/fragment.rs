//! Fragment extraction: the text a single streamed line contributes to the
//! answer.
//!
//! A line carries a fragment when it parses as JSON and holds a string field
//! named `response`.  A line that fails to parse, or parses to a value
//! without such a field, carries no fragment; that is a normal outcome, not
//! an error, and never halts the stream.

use vstd::prelude::*;

verus! {

/// The fragment carried by a line: the text of its string `response` field
/// when the line parses as JSON and has one, and nothing otherwise.  The
/// parse is delegated to an outside JSON library, so the value of this
/// function is not given here; it is a function of the line's bytes alone.
pub uninterp spec fn fragment_of(line: Seq<u8>) -> Option<Seq<char>>;

/// The text a line contributes to the aggregate: its fragment, or nothing.
pub open spec fn frag_text(line: Seq<u8>) -> Seq<char> {
    match fragment_of(line) {
        Option::Some(f) => f,
        Option::None => Seq::<char>::empty(),
    }
}

/// Relies on `serde_json::from_slice`, `serde_json::Value::get` and
/// `serde_json::Value::as_str`: whether a line parses as JSON with a string
/// field `response`, and that field's text, depend on the line's bytes alone.
#[verifier::external_body]
pub(crate) fn extract_fragment(line: &[u8]) -> (r: Option<String>)
    ensures
        r.deep_view() == fragment_of(line@),
{
    match serde_json::from_slice::<serde_json::Value>(line) {
        Ok(value) => value.get("response").and_then(|f| f.as_str()).map(String::from),
        Err(_) => None,
    }
}

} // verus!
