use vstd::prelude::*;

verus! {

/// A JSON value, as the `serde_json` crate represents it. Verus sees nothing
/// inside such a value: the library only carries it through.
#[verifier::external_type_specification]
#[verifier::external_body]
pub struct ExJsonValue(serde_json::Value);

/// `serde_json::Value::clone`: the derived implementation copies the value
/// exactly, and the contract claims that the copy equals the original.
pub assume_specification[ <serde_json::Value as Clone>::clone ](v: &serde_json::Value) -> (r: serde_json::Value)
    ensures
        r == *v,
;

/// The value `serde_json::from_str` builds from JSON text, or `null` where the
/// text is not JSON: a function of the text alone.
pub uninterp spec fn parsed_json(text: Seq<char>) -> serde_json::Value;

/// Parses JSON text into a value, giving `null` where the text is not JSON.
///
/// Trusted: calls `serde_json::from_str`; the contract names the result
/// `parsed_json` of the text and says nothing more of it.
#[verifier::external_body]
pub fn json_from_text(text: &str) -> (r: serde_json::Value)
    ensures
        r == parsed_json(text@),
{
    match serde_json::from_str::<serde_json::Value>(text) {
        Ok(v) => v,
        Err(_) => serde_json::Value::Null,
    }
}

} // verus!
