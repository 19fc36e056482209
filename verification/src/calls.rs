//! The few standard-library and serde_json calls the library relies on, each behind
//! a small wrapper whose contract states what the called function documents.

use vstd::prelude::*;

verus! {

/// What `str::to_lowercase` returns for a text: Unicode lowercase mapping,
/// a function of the text alone.
pub uninterp spec fn lowercase(s: Seq<char>) -> Seq<char>;

/// What `str::to_uppercase` returns for a text: Unicode uppercase mapping,
/// a function of the text alone.
pub uninterp spec fn uppercase(s: Seq<char>) -> Seq<char>;

/// Whether `serde_json::from_str::<serde_json::Value>` accepts the text as one
/// JSON document, a function of the text alone.
pub uninterp spec fn parses_as_json(s: Seq<char>) -> bool;

/// Appends one character to a `String` with `String::push`; the claim is that the
/// text grows by exactly that character at the end.
#[verifier::external_body]
pub(crate) fn push_char(s: &mut String, c: char)
    ensures
        final(s)@ == old(s)@.push(c),
{
    s.push(c);
}

/// Calls `str::to_lowercase`; the claim is only that the result is the named
/// lowercase mapping of the argument.
#[verifier::external_body]
pub(crate) fn to_lowercase(s: &str) -> (r: String)
    ensures
        r@ == lowercase(s@),
{
    s.to_lowercase()
}

/// Calls `str::to_uppercase`; the claim is only that the result is the named
/// uppercase mapping of the argument.
#[verifier::external_body]
pub(crate) fn to_uppercase(s: &str) -> (r: String)
    ensures
        r@ == uppercase(s@),
{
    s.to_uppercase()
}

/// What `serde_json::to_string_pretty` renders of the `serde_json::Value` that
/// `serde_json::from_str` parses out of a text (two-space indentation, members in
/// the order serde_json keeps them), a function of the text alone.
pub uninterp spec fn pretty_json(s: Seq<char>) -> Seq<char>;

/// Parses a text with `serde_json::from_str::<serde_json::Value>` and renders the
/// value with `serde_json::to_string_pretty`. The claim: a rendering comes back
/// exactly when the text parses, and it is the named rendering of the text.
/// Rendering a parsed `Value` into a `String` does not fail: its map keys are
/// strings and its numbers are finite, the two failure causes serde_json documents.
#[verifier::external_body]
pub(crate) fn render_json(s: &str) -> (r: Option<String>)
    ensures
        r is Some == parses_as_json(s@),
        r matches Some(p) ==> p@ == pretty_json(s@),
{
    serde_json::from_str::<serde_json::Value>(s).ok().and_then(|v| serde_json::to_string_pretty(&v).ok())
}

} // verus!
