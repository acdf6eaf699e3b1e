//! Cleaning of text that may hold HTML.

use vstd::prelude::*;

verus! {

/// What is left of a piece of HTML once everything outside the conservative
/// default set of tags, attributes and URL schemes is taken out.
pub uninterp spec fn cleaned_html(input: Seq<char>) -> Seq<char>;

/// Cleans a piece of HTML.
///
/// Trusted: calls `ammonia::clean`, which parses the text as an HTML fragment
/// and writes it out again with its default settings: only a fixed set of
/// harmless tags and attributes is kept, `script` and `style` go with their
/// contents, comments go, and links are marked `noopener noreferrer`. The
/// result depends on the text alone.
#[verifier::external_body]
pub fn sanitize_html(input: &str) -> (clean: String)
    ensures
        clean@ == cleaned_html(input@),
{
    ammonia::clean(input)
}

/// Cleans a piece of HTML where there is one.
pub fn sanitize_optional_html(input: Option<&str>) -> (clean: Option<String>)
    ensures
        input is None ==> clean is None,
        input is Some ==> clean is Some && clean->0@ == cleaned_html(input->0@),
{
    match input {
        Some(text) => Some(sanitize_html(text)),
        None => None,
    }
}

} // verus!
