//! Domain and message filters of writers: regular expressions through `regex`.

use vstd::prelude::*;

verus! {

#[verifier::external_type_specification]
#[verifier::external_body]
pub struct ExRegexError(regex::Error);

/// Whether `regex` accepts `pattern` as a regular expression.
pub uninterp spec fn regex_valid(pattern: Seq<char>) -> bool;

/// Whether the regular expression `pattern` matches somewhere in `text`.
pub uninterp spec fn regex_matches(pattern: Seq<char>, text: Seq<char>) -> bool;

/// Compiles `pattern` with `regex::Regex::new`; the result is `Ok` exactly
/// when the pattern is a valid regular expression.
#[verifier::external_body]
pub(crate) fn regex_check(pattern: &str) -> (r: Result<(), regex::Error>)
    ensures
        r is Ok <==> regex_valid(pattern@),
{
    match regex::Regex::new(pattern) {
        Ok(_) => Ok(()),
        Err(e) => Err(e),
    }
}

/// Compiles `pattern` with `regex::Regex::new` and tests it against `text`
/// with `regex::Regex::is_match`.
#[verifier::external_body]
pub(crate) fn regex_is_match(pattern: &str, text: &str) -> (r: bool)
    requires
        regex_valid(pattern@),
    ensures
        r == regex_matches(pattern@, text@),
{
    regex::Regex::new(pattern).unwrap().is_match(text)
}

/// Whether a filter lets `text` pass: no filter lets everything pass.
pub open spec fn filter_passes(filter: Option<String>, text: Seq<char>) -> bool {
    match filter {
        None => true,
        Some(p) => regex_matches(p@, text),
    }
}

pub open spec fn filter_valid(filter: Option<String>) -> bool {
    match filter {
        None => true,
        Some(p) => regex_valid(p@),
    }
}

/// Whether a message passes the filters of a writer. The domain filter is
/// tested against the domain, the message filter against `message_text`.
pub open spec fn passes_filters_spec(
    enabled: bool,
    domain_filter: Option<String>,
    message_filter: Option<String>,
    domain: Seq<char>,
    message_text: Seq<char>,
) -> bool {
    enabled && filter_passes(domain_filter, domain) && filter_passes(message_filter, message_text)
}

/// Tests a filter.
pub fn filter_lets_pass(filter: &Option<String>, text: &str) -> (r: bool)
    requires
        filter_valid(*filter),
    ensures
        r == filter_passes(*filter, text@),
{
    match filter {
        None => true,
        Some(p) => regex_is_match(p.as_str(), text),
    }
}

/// Whether a writer hands on a message: it must be enabled, and pass the
/// domain filter and the message filter.
pub fn passes_filters(
    enabled: bool,
    domain_filter: &Option<String>,
    message_filter: &Option<String>,
    domain: &str,
    message_text: &str,
) -> (r: bool)
    requires
        filter_valid(*domain_filter),
        filter_valid(*message_filter),
    ensures
        r == passes_filters_spec(enabled, *domain_filter, *message_filter, domain@, message_text@),
{
    if !enabled {
        return false;
    }
    if !filter_lets_pass(domain_filter, domain) {
        return false;
    }
    filter_lets_pass(message_filter, message_text)
}

/// Checks a new filter: `Ok` exactly when it is absent or a valid regular
/// expression.
pub fn check_filter(filter: &Option<String>) -> (r: Result<(), regex::Error>)
    ensures
        r is Ok <==> filter_valid(*filter),
{
    match filter {
        None => Ok(()),
        Some(p) => regex_check(p.as_str()),
    }
}

} // verus!
