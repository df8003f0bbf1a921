//! Recognising a raw peer address: four dot-separated runs of decimal digits,
//! a colon and a port, as in `127.0.0.1:9001`. The check is made by the
//! `regex` crate.

use vstd::prelude::*;

verus! {

/// The pattern a raw `host:port` address matches, whole.
pub const ADDRESS_PATTERN: &'static str = "^\\d+\\.\\d+\\.\\d+\\.\\d+:\\d+$";

/// Whether `regex::Regex::new` accepts `pattern` under its default settings.
pub uninterp spec fn regex_compiles(pattern: Seq<char>) -> bool;

/// Whether the regex compiled from `pattern` matches somewhere in `haystack`.
pub uninterp spec fn regex_finds(pattern: Seq<char>, haystack: Seq<char>) -> bool;

/// Relies on `regex::Regex::new`, which fails exactly on patterns it rejects,
/// and on `Regex::is_match`, which reports whether the compiled regex matches
/// anywhere in the haystack.
#[verifier::external_body]
fn regex_is_match(pattern: &str, haystack: &str) -> (r: Option<bool>)
    ensures
        r is Some <==> regex_compiles(pattern@),
        r matches Some(found) ==> found == regex_finds(pattern@, haystack@),
{
    match regex::Regex::new(pattern) {
        Ok(re) => Some(re.is_match(haystack)),
        Err(_) => None,
    }
}

/// Whether `s` is a well-formed raw address.
pub open spec fn is_address(s: Seq<char>) -> bool {
    regex_compiles(ADDRESS_PATTERN@) && regex_finds(ADDRESS_PATTERN@, s)
}

/// Tells whether `s` is a raw `host:port` address rather than a contact name.
pub fn is_ip_addr(s: &str) -> (r: bool)
    ensures
        r == is_address(s@),
{
    match regex_is_match(ADDRESS_PATTERN, s) {
        Some(found) => found,
        None => false,
    }
}

} // verus!
