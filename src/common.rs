//! Normalisation steps shared by several object kinds.
use crate::text::{lemma_trim_idempotent, trim, trim_str};
use crate::urls::{parse_url, url_parse_of};
use vstd::prelude::*;

verus! {

/// `s` parses as a URL.
pub open spec fn url_ok(s: Seq<char>) -> bool {
    url_parse_of(s) is Some
}

/// The normal form of the URL `s`, if it parses.
pub open spec fn url_norm(s: Seq<char>) -> Option<Seq<char>> {
    match url_parse_of(s) {
        Some(m) => Some(m.3),
        None => None,
    }
}

/// The URL `s`, trimmed, parses to a normal form that is already trimmed
/// and that parses to itself.
pub open spec fn url_stable(s: Seq<char>) -> bool {
    match url_norm(trim(s)) {
        Some(n) => trim(n) == n && url_norm(n) == Some(n),
        None => true,
    }
}

pub open spec fn opt_view(o: Option<String>) -> Option<Seq<char>> {
    match o {
        Some(s) => Some(s@),
        None => None,
    }
}

pub open spec fn opt_str(o: Option<&str>) -> Option<Seq<char>> {
    match o {
        Some(s) => Some(s@),
        None => None,
    }
}

/// Whether `s` parses as a URL.
pub fn is_url(s: &str) -> (r: bool)
    ensures
        r == url_ok(s@),
{
    parse_url(s).is_some()
}

/// The normal form of the trimmed URL `s`, if it parses.
pub fn normalize_url(s: &str) -> (r: Option<String>)
    ensures
        opt_view(r) == url_norm(trim(s@)),
{
    let t = trim_str(s);
    match parse_url(t.as_str()) {
        Some(p) => Some(p.text),
        None => None,
    }
}

/// Normalising a stable URL twice is normalising it once.
pub proof fn lemma_url_norm_stable(s: Seq<char>)
    requires
        url_stable(s),
    ensures
        url_norm(trim(s)) matches Some(n) ==> url_norm(trim(n)) == Some(n) && url_stable(n),
{
    if let Some(n) = url_norm(trim(s)) {
        lemma_trim_idempotent(n);
    }
}

} // verus!
