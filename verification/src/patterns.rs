//! Regular expressions and web addresses, read through the `regex` and
//! `url` crates.
use vstd::prelude::*;
use crate::text::contains_text;

verus! {

/// A short pattern (at most a hundred characters) made only of ASCII
/// letters, digits and `=`: none of these is special in a regular
/// expression, so each matches itself, and so short a pattern stays far
/// below the size limit that compiling checks.
pub open spec fn is_plain_literal(pattern: Seq<char>) -> bool {
    &&& pattern.len() <= 100
    &&& forall|i: int| 0 <= i < pattern.len() ==> {
        let c = #[trigger] pattern[i];
        ('a' <= c && c <= 'z') || ('A' <= c && c <= 'Z') || ('0' <= c && c <= '9') || c == '='
    }
}

/// Whether the regular expression `pattern` matches somewhere in `text`, as
/// the `regex` crate decides it; `None` when the pattern does not compile.
pub uninterp spec fn regex_match(pattern: Seq<char>, text: Seq<char>) -> Option<bool>;

/// Compiles `pattern` with `regex::Regex::new` and asks `Regex::is_match`
/// whether it matches somewhere in `text`; `None` when the pattern does not
/// compile (invalid, or over the default size limit). The result is named by
/// `regex_match`; beyond that only the short plain literal case is stated:
/// such a pattern compiles and matches exactly where the text holds it, as
/// the crate documents for characters that are not meta characters. Long
/// patterns may exceed the size limit and are left unstated.
#[verifier::external_body]
pub fn regex_is_match(pattern: &str, text: &str) -> (r: Option<bool>)
    ensures
        r == regex_match(pattern@, text@),
        is_plain_literal(pattern@) ==> r == Some(contains_text(text@, pattern@)),
{
    match regex::Regex::new(pattern) {
        Ok(re) => Some(re.is_match(text)),
        Err(_) => None,
    }
}

/// The views of optional captured texts.
pub open spec fn captured_views(v: Seq<Option<String>>) -> Seq<Option<Seq<char>>> {
    v.map_values(|o: Option<String>| match o {
        Some(s) => Some(s@),
        None => None,
    })
}

/// The texts that the named groups `names` capture in the leftmost match of
/// `pattern` in `text`, as the `regex` crate finds them: `None` when the
/// pattern does not compile, `Some(None)` when it does not match, and one
/// entry per name otherwise (`None` for a group that took no part).
pub uninterp spec fn regex_named_captures(pattern: Seq<char>, text: Seq<char>, names: Seq<Seq<char>>) -> Option<Option<Seq<Option<Seq<char>>>>>;

/// Compiles `pattern` with `regex::Regex::new`, runs `Regex::captures` on
/// `text` and reads each named group with `Captures::name`. The result is
/// named by `regex_named_captures`; which texts the groups take is left to
/// the crate's matching rules and not stated further.
#[verifier::external_body]
pub fn regex_captures(pattern: &str, text: &str, names: &Vec<String>) -> (r: Option<Option<Vec<Option<String>>>>)
    ensures
        match r {
            None => regex_named_captures(pattern@, text@, names@.map_values(|n: String| n@)) is None,
            Some(None) => regex_named_captures(pattern@, text@, names@.map_values(|n: String| n@)) == Some(None::<Seq<Option<Seq<char>>>>),
            Some(Some(v)) => {
                &&& v@.len() == names@.len()
                &&& regex_named_captures(pattern@, text@, names@.map_values(|n: String| n@)) == Some(Some(captured_views(v@)))
            },
        },
{
    let re = match regex::Regex::new(pattern) {
        Ok(re) => re,
        Err(_) => return None,
    };
    let caps = match re.captures(text) {
        Some(caps) => caps,
        None => return Some(None),
    };
    let mut out = Vec::new();
    for n in names {
        out.push(caps.name(n).map(|m| m.as_str().to_string()));
    }
    Some(Some(out))
}

/// The web address `input` as the `url` crate parses it: its serialization
/// and, when its host is a domain name, that domain; `None` when `input` is
/// no address.
pub uninterp spec fn url_parts(input: Seq<char>) -> Option<(Seq<char>, Option<Seq<char>>)>;

/// Parses `input` with `url::Url::parse` (what `Url::from_str` does) and
/// reads `Url::as_str` and `Url::domain`. The result is named by
/// `url_parts`; the parsing rules are the WHATWG URL standard's and are not
/// stated further.
#[verifier::external_body]
pub fn parse_url(input: &str) -> (r: Option<(String, Option<String>)>)
    ensures
        url_parts(input@) == match r {
            None => None,
            Some((s, None)) => Some((s@, None)),
            Some((s, Some(d))) => Some((s@, Some(d@))),
        },
{
    match url::Url::parse(input) {
        Ok(u) => Some((u.as_str().to_string(), u.domain().map(|d| d.to_string()))),
        Err(_) => None,
    }
}

} // verus!
