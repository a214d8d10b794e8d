//! The version extractor: the first match of a pattern in a banner.

use crate::text::has_substring;
use regex::Regex;
use vstd::prelude::*;

verus! {

/// A run of digits and dots.
pub const DOTTED_NUMBER: &'static str = r"[\d.]+";

/// The protocol banner of a secure shell server.
pub const SSH_BANNER: &'static str = r"SSH-\d+\.\d+-[\w.-]+";

/// The product token of an Apache server.
pub const APACHE_TOKEN: &'static str = r"Apache/[\d.]+";

/// The product token of an nginx server.
pub const NGINX_TOKEN: &'static str = r"nginx/[\d.]+";

/// The capability token of a mail access server.
pub const IMAP_TOKEN: &'static str = r"IMAP\d+[\w.-]+";

/// Three numbers with dots between them.
pub const THREE_PART_NUMBER: &'static str = r"\d+\.\d+\.\d+";

/// Two numbers with a dot between them.
pub const TWO_PART_NUMBER: &'static str = r"\d+\.\d+";

/// The text that the `regex` crate reports as the first match of `pattern`
/// in `text`: the leftmost place where the expression matches, taken whole.
/// `None` where the expression matches nowhere, and where the crate refuses
/// `pattern` as an expression.
pub uninterp spec fn regex_first_match(pattern: Seq<char>, text: Seq<char>) -> Option<Seq<char>>;

/// Compiles `pattern` with `regex::Regex::new`, searches `text` with
/// `Regex::captures` and copies out group 0, the whole match, with
/// `Captures::get` and `Match::as_str`.
///
/// Believed without proof: the outcome is a function of the two strings alone,
/// and a match that is reported is a piece of `text` (`Match::as_str` slices
/// the searched text by the match's range).
#[verifier::external_body]
fn first_match(pattern: &str, text: &str) -> (found: Option<String>)
    ensures
        found.deep_view() == regex_first_match(pattern@, text@),
        found matches Some(whole) ==> has_substring(text@, whole@),
{
    match Regex::new(pattern) {
        Ok(compiled) => compiled.captures(text).and_then(|groups| groups.get(0)).map(
            |whole| whole.as_str().to_string(),
        ),
        Err(_) => None,
    }
}

/// Applies `pattern` to `response` and returns the first full match, if any.
/// A pattern that is no valid expression finds nothing.
pub fn extract_version(response: &str, pattern: &str) -> (version: Option<String>)
    ensures
        version.deep_view() == regex_first_match(pattern@, response@),
        version matches Some(whole) ==> has_substring(response@, whole@),
{
    first_match(pattern, response)
}

} // verus!
