//! The two fixed regular expressions of the scanner — the method-signature
//! heuristic and the access-modifier words — and the trusted bridge to the
//! `regex` crate that evaluates them.

use vstd::prelude::*;

verus! {

/// What `regex::Regex::is_match` returns for a pattern and a text: the match
/// relation is a function of the two strings alone.
pub uninterp spec fn regex_match_of(pattern: Seq<char>, text: Seq<char>) -> bool;

/// Relies on `regex::Regex::new` and `regex::Regex::is_match`: whether the
/// compiled pattern matches anywhere in `text`. A pattern that does not
/// compile matches nothing.
#[verifier::external_body]
fn regex_is_match(pattern: &str, text: &str) -> (r: bool)
    ensures
        r == regex_match_of(pattern@, text@),
{
    match regex::Regex::new(pattern) {
        Ok(re) => re.is_match(text),
        Err(_) => false,
    }
}

/// The method-signature pattern: an optional access or modifier word,
/// whitespace, a type token (identifier, optionally array-bracketed),
/// whitespace, an identifier, and a parenthesized parameter list with no
/// nested parentheses.
pub open spec fn method_pattern() -> Seq<char> {
    r"((public|protected|private|static)\s+)?[\w\[\]]+\s+(\w+) *\([^\)]*\)"@
}

fn method_pattern_str() -> (s: &'static str)
    ensures
        s@ == method_pattern(),
{
    r"((public|protected|private|static)\s+)?[\w\[\]]+\s+(\w+) *\([^\)]*\)"
}

/// The access-modifier pattern: the text holds one of the three access
/// words.
pub open spec fn access_pattern() -> Seq<char> {
    r"(public|protected|private)"@
}

fn access_pattern_str() -> (s: &'static str)
    ensures
        s@ == access_pattern(),
{
    r"(public|protected|private)"
}

/// A line that declares a method, as the method-signature pattern decides.
pub open spec fn is_method_line(line: Seq<char>) -> bool {
    regex_match_of(method_pattern(), line)
}

/// Evaluates the method-signature pattern on a whole line.
pub fn method_line_match(line: &str) -> (r: bool)
    ensures
        r == is_method_line(line@),
{
    regex_is_match(method_pattern_str(), line)
}

/// A token that carries an access-modifier word, as the access pattern
/// decides.
pub open spec fn is_access_token(tok: Seq<char>) -> bool {
    regex_match_of(access_pattern(), tok)
}

/// Evaluates the access-modifier pattern on one token.
pub fn access_token_match(tok: &str) -> (r: bool)
    ensures
        r == is_access_token(tok@),
{
    regex_is_match(access_pattern_str(), tok)
}

} // verus!
