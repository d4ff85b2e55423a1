//! The line classifier: assigns each physical line a semantic category,
//! checked in a fixed priority order in which the earlier category always
//! wins.

use vstd::prelude::*;

use crate::model::{LineType, ParseState};
use crate::patterns::is_method_line;
use crate::patterns::method_line_match;
use crate::text::contains_sub;
use crate::text::has_sub;

verus! {

/// The category of `line` under state `st`, first match wins: package,
/// class declaration (only outside documentation and comment blocks),
/// import, method declaration, documentation or comment opener, closer,
/// line comment, other.
pub open spec fn line_type_spec(line: Seq<char>, st: ParseState) -> LineType {
    if has_sub(line, "package "@) {
        LineType::IsPackage
    } else if has_sub(line, "class "@) && !st.comment && !st.doc {
        LineType::IsClass
    } else if has_sub(line, "import "@) {
        LineType::IsImport
    } else if is_method_line(line) {
        LineType::IsMethod
    } else if has_sub(line, "/**"@) {
        LineType::IsStartdoc
    } else if has_sub(line, "/*"@) && !has_sub(line, "/**"@) {
        LineType::IsStartdoc
    } else if has_sub(line, "**/"@) || has_sub(line, "*/"@) {
        LineType::IsEnddoc
    } else if has_sub(line, "//"@) {
        LineType::IsComment
    } else {
        LineType::IsOther
    }
}

/// Whether the line opens a documentation block proper.
pub fn start_doc_match(text: &String) -> (r: bool)
    ensures
        r == has_sub(text@, "/**"@),
{
    contains_sub(text.as_str(), "/**")
}

/// Whether the line opens a plain block comment that is not a
/// documentation block.
pub fn start_comment_match(text: &String) -> (r: bool)
    ensures
        r == (has_sub(text@, "/*"@) && !has_sub(text@, "/**"@)),
{
    contains_sub(text.as_str(), "/*") && !contains_sub(text.as_str(), "/**")
}

/// Whether the line closes a documentation or comment block.
pub fn end_doc_match(text: &String) -> (r: bool)
    ensures
        r == (has_sub(text@, "**/"@) || has_sub(text@, "*/"@)),
{
    if contains_sub(text.as_str(), "**/") {
        true
    } else {
        contains_sub(text.as_str(), "*/")
    }
}

/// Classifies one line, pure in the current state.
pub fn determine_line_type(line: &String, state: &ParseState) -> (t: LineType)
    ensures
        t == line_type_spec(line@, *state),
{
    if contains_sub(line.as_str(), "package ") {
        LineType::IsPackage
    } else if contains_sub(line.as_str(), "class ") && !state.comment && !state.doc {
        LineType::IsClass
    } else if contains_sub(line.as_str(), "import ") {
        LineType::IsImport
    } else if method_line_match(line.as_str()) {
        LineType::IsMethod
    } else if start_doc_match(line) {
        LineType::IsStartdoc
    } else if start_comment_match(line) {
        LineType::IsStartdoc
    } else if end_doc_match(line) {
        LineType::IsEnddoc
    } else if contains_sub(line.as_str(), "//") {
        LineType::IsComment
    } else {
        LineType::IsOther
    }
}

} // verus!
