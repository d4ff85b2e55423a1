//! Unit tests of the classifier, the tag parser, and the extractors.

use classdoc::classify::determine_line_type;
use classdoc::classify::end_doc_match;
use classdoc::classify::start_comment_match;
use classdoc::classify::start_doc_match;
use classdoc::doc::doc_desc;
use classdoc::doc::handle_doc;
use classdoc::extract::handle_class;
use classdoc::extract::handle_method;
use classdoc::model::{Class, LineType, Method, ParseState};

fn fresh_state() -> ParseState {
    ParseState { class: false, doc: false, comment: false, doc_ready: false }
}

fn fresh_class() -> Class {
    Class {
        package_name: String::new(),
        dependencies: Vec::new(),
        deprecation: String::new(),
        access: String::new(),
        version: String::new(),
        author: String::new(),
        class_name: String::new(),
        description: String::new(),
        methods: Vec::new(),
    }
}

fn fresh_method() -> Method {
    Method {
        parameters: Vec::new(),
        exceptions: Vec::new(),
        name: String::new(),
        privacy: String::new(),
        description: String::new(),
        return_type: String::new(),
    }
}

fn lines_of(raw: &[&str]) -> Vec<String> {
    let mut v: Vec<String> = Vec::new();
    for l in raw {
        v.push(l.to_string());
    }
    v
}

#[test]
fn classifier_priority_order() {
    let st = fresh_state();
    assert_eq!(
        determine_line_type(&"package a.b;".to_string(), &st),
        LineType::IsPackage
    );
    assert_eq!(
        determine_line_type(&"public class Foo {".to_string(), &st),
        LineType::IsClass
    );
    assert_eq!(
        determine_line_type(&"import java.util.List;".to_string(), &st),
        LineType::IsImport
    );
    assert_eq!(
        determine_line_type(&"public int getId() {".to_string(), &st),
        LineType::IsMethod
    );
    assert_eq!(
        determine_line_type(&"/** docs".to_string(), &st),
        LineType::IsStartdoc
    );
    assert_eq!(
        determine_line_type(&"/* plain".to_string(), &st),
        LineType::IsStartdoc
    );
    assert_eq!(determine_line_type(&" */".to_string(), &st), LineType::IsEnddoc);
    assert_eq!(
        determine_line_type(&"// remark".to_string(), &st),
        LineType::IsComment
    );
    assert_eq!(
        determine_line_type(&"int x = 5;".to_string(), &st),
        LineType::IsOther
    );
}

#[test]
fn constructor_line_counts_as_method() {
    let st = fresh_state();
    assert_eq!(
        determine_line_type(&"public Widget(int id) {".to_string(), &st),
        LineType::IsMethod
    );
}

#[test]
fn class_keyword_ignored_inside_doc_block() {
    let mut st = fresh_state();
    st.doc = true;
    assert_eq!(
        determine_line_type(&"public class Foo {".to_string(), &st),
        LineType::IsOther
    );
}

#[test]
fn doc_and_comment_openers_and_closers() {
    assert!(start_doc_match(&"/** here".to_string()));
    assert!(!start_doc_match(&"/* here".to_string()));
    assert!(start_comment_match(&"/* here".to_string()));
    assert!(!start_comment_match(&"/** here".to_string()));
    assert!(end_doc_match(&"**/".to_string()));
    assert!(end_doc_match(&" */".to_string()));
    assert!(!end_doc_match(&"nothing".to_string()));
}

#[test]
fn doc_desc_joins_with_trailing_space() {
    assert_eq!(doc_desc(&lines_of(&["a", "b"])), "a b ");
    assert_eq!(doc_desc(&Vec::new()), "");
}

#[test]
fn tag_parser_collects_all_fields() {
    let d = handle_doc(&lines_of(&[
        "* Summary line.",
        "* @param id the identifier",
        "* @param name",
        "* @return a count",
        "* @author Jane Doe",
        "* @version 2.0",
        "* @deprecated use other",
        "* @expeption BadThing when sour",
    ]));
    assert_eq!(d.description, " Summary line.  ");
    assert_eq!(d.params.len(), 2);
    assert_eq!(d.params[0].name, "id");
    assert_eq!(d.params[0].desc, "the identifier ");
    assert_eq!(d.params[1].name, "name");
    assert_eq!(d.params[1].desc, "");
    assert_eq!(d.return_desc, "a count ");
    assert_eq!(d.author, "Jane Doe ");
    assert_eq!(d.version, "2.0 ");
    assert_eq!(d.deprecated, "use other ");
    assert_eq!(d.exceptions.len(), 1);
    assert_eq!(d.exceptions[0], "BadThing when sour ");
}

#[test]
fn correctly_spelled_exception_tag_is_not_recognized() {
    let d = handle_doc(&lines_of(&["* @exception BadThing when sour"]));
    assert!(d.exceptions.is_empty());
    // the line carries an `@`, so it does not feed the description either
    assert_eq!(d.description, "");
}

#[test]
fn short_lines_and_bare_tags_are_skipped() {
    let d = handle_doc(&lines_of(&["*", "* word", "* @param", ""]));
    assert!(d.params.is_empty());
    assert_eq!(d.description, "");
}

#[test]
fn later_tag_overwrites_earlier_one() {
    let d = handle_doc(&lines_of(&["* @version 1.0", "* @version 1.1"]));
    assert_eq!(d.version, "1.1 ");
}

#[test]
fn class_extraction_takes_access_and_name() {
    let c = handle_class(fresh_class(), &"protected class Gadget {".to_string());
    assert_eq!(c.access, "protected");
    assert_eq!(c.class_name, "Gadget");
}

#[test]
fn class_name_kept_verbatim_with_punctuation() {
    let c = handle_class(fresh_class(), &"class Gadget{".to_string());
    assert_eq!(c.class_name, "Gadget{");
}

#[test]
fn method_extraction_takes_privacy_and_name() {
    let m = handle_method(fresh_method(), &"private static int tally(int a, int b) {".to_string());
    assert_eq!(m.privacy, "private");
    assert_eq!(m.name, "tally");
}

#[test]
fn method_name_is_text_before_first_parenthesis() {
    let m = handle_method(fresh_method(), &"void go() {".to_string());
    assert_eq!(m.name, "go");
}
