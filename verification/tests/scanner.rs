//! End-to-end scans over whole files of lines.

use classdoc::model::LineType;
use classdoc::scan::parse_lines;
use classdoc::scan::Scanner;

fn lines_of(raw: &[&str]) -> Vec<String> {
    let mut v: Vec<String> = Vec::new();
    for l in raw {
        v.push(l.to_string());
    }
    v
}

#[test]
fn empty_input_gives_empty_record() {
    let class = parse_lines(&Vec::new());
    assert_eq!(class.package_name, "");
    assert_eq!(class.class_name, "");
    assert_eq!(class.access, "");
    assert_eq!(class.description, "");
    assert_eq!(class.author, "");
    assert_eq!(class.version, "");
    assert_eq!(class.deprecation, "");
    assert!(class.dependencies.is_empty());
    assert!(class.methods.is_empty());
}

#[test]
fn package_name_extracted_exactly() {
    let class = parse_lines(&lines_of(&["package com.example.app;"]));
    assert_eq!(class.package_name, "com.example.app");
}

#[test]
fn package_name_loses_semicolons_and_whitespace() {
    let class = parse_lines(&lines_of(&["package com.example.app;; "]));
    assert_eq!(class.package_name, "com.example.app");
}

#[test]
fn keyword_token_without_successor_is_skipped() {
    let class = parse_lines(&lines_of(&["package a.b; trailingpackage"]));
    assert_eq!(class.package_name, "a.b");
}

#[test]
fn imports_appended_in_source_order() {
    let class = parse_lines(&lines_of(&[
        "import java.util.List;",
        "import java.io.File;",
    ]));
    assert_eq!(class.dependencies.len(), 2);
    assert_eq!(class.dependencies[0], "java.util.List");
    assert_eq!(class.dependencies[1], "java.io.File");
}

#[test]
fn doc_block_attaches_to_following_method() {
    let class = parse_lines(&lines_of(&[
        "/**",
        "* A widget.",
        "* @param id the identifier",
        "*/",
        "public Widget(int id) {",
    ]));
    assert_eq!(class.methods.len(), 1);
    let m = &class.methods[0];
    assert_eq!(m.name, "Widget");
    assert_eq!(m.privacy, "public");
    assert!(m.description.contains("A widget."));
    assert_eq!(m.description, " A widget.  ");
    assert_eq!(m.parameters.len(), 1);
    assert_eq!(m.parameters[0].name, "id");
    assert_eq!(m.parameters[0].desc, "the identifier ");
    assert_eq!(m.return_type, "");
    assert!(m.exceptions.is_empty());
}

#[test]
fn doc_block_attaches_to_first_class() {
    let class = parse_lines(&lines_of(&[
        "/**",
        "* Does things.",
        "* @author Jane",
        "* @version 1.2",
        "* @deprecated old",
        "*/",
        "public class Doer {",
    ]));
    assert_eq!(class.class_name, "Doer");
    assert_eq!(class.access, "public");
    assert_eq!(class.description, " Does things.  ");
    assert_eq!(class.author, "Jane ");
    assert_eq!(class.version, "1.2 ");
    assert_eq!(class.deprecation, "old ");
    assert!(class.methods.is_empty());
}

#[test]
fn doc_block_feeds_only_the_next_method() {
    let class = parse_lines(&lines_of(&[
        "/**",
        "* First one.",
        "* @return a number",
        "*/",
        "public int first() {",
        "public int second() {",
    ]));
    assert_eq!(class.methods.len(), 2);
    assert_eq!(class.methods[0].name, "first");
    assert_eq!(class.methods[0].description, " First one.  ");
    assert_eq!(class.methods[0].return_type, "a number ");
    assert_eq!(class.methods[1].name, "second");
    assert_eq!(class.methods[1].description, "");
    assert_eq!(class.methods[1].return_type, "");
    assert!(class.methods[1].parameters.is_empty());
}

#[test]
fn file_without_doc_blocks_has_empty_doc_fields() {
    let class = parse_lines(&lines_of(&[
        "package a.b;",
        "import java.util.Map;",
        "public class Plain {",
        "public int getId() {",
        "}",
    ]));
    assert_eq!(class.class_name, "Plain");
    assert_eq!(class.description, "");
    assert_eq!(class.author, "");
    assert_eq!(class.version, "");
    assert_eq!(class.deprecation, "");
    assert_eq!(class.methods.len(), 1);
    assert_eq!(class.methods[0].description, "");
    assert_eq!(class.methods[0].return_type, "");
    assert!(class.methods[0].parameters.is_empty());
    assert!(class.methods[0].exceptions.is_empty());
}

#[test]
fn second_class_keyword_does_not_overwrite() {
    let class = parse_lines(&lines_of(&[
        "public class First {",
        "private class Second {",
    ]));
    assert_eq!(class.class_name, "First");
    assert_eq!(class.access, "public");
}

#[test]
fn pending_doc_survives_a_second_class_line_for_the_next_method() {
    let class = parse_lines(&lines_of(&[
        "public class First {",
        "/**",
        "* Pending text.",
        "*/",
        "class Second {",
        "public void run() {",
    ]));
    assert_eq!(class.class_name, "First");
    assert_eq!(class.description, "");
    assert_eq!(class.methods.len(), 1);
    assert_eq!(class.methods[0].description, " Pending text.  ");
}

#[test]
fn isolated_stars_never_reach_descriptions() {
    let class = parse_lines(&lines_of(&[
        "/**",
        "* one * two",
        "*/",
        "public void go() {",
    ]));
    assert_eq!(class.methods.len(), 1);
    assert_eq!(class.methods[0].description, " one two  ");
    assert!(!class.methods[0].description.contains('*'));
}

#[test]
fn plain_comment_block_collects_like_a_doc_block() {
    let class = parse_lines(&lines_of(&[
        "/* plain block",
        "* noted here",
        "*/",
        "public void go() {",
    ]));
    assert_eq!(class.methods.len(), 1);
    assert_eq!(class.methods[0].description, " noted here  ");
}

#[test]
fn scanner_reducer_steps_match_whole_scan() {
    let lines = lines_of(&["package p.q;", "public class C {"]);
    let mut s = Scanner::new();
    for l in &lines {
        s = s.process_line(l);
    }
    let class = s.finish();
    assert_eq!(class.package_name, "p.q");
    assert_eq!(class.class_name, "C");
}

#[test]
fn line_comment_changes_nothing() {
    let class = parse_lines(&lines_of(&["// class NotReally {"]));
    // priority: the class keyword wins over the comment marker on one line
    assert_eq!(class.class_name, "NotReally");
    let class2 = parse_lines(&lines_of(&["// just words here"]));
    assert_eq!(class2.class_name, "");
    assert_eq!(class2.methods.len(), 0);
    let _ = LineType::IsComment;
}
