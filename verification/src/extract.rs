//! The class and method extractors, and the package/import target
//! extraction that the scanner driver applies directly.

use vstd::prelude::*;
use vstd::string::*;

use crate::model::{Class, ClassV, Method, MethodV};
use crate::patterns::access_token_match;
use crate::patterns::is_access_token;
use crate::text::clean_target;
use crate::text::clean_token;
use crate::text::contains_sub;
use crate::text::first_at;
use crate::text::has_sub;
use crate::text::split_sp;
use crate::text::split_spaces;
use crate::text::take_until;

verus! {

/// The class record after the first `n` whitespace-split tokens of a class
/// declaration line are examined: an access-modifier token sets the access
/// field, a token containing the class keyword makes the next token (when
/// there is one) the class name; later matches win.
pub open spec fn class_scan(c0: ClassV, parts: Seq<Seq<char>>, n: int) -> ClassV
    decreases n,
{
    if n <= 0 {
        c0
    } else {
        let c = class_scan(c0, parts, n - 1);
        let tok = parts[n - 1];
        if is_access_token(tok) {
            ClassV { access: tok, ..c }
        } else if has_sub(tok, "class"@) {
            if n < parts.len() {
                ClassV { class_name: parts[n], ..c }
            } else {
                c
            }
        } else {
            c
        }
    }
}

/// The class record after a whole class declaration line.
pub open spec fn class_line(c0: ClassV, line: Seq<char>) -> ClassV {
    class_scan(c0, split_sp(line), split_sp(line).len() as int)
}

/// Extracts access modifier and class name from a class declaration line.
pub fn handle_class(class: Class, line: &String) -> (r: Class)
    ensures
        r@ == class_line(class@, line@),
{
    let ghost c0 = class@;
    let mut class = class;
    let parts = split_spaces(line.as_str());
    let mut num: usize = 0;
    while num < parts.len()
        invariant
            parts.deep_view() == split_sp(line@),
            parts.deep_view().len() == parts.len(),
            num <= parts.len(),
            class@ == class_scan(c0, parts.deep_view(), num as int),
        decreases parts.len() - num,
    {
        if access_token_match(parts[num].as_str()) {
            class.access = parts[num].clone();
        } else if contains_sub(parts[num].as_str(), "class") {
            if num + 1 < parts.len() {
                class.class_name = parts[num + 1].clone();
            }
        }
        proof {
            assert(class@ =~= class_scan(c0, parts.deep_view(), num + 1));
        }
        num += 1;
    }
    class
}

/// The method record after the first `n` whitespace-split tokens of a
/// method declaration line are examined: an access-modifier token sets the
/// privacy field, and a token containing an opening parenthesis gives the
/// method name — the text before its first parenthesis.
pub open spec fn method_scan(m0: MethodV, parts: Seq<Seq<char>>, n: int) -> MethodV
    decreases n,
{
    if n <= 0 {
        m0
    } else {
        let m = method_scan(m0, parts, n - 1);
        let tok = parts[n - 1];
        if is_access_token(tok) {
            MethodV { privacy: tok, ..m }
        } else if has_sub(tok, "("@) {
            MethodV { name: tok.take(first_at(tok, '(') as int), ..m }
        } else {
            m
        }
    }
}

/// The method record after a whole method declaration line.
pub open spec fn method_line(m0: MethodV, line: Seq<char>) -> MethodV {
    method_scan(m0, split_sp(line), split_sp(line).len() as int)
}

/// Extracts privacy modifier and method name from a method declaration
/// line.
pub fn handle_method(method: Method, line: &String) -> (r: Method)
    ensures
        r@ == method_line(method@, line@),
{
    let ghost m0 = method@;
    let mut method = method;
    let parts = split_spaces(line.as_str());
    let mut num: usize = 0;
    while num < parts.len()
        invariant
            parts.deep_view() == split_sp(line@),
            parts.deep_view().len() == parts.len(),
            num <= parts.len(),
            method@ == method_scan(m0, parts.deep_view(), num as int),
        decreases parts.len() - num,
    {
        if access_token_match(parts[num].as_str()) {
            method.privacy = parts[num].clone();
        } else if contains_sub(parts[num].as_str(), "(") {
            method.name = take_until(parts[num].as_str(), '(');
        }
        proof {
            assert(method@ =~= method_scan(m0, parts.deep_view(), num + 1));
        }
        num += 1;
    }
    method
}

/// The class record after the first `n` tokens of a package line are
/// examined: each token containing the package keyword and followed by
/// another token makes that next token, cleaned, the package name.
pub open spec fn package_scan(c0: ClassV, parts: Seq<Seq<char>>, n: int) -> ClassV
    decreases n,
{
    if n <= 0 {
        c0
    } else {
        let c = package_scan(c0, parts, n - 1);
        let tok = parts[n - 1];
        if has_sub(tok, "package"@) && n < parts.len() {
            ClassV { package_name: clean_target(parts[n]), ..c }
        } else {
            c
        }
    }
}

/// The class record after a whole package line.
pub open spec fn package_line(c0: ClassV, line: Seq<char>) -> ClassV {
    package_scan(c0, split_sp(line), split_sp(line).len() as int)
}

/// Records the package name that a package line declares.
pub fn apply_package_line(class: Class, line: &String) -> (r: Class)
    ensures
        r@ == package_line(class@, line@),
{
    let ghost c0 = class@;
    let mut class = class;
    let parts = split_spaces(line.as_str());
    let mut num: usize = 0;
    while num < parts.len()
        invariant
            parts.deep_view() == split_sp(line@),
            parts.deep_view().len() == parts.len(),
            num <= parts.len(),
            class@ == package_scan(c0, parts.deep_view(), num as int),
        decreases parts.len() - num,
    {
        if contains_sub(parts[num].as_str(), "package") && num + 1 < parts.len() {
            class.package_name = clean_token(parts[num + 1].as_str());
        }
        proof {
            assert(class@ =~= package_scan(c0, parts.deep_view(), num + 1));
        }
        num += 1;
    }
    class
}

/// The class record after the first `n` tokens of an import line are
/// examined: each token containing the import keyword and followed by
/// another token appends that next token, cleaned, to the dependencies.
pub open spec fn import_scan(c0: ClassV, parts: Seq<Seq<char>>, n: int) -> ClassV
    decreases n,
{
    if n <= 0 {
        c0
    } else {
        let c = import_scan(c0, parts, n - 1);
        let tok = parts[n - 1];
        if has_sub(tok, "import"@) && n < parts.len() {
            ClassV { dependencies: c.dependencies.push(clean_target(parts[n])), ..c }
        } else {
            c
        }
    }
}

/// The class record after a whole import line.
pub open spec fn import_line(c0: ClassV, line: Seq<char>) -> ClassV {
    import_scan(c0, split_sp(line), split_sp(line).len() as int)
}

/// Appends the dependency that an import line declares.
pub fn apply_import_line(class: Class, line: &String) -> (r: Class)
    ensures
        r@ == import_line(class@, line@),
{
    let ghost c0 = class@;
    let mut class = class;
    let parts = split_spaces(line.as_str());
    let mut num: usize = 0;
    while num < parts.len()
        invariant
            parts.deep_view() == split_sp(line@),
            parts.deep_view().len() == parts.len(),
            num <= parts.len(),
            class@ == import_scan(c0, parts.deep_view(), num as int),
        decreases parts.len() - num,
    {
        if contains_sub(parts[num].as_str(), "import") && num + 1 < parts.len() {
            let ghost pre = class.dependencies.deep_view();
            class.dependencies.push(clean_token(parts[num + 1].as_str()));
            proof {
                assert(class.dependencies.deep_view() =~= pre.push(
                    clean_target(parts.deep_view()[num + 1]),
                ));
            }
        }
        proof {
            assert(class@ =~= import_scan(c0, parts.deep_view(), num + 1));
        }
        num += 1;
    }
    class
}

} // verus!
