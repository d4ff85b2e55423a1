//! Properties of the scanner stated and proved once for all inputs: how a
//! pending documentation record is attached and consumed, that the first
//! class declaration wins, and that files without documentation blocks
//! yield records with empty documentation fields.

use vstd::prelude::*;

use crate::classify::line_type_spec;
use crate::doc::doc_line_step;
use crate::doc::doc_scan;
use crate::extract::class_scan;
use crate::extract::import_scan;
use crate::extract::method_scan;
use crate::extract::package_scan;
use crate::model::{ClassV, DocV, LineType, MethodV};
use crate::scan::scan_lines;
use crate::scan::scan_step;
use crate::scan::ScanV;
use crate::text::drop_stars;
use crate::text::lemma_drop_stars_clean;
use crate::text::lemma_star_free_append;
use crate::text::lemma_star_free_empty;
use crate::text::lemma_star_free_join;
use crate::text::lemma_tokens_of_list_clean;
use crate::text::space_free;
use crate::text::split_sp;
use crate::text::star_free;
use crate::text::star_tok;
use crate::text::tokens_of;

verus! {

/// Class extraction only writes the access and class-name fields.
pub proof fn lemma_class_scan_keeps_rest(c0: ClassV, parts: Seq<Seq<char>>, n: int)
    ensures
        class_scan(c0, parts, n).package_name == c0.package_name,
        class_scan(c0, parts, n).dependencies == c0.dependencies,
        class_scan(c0, parts, n).deprecation == c0.deprecation,
        class_scan(c0, parts, n).version == c0.version,
        class_scan(c0, parts, n).author == c0.author,
        class_scan(c0, parts, n).description == c0.description,
        class_scan(c0, parts, n).methods == c0.methods,
    decreases n,
{
    if n > 0 {
        lemma_class_scan_keeps_rest(c0, parts, n - 1);
    }
}

/// Method extraction only writes the privacy and name fields; what a
/// pending documentation record put into the method stays.
pub proof fn lemma_method_scan_keeps_doc(m0: MethodV, parts: Seq<Seq<char>>, n: int)
    ensures
        method_scan(m0, parts, n).parameters == m0.parameters,
        method_scan(m0, parts, n).exceptions == m0.exceptions,
        method_scan(m0, parts, n).description == m0.description,
        method_scan(m0, parts, n).return_type == m0.return_type,
    decreases n,
{
    if n > 0 {
        lemma_method_scan_keeps_doc(m0, parts, n - 1);
    }
}

/// Package extraction only writes the package-name field.
pub proof fn lemma_package_scan_keeps_rest(c0: ClassV, parts: Seq<Seq<char>>, n: int)
    ensures
        package_scan(c0, parts, n).dependencies == c0.dependencies,
        package_scan(c0, parts, n).deprecation == c0.deprecation,
        package_scan(c0, parts, n).access == c0.access,
        package_scan(c0, parts, n).version == c0.version,
        package_scan(c0, parts, n).author == c0.author,
        package_scan(c0, parts, n).class_name == c0.class_name,
        package_scan(c0, parts, n).description == c0.description,
        package_scan(c0, parts, n).methods == c0.methods,
    decreases n,
{
    if n > 0 {
        lemma_package_scan_keeps_rest(c0, parts, n - 1);
    }
}

/// Import extraction only appends to the dependency sequence.
pub proof fn lemma_import_scan_keeps_rest(c0: ClassV, parts: Seq<Seq<char>>, n: int)
    ensures
        import_scan(c0, parts, n).package_name == c0.package_name,
        import_scan(c0, parts, n).deprecation == c0.deprecation,
        import_scan(c0, parts, n).access == c0.access,
        import_scan(c0, parts, n).version == c0.version,
        import_scan(c0, parts, n).author == c0.author,
        import_scan(c0, parts, n).class_name == c0.class_name,
        import_scan(c0, parts, n).description == c0.description,
        import_scan(c0, parts, n).methods == c0.methods,
        forall|i: int|
            0 <= i < c0.dependencies.len() ==> import_scan(c0, parts, n).dependencies[i]
                == c0.dependencies[i],
        c0.dependencies.len() <= import_scan(c0, parts, n).dependencies.len(),
    decreases n,
{
    if n > 0 {
        lemma_import_scan_keeps_rest(c0, parts, n - 1);
    }
}

/// A documentation block pending when a method declaration arrives hands
/// that method — and no other — its description, return text, parameter
/// records in order, and exception descriptions; the pending flag is then
/// cleared, so no later declaration sees the same record.
pub proof fn lemma_pending_doc_attaches_to_method(s: ScanV, line: Seq<char>)
    requires
        s.state.doc_ready,
        line_type_spec(line, s.state) == LineType::IsMethod,
    ensures
        scan_step(s, line).class.methods.len() == s.class.methods.len() + 1,
        scan_step(s, line).class.methods.last().description == s.doc.description,
        scan_step(s, line).class.methods.last().return_type == s.doc.return_desc,
        scan_step(s, line).class.methods.last().parameters == s.doc.params,
        scan_step(s, line).class.methods.last().exceptions == s.doc.exceptions,
        forall|i: int|
            0 <= i < s.class.methods.len() ==> scan_step(s, line).class.methods[i]
                == s.class.methods[i],
        !scan_step(s, line).state.doc_ready,
{
    let m1 = MethodV {
        description: s.doc.description,
        return_type: s.doc.return_desc,
        parameters: s.doc.params,
        exceptions: s.doc.exceptions,
        ..MethodV::empty()
    };
    lemma_method_scan_keeps_doc(m1, crate::text::split_sp(line), crate::text::split_sp(line).len() as int);
}

/// A documentation block pending when the first class declaration arrives
/// hands the class its description, author, version, and deprecation note;
/// the method sequence is untouched, and the pending flag is cleared.
/// Parameter, return, and exception data have no class fields to land in.
pub proof fn lemma_pending_doc_attaches_to_class(s: ScanV, line: Seq<char>)
    requires
        s.state.doc_ready,
        !s.state.class,
        line_type_spec(line, s.state) == LineType::IsClass,
    ensures
        scan_step(s, line).class.description == s.doc.description,
        scan_step(s, line).class.author == s.doc.author,
        scan_step(s, line).class.version == s.doc.version,
        scan_step(s, line).class.deprecation == s.doc.deprecated,
        scan_step(s, line).class.methods == s.class.methods,
        !scan_step(s, line).state.doc_ready,
        scan_step(s, line).state.class,
{
    lemma_class_scan_keeps_rest(
        s.class,
        crate::text::split_sp(line),
        crate::text::split_sp(line).len() as int,
    );
}

/// No documentation record is ever merged twice: after a method
/// declaration line, or a class declaration line while no class has been
/// consumed yet, the pending flag is false, whether or not a block
/// preceded the declaration. (A class declaration line arriving after the
/// class was already consumed is ignored outright and leaves a pending
/// record in place for the next method.)
pub proof fn lemma_declaration_clears_pending(s: ScanV, line: Seq<char>)
    requires
        line_type_spec(line, s.state) == LineType::IsMethod || (line_type_spec(line, s.state)
            == LineType::IsClass && !s.state.class),
    ensures
        !scan_step(s, line).state.doc_ready,
{
}

/// First match wins: once a class declaration has been consumed, a later
/// line classified as a class declaration changes nothing at all — in
/// particular it does not overwrite the extracted class name or access.
pub proof fn lemma_second_class_ignored(s: ScanV, line: Seq<char>)
    requires
        s.state.class,
        line_type_spec(line, s.state) == LineType::IsClass,
    ensures
        scan_step(s, line) == s,
{
}

/// An import line only ever appends to the dependency sequence: every
/// dependency already recorded stays, at its position, so imports end up
/// in source order.
pub proof fn lemma_imports_keep_order(s: ScanV, line: Seq<char>)
    requires
        line_type_spec(line, s.state) == LineType::IsImport,
    ensures
        s.class.dependencies.len() <= scan_step(s, line).class.dependencies.len(),
        forall|i: int|
            0 <= i < s.class.dependencies.len() ==> scan_step(s, line).class.dependencies[i]
                == s.class.dependencies[i],
{
    lemma_import_scan_keeps_rest(
        s.class,
        crate::text::split_sp(line),
        crate::text::split_sp(line).len() as int,
    );
}

/// A scanner state untouched by documentation: nothing pending, not inside
/// a block, and every documentation-derived field of the record empty.
pub open spec fn doc_fields_empty(s: ScanV) -> bool {
    &&& !s.state.doc
    &&& !s.state.doc_ready
    &&& s.class.description.len() == 0
    &&& s.class.author.len() == 0
    &&& s.class.version.len() == 0
    &&& s.class.deprecation.len() == 0
    &&& forall|j: int|
        0 <= j < s.class.methods.len() ==> (s.class.methods[j].description.len() == 0
            && s.class.methods[j].return_type.len() == 0 && s.class.methods[j].parameters.len()
            == 0 && s.class.methods[j].exceptions.len() == 0)
}

/// The category that line `i` of `lines` receives when the scan reaches it.
pub open spec fn classified_at(lines: Seq<Seq<char>>, i: int) -> LineType {
    line_type_spec(lines[i], scan_lines(lines.take(i)).state)
}

proof fn lemma_step_without_startdoc(s: ScanV, line: Seq<char>)
    requires
        doc_fields_empty(s),
        line_type_spec(line, s.state) != LineType::IsStartdoc,
    ensures
        doc_fields_empty(scan_step(s, line)),
{
    let parts = crate::text::split_sp(line);
    let n = parts.len() as int;
    match line_type_spec(line, s.state) {
        LineType::IsPackage => {
            lemma_package_scan_keeps_rest(s.class, parts, n);
        },
        LineType::IsImport => {
            lemma_import_scan_keeps_rest(s.class, parts, n);
        },
        LineType::IsClass => {
            if !s.state.class {
                lemma_class_scan_keeps_rest(s.class, parts, n);
            }
        },
        LineType::IsMethod => {
            lemma_method_scan_keeps_doc(MethodV::empty(), parts, n);
        },
        _ => {},
    }
}

/// A file in which no line ever opens a documentation or comment block
/// produces a record whose description, author, version, and deprecation
/// are empty, and whose methods all have empty description, return text,
/// parameter, and exception fields.
pub proof fn lemma_no_doc_blocks_no_doc_text(lines: Seq<Seq<char>>)
    requires
        forall|i: int| 0 <= i < lines.len() ==> classified_at(lines, i) != LineType::IsStartdoc,
    ensures
        doc_fields_empty(scan_lines(lines)),
    decreases lines.len(),
{
    if lines.len() > 0 {
        let pre = lines.drop_last();
        assert forall|i: int|
            0 <= i < pre.len() implies classified_at(pre, i) != LineType::IsStartdoc by {
            assert(pre.take(i) =~= lines.take(i));
            assert(classified_at(lines, i) != LineType::IsStartdoc);
        }
        lemma_no_doc_blocks_no_doc_text(pre);
        assert(lines.take(lines.len() - 1) =~= pre);
        assert(classified_at(lines, lines.len() - 1) != LineType::IsStartdoc);
        lemma_step_without_startdoc(scan_lines(pre), lines.last());
    }
}

/// No text field of a documentation record carries an isolated `*` token.
pub open spec fn doc_star_free(d: DocV) -> bool {
    &&& star_free(d.description)
    &&& star_free(d.return_desc)
    &&& star_free(d.author)
    &&& star_free(d.version)
    &&& star_free(d.deprecated)
    &&& forall|j: int|
        0 <= j < d.params.len() ==> ((#[trigger] d.params[j]).name != star_tok() && star_free(
            d.params[j].desc,
        ))
    &&& forall|j: int| 0 <= j < d.exceptions.len() ==> star_free(#[trigger] d.exceptions[j])
}

proof fn lemma_doc_line_step_star_free(d: DocV, line: Seq<char>)
    requires
        doc_star_free(d),
    ensures
        doc_star_free(doc_line_step(d, line)),
{
    let toks = tokens_of(line);
    let usable = drop_stars(toks);
    if usable.len() > 1 {
        crate::text::lemma_drop_stars_len(toks);
        crate::text::lemma_drop_stars_drop_first(toks);
        lemma_tokens_of_list_clean(split_sp(line));
        let tf = toks.drop_first();
        assert forall|j: int|
            0 <= j < tf.len() implies ((#[trigger] tf[j]).len() > 0 && space_free(tf[j])) by {
            assert(tf[j] == toks[j + 1]);
        }
        lemma_drop_stars_clean(tf);
        let s = drop_stars(tf);
        assert forall|j: int|
            0 <= j < s.skip(1).len() implies (space_free(#[trigger] s.skip(1)[j]) && s.skip(1)[j]
            != star_tok()) by {
            assert(s.skip(1)[j] == s[j + 1]);
        }
        lemma_star_free_join(s.skip(1));
        if s.len() > 2 {
            assert forall|j: int|
                0 <= j < s.skip(2).len() implies (space_free(#[trigger] s.skip(2)[j]) && s.skip(
                2,
            )[j] != star_tok()) by {
                assert(s.skip(2)[j] == s[j + 2]);
            }
            lemma_star_free_join(s.skip(2));
        }
        lemma_star_free_empty();
        lemma_star_free_append(d.description, s);
    }
}

/// An isolated `*` token inside a documentation block never reaches any
/// accumulated text of the parsed documentation record: not the
/// description, not the tag fields, not a parameter name or description,
/// not an exception description.
pub proof fn lemma_doc_scan_no_isolated_stars(buffer: Seq<Seq<char>>)
    ensures
        doc_star_free(doc_scan(buffer)),
    decreases buffer.len(),
{
    if buffer.len() == 0 {
        lemma_star_free_empty();
    } else {
        lemma_doc_scan_no_isolated_stars(buffer.drop_last());
        lemma_doc_line_step_star_free(doc_scan(buffer.drop_last()), buffer.last());
    }
}

/// No documentation-derived text field of a method carries an isolated `*`.
pub open spec fn method_doc_text_star_free(m: MethodV) -> bool {
    &&& star_free(m.description)
    &&& star_free(m.return_type)
    &&& forall|j: int|
        0 <= j < m.parameters.len() ==> ((#[trigger] m.parameters[j]).name != star_tok()
            && star_free(m.parameters[j].desc))
    &&& forall|j: int| 0 <= j < m.exceptions.len() ==> star_free(#[trigger] m.exceptions[j])
}

/// No documentation-derived text field of the class record carries an
/// isolated `*`.
pub open spec fn class_doc_text_star_free(c: ClassV) -> bool {
    &&& star_free(c.description)
    &&& star_free(c.author)
    &&& star_free(c.version)
    &&& star_free(c.deprecation)
    &&& forall|j: int| 0 <= j < c.methods.len() ==> method_doc_text_star_free(#[trigger] c.methods[j])
}

proof fn lemma_scan_step_star_free(s: ScanV, line: Seq<char>)
    requires
        doc_star_free(s.doc),
        class_doc_text_star_free(s.class),
    ensures
        doc_star_free(scan_step(s, line).doc),
        class_doc_text_star_free(scan_step(s, line).class),
{
    let parts = crate::text::split_sp(line);
    let n = parts.len() as int;
    match line_type_spec(line, s.state) {
        LineType::IsPackage => {
            lemma_package_scan_keeps_rest(s.class, parts, n);
        },
        LineType::IsImport => {
            lemma_import_scan_keeps_rest(s.class, parts, n);
        },
        LineType::IsClass => {
            if !s.state.class {
                lemma_class_scan_keeps_rest(s.class, parts, n);
            }
        },
        LineType::IsMethod => {
            let m1 = if s.state.doc_ready {
                MethodV {
                    description: s.doc.description,
                    return_type: s.doc.return_desc,
                    parameters: s.doc.params,
                    exceptions: s.doc.exceptions,
                    ..MethodV::empty()
                }
            } else {
                MethodV::empty()
            };
            lemma_star_free_empty();
            lemma_method_scan_keeps_doc(m1, parts, n);
        },
        LineType::IsEnddoc => {
            if s.state.doc {
                lemma_doc_scan_no_isolated_stars(s.buffer);
            }
        },
        _ => {},
    }
}

/// Over a whole scan, no documentation-derived text of the resulting class
/// record — class or method description, tag field, parameter name or
/// description, exception description — carries an isolated `*` token.
pub proof fn lemma_scan_no_isolated_stars(lines: Seq<Seq<char>>)
    ensures
        class_doc_text_star_free(scan_lines(lines).class),
        doc_star_free(scan_lines(lines).doc),
    decreases lines.len(),
{
    if lines.len() == 0 {
        lemma_star_free_empty();
    } else {
        lemma_scan_no_isolated_stars(lines.drop_last());
        lemma_scan_step_star_free(scan_lines(lines.drop_last()), lines.last());
    }
}

} // verus!
