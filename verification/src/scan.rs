//! The scanner driver: owns the per-file state machine, classifies each
//! line in order, dispatches to the extractors and the documentation
//! parser, and assembles the final class record.

use vstd::prelude::*;
use vstd::string::*;

use crate::classify::determine_line_type;
use crate::classify::line_type_spec;
use crate::doc::doc_scan;
use crate::doc::handle_doc;
use crate::extract::apply_import_line;
use crate::extract::apply_package_line;
use crate::extract::class_line;
use crate::extract::handle_class;
use crate::extract::handle_method;
use crate::extract::import_line;
use crate::extract::method_line;
use crate::extract::package_line;
use crate::model::{Class, ClassV, Doc, DocV, LineType, Method, MethodV, Param, ParamV, ParseState};

verus! {

/// Mathematical value of a `Scanner`.
#[verifier::ext_equal]
pub ghost struct ScanV {
    pub class: ClassV,
    pub state: ParseState,
    pub doc: DocV,
    pub buffer: Seq<Seq<char>>,
}

impl ScanV {
    /// The state a fresh scanner starts from: empty record, all flags
    /// clear, empty pending documentation, empty buffer.
    pub open spec fn init() -> ScanV {
        ScanV {
            class: ClassV::empty(),
            state: ParseState { class: false, doc: false, comment: false, doc_ready: false },
            doc: DocV::empty(),
            buffer: Seq::empty(),
        }
    }
}

/// One transition of the state machine, driven by the classified category
/// of `line` under the current state:
/// - a package or import line updates the class record directly;
/// - a class declaration, only the first, runs class extraction, merges a
///   pending documentation record's class fields, and clears the pending
///   flag;
/// - a method declaration builds a fresh method record, merges a pending
///   documentation record's method fields, runs method extraction, appends
///   the method, and clears the pending flag whether or not one was
///   pending;
/// - a documentation opener clears the buffer and enters the block; a
///   closer inside a block parses the buffer and marks it pending;
/// - any other line is buffered inside a block and ignored outside.
pub open spec fn scan_step(s: ScanV, line: Seq<char>) -> ScanV {
    match line_type_spec(line, s.state) {
        LineType::IsPackage => ScanV { class: package_line(s.class, line), ..s },
        LineType::IsImport => ScanV { class: import_line(s.class, line), ..s },
        LineType::IsClass => {
            if !s.state.class {
                let c1 = class_line(s.class, line);
                let c2 = if s.state.doc_ready {
                    ClassV {
                        description: s.doc.description,
                        author: s.doc.author,
                        version: s.doc.version,
                        deprecation: s.doc.deprecated,
                        ..c1
                    }
                } else {
                    c1
                };
                ScanV {
                    class: c2,
                    state: ParseState { class: true, doc_ready: false, ..s.state },
                    ..s
                }
            } else {
                s
            }
        },
        LineType::IsMethod => {
            let m1 = if s.state.doc_ready {
                MethodV {
                    description: s.doc.description,
                    return_type: s.doc.return_desc,
                    parameters: s.doc.params,
                    exceptions: s.doc.exceptions,
                    ..MethodV::empty()
                }
            } else {
                MethodV::empty()
            };
            let m2 = method_line(m1, line);
            ScanV {
                class: ClassV { methods: s.class.methods.push(m2), ..s.class },
                state: ParseState { doc_ready: false, ..s.state },
                ..s
            }
        },
        LineType::IsComment => s,
        LineType::IsStartdoc => ScanV {
            buffer: Seq::empty(),
            state: ParseState { doc: true, ..s.state },
            ..s
        },
        LineType::IsEnddoc => {
            if s.state.doc {
                ScanV {
                    doc: doc_scan(s.buffer),
                    state: ParseState { doc: false, doc_ready: true, ..s.state },
                    ..s
                }
            } else {
                s
            }
        },
        LineType::IsOther => {
            if s.state.doc {
                ScanV { buffer: s.buffer.push(line), ..s }
            } else {
                s
            }
        },
    }
}

/// The scanner state after all of `lines`, in order, from a fresh start.
pub open spec fn scan_lines(lines: Seq<Seq<char>>) -> ScanV
    decreases lines.len(),
{
    if lines.len() == 0 {
        ScanV::init()
    } else {
        scan_step(scan_lines(lines.drop_last()), lines.last())
    }
}

/// The scanner driver's mutable cross-line state: the record being built,
/// the state flags, the most recently parsed documentation record, and the
/// buffer of the block being collected.
pub struct Scanner {
    pub class: Class,
    pub state: ParseState,
    pub doc: Doc,
    pub buffer: Vec<String>,
}

impl View for Scanner {
    type V = ScanV;

    open spec fn view(&self) -> ScanV {
        ScanV {
            class: self.class@,
            state: self.state,
            doc: self.doc@,
            buffer: self.buffer.deep_view(),
        }
    }
}

/// A fresh copy of a parameter list.
fn clone_params(ps: &Vec<Param>) -> (r: Vec<Param>)
    ensures
        r.deep_view() == ps.deep_view(),
{
    let mut r: Vec<Param> = Vec::new();
    let mut i: usize = 0;
    proof {
        assert(r.deep_view() =~= ps.deep_view().take(0));
    }
    while i < ps.len()
        invariant
            ps.deep_view().len() == ps.len(),
            i <= ps.len(),
            r.deep_view() == ps.deep_view().take(i as int),
        decreases ps.len() - i,
    {
        let ghost pre = r.deep_view();
        let p = Param { name: ps[i].name.clone(), desc: ps[i].desc.clone() };
        proof {
            assert(p@ =~= ps.deep_view()[i as int]);
        }
        r.push(p);
        proof {
            assert(r.deep_view() =~= pre.push(ps.deep_view()[i as int]));
            assert(r.deep_view() =~= ps.deep_view().take(i + 1));
        }
        i += 1;
    }
    proof {
        assert(ps.deep_view().take(ps.len() as int) =~= ps.deep_view());
    }
    r
}

/// A fresh copy of a string list.
fn clone_strings(ss: &Vec<String>) -> (r: Vec<String>)
    ensures
        r.deep_view() == ss.deep_view(),
{
    let mut r: Vec<String> = Vec::new();
    let mut i: usize = 0;
    proof {
        assert(r.deep_view() =~= ss.deep_view().take(0));
    }
    while i < ss.len()
        invariant
            ss.deep_view().len() == ss.len(),
            i <= ss.len(),
            r.deep_view() == ss.deep_view().take(i as int),
        decreases ss.len() - i,
    {
        let ghost pre = r.deep_view();
        r.push(ss[i].clone());
        proof {
            assert(r.deep_view() =~= pre.push(ss.deep_view()[i as int]));
            assert(r.deep_view() =~= ss.deep_view().take(i + 1));
        }
        i += 1;
    }
    proof {
        assert(ss.deep_view().take(ss.len() as int) =~= ss.deep_view());
    }
    r
}

impl Scanner {
    /// A fresh scanner for one file.
    pub fn new() -> (s: Scanner)
        ensures
            s@ == ScanV::init(),
    {
        let s = Scanner {
            class: Class {
                package_name: String::new(),
                dependencies: Vec::new(),
                deprecation: String::new(),
                access: String::new(),
                version: String::new(),
                author: String::new(),
                class_name: String::new(),
                description: String::new(),
                methods: Vec::new(),
            },
            state: ParseState { class: false, doc: false, comment: false, doc_ready: false },
            doc: Doc {
                params: Vec::new(),
                description: String::new(),
                return_desc: String::new(),
                author: String::new(),
                version: String::new(),
                exceptions: Vec::new(),
                deprecated: String::new(),
            },
            buffer: Vec::new(),
        };
        proof {
            assert(s.class@ =~= ClassV::empty());
            assert(s.doc@ =~= DocV::empty());
            assert(s.buffer.deep_view() =~= Seq::<Seq<char>>::empty());
            assert(s@ =~= ScanV::init());
        }
        s
    }

    /// Consumes one line: classifies it under the current state and applies
    /// the corresponding transition.
    pub fn process_line(self, line: &String) -> (r: Scanner)
        ensures
            r@ == scan_step(self@, line@),
    {
        let ghost s0 = self@;
        let Scanner { class, state, doc, buffer } = self;
        match determine_line_type(line, &state) {
            LineType::IsPackage => {
                let class2 = apply_package_line(class, line);
                let r = Scanner { class: class2, state, doc, buffer };
                proof {
                    assert(r@ =~~= scan_step(s0, line@));
                }
                r
            },
            LineType::IsImport => {
                let class2 = apply_import_line(class, line);
                let r = Scanner { class: class2, state, doc, buffer };
                proof {
                    assert(r@ =~~= scan_step(s0, line@));
                }
                r
            },
            LineType::IsClass => {
                if !state.class {
                    let mut class2 = handle_class(class, line);
                    if state.doc_ready {
                        class2.description = doc.description.clone();
                        class2.author = doc.author.clone();
                        class2.version = doc.version.clone();
                        class2.deprecation = doc.deprecated.clone();
                    }
                    let state2 = ParseState { class: true, doc_ready: false, ..state };
                    let r = Scanner { class: class2, state: state2, doc, buffer };
                    proof {
                        assert(r@ =~~= scan_step(s0, line@));
                    }
                    r
                } else {
                    let r = Scanner { class, state, doc, buffer };
                    proof {
                        assert(r@ =~~= scan_step(s0, line@));
                    }
                    r
                }
            },
            LineType::IsMethod => {
                let mut m = Method {
                    parameters: Vec::new(),
                    exceptions: Vec::new(),
                    name: String::new(),
                    privacy: String::new(),
                    description: String::new(),
                    return_type: String::new(),
                };
                if state.doc_ready {
                    m.description = doc.description.clone();
                    m.return_type = doc.return_desc.clone();
                    m.parameters = clone_params(&doc.params);
                    m.exceptions = clone_strings(&doc.exceptions);
                }
                proof {
                    if s0.state.doc_ready {
                        assert(m@ =~= (MethodV {
                            description: s0.doc.description,
                            return_type: s0.doc.return_desc,
                            parameters: s0.doc.params,
                            exceptions: s0.doc.exceptions,
                            ..MethodV::empty()
                        }));
                    } else {
                        assert(m@ =~= MethodV::empty());
                    }
                }
                let m2 = handle_method(m, line);
                let ghost m2v = m2@;
                let mut class2 = class;
                let ghost pre = class2.methods.deep_view();
                class2.methods.push(m2);
                proof {
                    assert(class2.methods.deep_view() =~= pre.push(m2v));
                }
                let state2 = ParseState { doc_ready: false, ..state };
                let r = Scanner { class: class2, state: state2, doc, buffer };
                proof {
                    assert(r@ =~~= scan_step(s0, line@));
                }
                r
            },
            LineType::IsComment => {
                let r = Scanner { class, state, doc, buffer };
                proof {
                    assert(r@ =~~= scan_step(s0, line@));
                }
                r
            },
            LineType::IsStartdoc => {
                let mut buffer2 = buffer;
                buffer2.clear();
                let state2 = ParseState { doc: true, ..state };
                let r = Scanner { class, state: state2, doc, buffer: buffer2 };
                proof {
                    assert(r.buffer.deep_view() =~= Seq::<Seq<char>>::empty());
                    assert(r@ =~~= scan_step(s0, line@));
                }
                r
            },
            LineType::IsEnddoc => {
                if state.doc {
                    let doc2 = handle_doc(&buffer);
                    let state2 = ParseState { doc: false, doc_ready: true, ..state };
                    let r = Scanner { class, state: state2, doc: doc2, buffer };
                    proof {
                        assert(r@ =~~= scan_step(s0, line@));
                    }
                    r
                } else {
                    let r = Scanner { class, state, doc, buffer };
                    proof {
                        assert(r@ =~~= scan_step(s0, line@));
                    }
                    r
                }
            },
            LineType::IsOther => {
                if state.doc {
                    let mut buffer2 = buffer;
                    let ghost pre = buffer2.deep_view();
                    buffer2.push(line.clone());
                    let r = Scanner { class, state, doc, buffer: buffer2 };
                    proof {
                        assert(r.buffer.deep_view() =~= pre.push(line@));
                        assert(r@ =~~= scan_step(s0, line@));
                    }
                    r
                } else {
                    let r = Scanner { class, state, doc, buffer };
                    proof {
                        assert(r@ =~~= scan_step(s0, line@));
                    }
                    r
                }
            },
        }
    }

    /// Hands out the assembled class record at end of input.
    pub fn finish(self) -> (c: Class)
        ensures
            c@ == self@.class,
    {
        self.class
    }
}

/// Processes a whole file's lines, top to bottom, into one class record.
pub fn parse_lines(lines: &Vec<String>) -> (c: Class)
    ensures
        c@ == scan_lines(lines.deep_view()).class,
{
    let mut s = Scanner::new();
    let mut i: usize = 0;
    proof {
        assert(lines.deep_view().take(0) =~= Seq::<Seq<char>>::empty());
    }
    while i < lines.len()
        invariant
            lines.deep_view().len() == lines.len(),
            i <= lines.len(),
            s@ == scan_lines(lines.deep_view().take(i as int)),
        decreases lines.len() - i,
    {
        s = s.process_line(&lines[i]);
        proof {
            let dv = lines.deep_view();
            assert(dv.take(i + 1).drop_last() =~= dv.take(i as int));
            assert(dv.take(i + 1).last() == dv[i as int]);
        }
        i += 1;
    }
    proof {
        assert(lines.deep_view().take(lines.len() as int) =~= lines.deep_view());
    }
    s.finish()
}

} // verus!
