//! The documentation tag parser: turns the buffered lines of one completed
//! documentation block into a structured documentation record.

use vstd::prelude::*;
use vstd::string::*;

use crate::model::{Doc, DocV, Param, ParamV};
use crate::text::contains_sub;
use crate::text::drop_stars;
use crate::text::has_sub;
use crate::text::join_sp;
use crate::text::lemma_drop_stars_drop_first;
use crate::text::lemma_drop_stars_len;
use crate::text::push_char;
use crate::text::strip_stars;
use crate::text::tokenize_line;
use crate::text::tokens_of;

verus! {

/// The record after one buffered line is folded in. A line is used only if
/// more than one usable (non-decoration) token remains; its first raw token
/// is always discarded as the line decoration. Tag dispatch goes by the
/// literal tag text occurring anywhere in the raw line, first match wins;
/// a line without any `@` accumulates onto the description.
pub open spec fn doc_line_step(d: DocV, line: Seq<char>) -> DocV {
    let toks = tokens_of(line);
    let usable = drop_stars(toks);
    if usable.len() <= 1 {
        d
    } else {
        let s = drop_stars(toks.drop_first());
        if has_sub(line, "@param"@) {
            if s.len() == 2 {
                DocV { params: d.params.push(ParamV { name: s[1], desc: Seq::empty() }), ..d }
            } else if s.len() > 2 {
                DocV {
                    params: d.params.push(ParamV { name: s[1], desc: join_sp(s.skip(2)) }),
                    ..d
                }
            } else {
                d
            }
        } else if has_sub(line, "@return"@) {
            DocV { return_desc: join_sp(s.skip(1)), ..d }
        } else if has_sub(line, "@author"@) {
            DocV { author: join_sp(s.skip(1)), ..d }
        } else if has_sub(line, "@version"@) {
            DocV { version: join_sp(s.skip(1)), ..d }
        } else if has_sub(line, "@deprecated"@) {
            DocV { deprecated: join_sp(s.skip(1)), ..d }
        } else if has_sub(line, "@expeption"@) {
            DocV { exceptions: d.exceptions.push(join_sp(s.skip(1))), ..d }
        } else if !has_sub(line, "@"@) {
            DocV { description: d.description + seq![' '] + join_sp(s) + seq![' '], ..d }
        } else {
            d
        }
    }
}

/// The record of a whole buffer, folded line by line from the top.
pub open spec fn doc_scan(lines: Seq<Seq<char>>) -> DocV
    decreases lines.len(),
{
    if lines.len() == 0 {
        DocV::empty()
    } else {
        doc_line_step(doc_scan(lines.drop_last()), lines.last())
    }
}

/// Joins the given tokens with a single space after each one.
pub fn doc_desc(parts: &Vec<String>) -> (r: String)
    ensures
        r@ == join_sp(parts.deep_view()),
{
    let mut r: String = String::new();
    let mut i: usize = 0;
    proof {
        assert(parts.deep_view().take(0) =~= Seq::<Seq<char>>::empty());
    }
    while i < parts.len()
        invariant
            parts.deep_view().len() == parts.len(),
            i <= parts.len(),
            r@ == join_sp(parts.deep_view().take(i as int)),
        decreases parts.len() - i,
    {
        r.append(parts[i].as_str());
        push_char(&mut r, ' ');
        proof {
            let pdv = parts.deep_view();
            assert(pdv.take(i + 1).drop_last() =~= pdv.take(i as int));
            assert(pdv.take(i + 1).last() == pdv[i as int]);
            assert(r@ =~= join_sp(pdv.take(i as int)) + pdv[i as int] + seq![' ']);
        }
        i += 1;
    }
    proof {
        assert(parts.deep_view().take(parts.len() as int) =~= parts.deep_view());
    }
    r
}

/// A fresh copy of the tokens from index `k` on.
fn tail_from(v: &Vec<String>, k: usize) -> (r: Vec<String>)
    requires
        k <= v.len(),
    ensures
        r.deep_view() == v.deep_view().skip(k as int),
{
    let mut r: Vec<String> = Vec::new();
    let mut j: usize = k;
    proof {
        assert(r.deep_view() =~= v.deep_view().subrange(k as int, k as int));
    }
    while j < v.len()
        invariant
            v.deep_view().len() == v.len(),
            k <= j <= v.len(),
            r.deep_view() == v.deep_view().subrange(k as int, j as int),
        decreases v.len() - j,
    {
        let ghost old_dv = r.deep_view();
        r.push(v[j].clone());
        proof {
            assert(r.deep_view() =~= old_dv.push(v.deep_view()[j as int]));
            assert(r.deep_view() =~= v.deep_view().subrange(k as int, j + 1));
        }
        j += 1;
    }
    proof {
        assert(v.deep_view().subrange(k as int, v.len() as int) =~= v.deep_view().skip(k as int));
    }
    r
}

/// Folds one buffered line into the record being built.
fn apply_doc_line(d: &mut Doc, line: &String)
    ensures
        final(d)@ == doc_line_step(old(d)@, line@),
{
    let toks = tokenize_line(line.as_str());
    let usable = strip_stars(&toks);
    if usable.len() <= 1 {
        return ;
    }
    proof {
        lemma_drop_stars_len(toks.deep_view());
    }
    let ghost toks_dv = toks.deep_view();
    let mut tail = toks;
    tail.remove(0);
    proof {
        assert(tail.deep_view() =~= toks_dv.drop_first());
    }
    let s_vec = strip_stars(&tail);
    let ghost s = drop_stars(tokens_of(line@).drop_first());
    proof {
        assert(s_vec.deep_view() == s);
        lemma_drop_stars_drop_first(toks_dv);
    }
    if contains_sub(line.as_str(), "@param") {
        if s_vec.len() == 2 {
            let ghost pre = d.params.deep_view();
            let p = Param { name: s_vec[1].clone(), desc: String::new() };
            proof {
                assert(p@ =~= (ParamV { name: s[1], desc: Seq::empty() }));
            }
            d.params.push(p);
            proof {
                assert(d.params.deep_view() =~= pre.push(ParamV { name: s[1], desc: Seq::empty() }));
                assert(d@ =~= doc_line_step(old(d)@, line@));
            }
        } else if s_vec.len() > 2 {
            let ghost pre = d.params.deep_view();
            let rest = tail_from(&s_vec, 2);
            let p = Param { name: s_vec[1].clone(), desc: doc_desc(&rest) };
            proof {
                assert(p@ =~= (ParamV { name: s[1], desc: join_sp(s.skip(2)) }));
            }
            d.params.push(p);
            proof {
                assert(d.params.deep_view() =~= pre.push(
                    ParamV { name: s[1], desc: join_sp(s.skip(2)) },
                ));
                assert(d@ =~= doc_line_step(old(d)@, line@));
            }
        }
    } else if contains_sub(line.as_str(), "@return") {
        let rest = tail_from(&s_vec, 1);
        d.return_desc = doc_desc(&rest);
        proof {
            assert(d@ =~= doc_line_step(old(d)@, line@));
        }
    } else if contains_sub(line.as_str(), "@author") {
        let rest = tail_from(&s_vec, 1);
        d.author = doc_desc(&rest);
        proof {
            assert(d@ =~= doc_line_step(old(d)@, line@));
        }
    } else if contains_sub(line.as_str(), "@version") {
        let rest = tail_from(&s_vec, 1);
        d.version = doc_desc(&rest);
        proof {
            assert(d@ =~= doc_line_step(old(d)@, line@));
        }
    } else if contains_sub(line.as_str(), "@deprecated") {
        let rest = tail_from(&s_vec, 1);
        d.deprecated = doc_desc(&rest);
        proof {
            assert(d@ =~= doc_line_step(old(d)@, line@));
        }
    } else if contains_sub(line.as_str(), "@expeption") {
        let ghost pre = d.exceptions.deep_view();
        let rest = tail_from(&s_vec, 1);
        d.exceptions.push(doc_desc(&rest));
        proof {
            assert(d.exceptions.deep_view() =~= pre.push(join_sp(s.skip(1))));
            assert(d@ =~= doc_line_step(old(d)@, line@));
        }
    } else if !contains_sub(line.as_str(), "@") {
        let ghost pre = d.description@;
        push_char(&mut d.description, ' ');
        let joined = doc_desc(&s_vec);
        d.description.append(joined.as_str());
        push_char(&mut d.description, ' ');
        proof {
            assert(d.description@ =~= pre + seq![' '] + join_sp(s) + seq![' ']);
            assert(d@ =~= doc_line_step(old(d)@, line@));
        }
    }
}

/// Parses a finished documentation block's buffered lines into a
/// documentation record.
pub fn handle_doc(buffer: &Vec<String>) -> (d: Doc)
    ensures
        d@ == doc_scan(buffer.deep_view()),
{
    let mut d = Doc {
        params: Vec::new(),
        description: String::new(),
        return_desc: String::new(),
        author: String::new(),
        version: String::new(),
        exceptions: Vec::new(),
        deprecated: String::new(),
    };
    proof {
        assert(d@ =~= DocV::empty());
        assert(buffer.deep_view().take(0) =~= Seq::<Seq<char>>::empty());
    }
    let mut i: usize = 0;
    while i < buffer.len()
        invariant
            buffer.deep_view().len() == buffer.len(),
            i <= buffer.len(),
            d@ == doc_scan(buffer.deep_view().take(i as int)),
        decreases buffer.len() - i,
    {
        apply_doc_line(&mut d, &buffer[i]);
        proof {
            let bdv = buffer.deep_view();
            assert(bdv.take(i + 1).drop_last() =~= bdv.take(i as int));
            assert(bdv.take(i + 1).last() == bdv[i as int]);
        }
        i += 1;
    }
    proof {
        assert(buffer.deep_view().take(buffer.len() as int) =~= buffer.deep_view());
    }
    d
}

} // verus!
