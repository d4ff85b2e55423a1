//! Character-level text helpers: substring search, splitting on spaces,
//! filtering of control characters, and joining token lists.

use vstd::prelude::*;
use vstd::string::*;

verus! {

/// A character survives token filtering when its code is above 32, i.e. it is
/// neither a space nor a control character.
pub open spec fn is_kept_char(c: char) -> bool {
    c as u32 > 32
}

/// Index of the first occurrence of `c` in `s`, or `s.len()` when absent.
pub open spec fn first_at(s: Seq<char>, c: char) -> nat
    decreases s.len(),
{
    if s.len() == 0 {
        0
    } else if s[0] == c {
        0
    } else {
        1 + first_at(s.drop_first(), c)
    }
}

pub proof fn lemma_first_at(s: Seq<char>, c: char)
    ensures
        first_at(s, c) <= s.len(),
        forall|i: int| 0 <= i < first_at(s, c) ==> s[i] != c,
        first_at(s, c) < s.len() ==> s[first_at(s, c) as int] == c,
    decreases s.len(),
{
    if s.len() != 0 && s[0] != c {
        lemma_first_at(s.drop_first(), c);
        assert forall|i: int| 0 <= i < first_at(s, c) implies s[i] != c by {
            if i > 0 {
                assert(s.drop_first()[i - 1] != c);
            }
        }
    }
}

/// `pat` occurs in `hay` starting at index `i`.
pub open spec fn has_sub_at(hay: Seq<char>, pat: Seq<char>, i: int) -> bool {
    0 <= i && i + pat.len() <= hay.len() && hay.subrange(i, i + pat.len()) == pat
}

/// `pat` occurs somewhere in `hay`.
pub open spec fn has_sub(hay: Seq<char>, pat: Seq<char>) -> bool {
    exists|i: int| has_sub_at(hay, pat, i)
}

/// Whether `pat` occurs in `hay` starting exactly at index `i`.
fn matches_at(hay: &str, pat: &str, i: usize) -> (r: bool)
    requires
        i + pat@.len() <= hay@.len(),
        hay@.len() <= usize::MAX,
    ensures
        r == has_sub_at(hay@, pat@, i as int),
{
    let m: usize = pat.unicode_len();
    let mut j: usize = 0;
    while j < m
        invariant
            m == pat@.len(),
            i + m <= hay@.len(),
            hay@.len() <= usize::MAX,
            j <= m,
            forall|t: int| 0 <= t < j ==> hay@[i + t] == pat@[t],
        decreases m - j,
    {
        if hay.get_char(i + j) != pat.get_char(j) {
            proof {
                assert(hay@.subrange(i as int, i + m as int)[j as int] == hay@[i + j]);
            }
            return false;
        }
        j += 1;
    }
    proof {
        assert(hay@.subrange(i as int, i + m as int) =~= pat@);
    }
    true
}

/// Whether `hay` contains `pat` as a contiguous substring.
pub fn contains_sub(hay: &str, pat: &str) -> (r: bool)
    ensures
        r == has_sub(hay@, pat@),
{
    let n: usize = hay.unicode_len();
    let m: usize = pat.unicode_len();
    if m > n {
        proof {
            if has_sub(hay@, pat@) {
                let i = choose|i: int| has_sub_at(hay@, pat@, i);
                assert(i + pat@.len() <= hay@.len());
            }
        }
        return false;
    }
    if m == 0 {
        proof {
            assert(hay@.subrange(0, 0) =~= pat@);
            assert(has_sub_at(hay@, pat@, 0));
        }
        return true;
    }
    let mut i: usize = 0;
    while i <= n - m
        invariant
            1 <= m <= n <= usize::MAX,
            i <= n - m + 1,
            n == hay@.len(),
            m == pat@.len(),
            forall|k: int| 0 <= k < i ==> !has_sub_at(hay@, pat@, k),
        decreases n - m + 1 - i,
    {
        if matches_at(hay, pat, i) {
            return true;
        }
        i += 1;
    }
    proof {
        if has_sub(hay@, pat@) {
            let k = choose|k: int| has_sub_at(hay@, pat@, k);
            assert(!has_sub_at(hay@, pat@, k));
        }
    }
    false
}

pub proof fn lemma_first_at_is(s: Seq<char>, c: char, k: int)
    requires
        0 <= k <= s.len(),
        forall|t: int| 0 <= t < k ==> s[t] != c,
        k < s.len() ==> s[k] == c,
    ensures
        first_at(s, c) == k,
    decreases s.len(),
{
    if s.len() != 0 && s[0] != c {
        lemma_first_at_is(s.drop_first(), c, k - 1);
    }
}

/// Splitting on the space character, as `split(" ")` does: every space ends a
/// token, so consecutive spaces yield empty tokens and the empty line yields
/// one empty token.
pub open spec fn split_sp(s: Seq<char>) -> Seq<Seq<char>>
    decreases s.len(),
{
    let i = first_at(s, ' ');
    if i >= s.len() {
        seq![s]
    } else {
        seq![s.take(i as int)] + split_sp(s.skip(i as int + 1))
    }
}

/// The characters of `t` whose code is above 32, in order.
pub open spec fn keep_chars(t: Seq<char>) -> Seq<char>
    decreases t.len(),
{
    if t.len() == 0 {
        t
    } else {
        let pre = keep_chars(t.drop_last());
        if is_kept_char(t.last()) {
            pre.push(t.last())
        } else {
            pre
        }
    }
}

/// The single-character token that marks a documentation continuation line.
pub open spec fn star_tok() -> Seq<char> {
    seq!['*']
}

/// Filtered tokens of a split line: each token keeps only its printable
/// characters, and tokens left empty by that are dropped.
pub open spec fn tokens_of_list(parts: Seq<Seq<char>>) -> Seq<Seq<char>>
    decreases parts.len(),
{
    if parts.len() == 0 {
        Seq::empty()
    } else {
        let pre = tokens_of_list(parts.drop_last());
        let k = keep_chars(parts.last());
        if k.len() > 0 {
            pre.push(k)
        } else {
            pre
        }
    }
}

/// The tokens of a raw line: split on spaces, filter control characters,
/// drop tokens that end up empty.
pub open spec fn tokens_of(line: Seq<char>) -> Seq<Seq<char>> {
    tokens_of_list(split_sp(line))
}

/// The token list with every isolated `*` token removed.
pub open spec fn drop_stars(ts: Seq<Seq<char>>) -> Seq<Seq<char>>
    decreases ts.len(),
{
    if ts.len() == 0 {
        ts
    } else {
        let pre = drop_stars(ts.drop_last());
        if ts.last() == star_tok() {
            pre
        } else {
            pre.push(ts.last())
        }
    }
}

pub proof fn lemma_drop_stars_len(ts: Seq<Seq<char>>)
    ensures
        drop_stars(ts).len() <= ts.len(),
    decreases ts.len(),
{
    if ts.len() > 0 {
        lemma_drop_stars_len(ts.drop_last());
    }
}

pub proof fn lemma_drop_stars_drop_first(ts: Seq<Seq<char>>)
    requires
        ts.len() > 0,
    ensures
        drop_stars(ts).len() <= drop_stars(ts.drop_first()).len() + 1,
    decreases ts.len(),
{
    if ts.len() == 1 {
        lemma_drop_stars_len(ts);
        assert(ts.drop_first() =~= Seq::<Seq<char>>::empty());
    } else {
        lemma_drop_stars_drop_first(ts.drop_last());
        assert(ts.drop_first().drop_last() =~= ts.drop_last().drop_first());
        assert(ts.drop_first().last() == ts.last());
    }
}

/// Tokens joined in order, a single space after each one (so a trailing
/// space is included whenever the list is non-empty).
pub open spec fn join_sp(ts: Seq<Seq<char>>) -> Seq<char>
    decreases ts.len(),
{
    if ts.len() == 0 {
        Seq::empty()
    } else {
        join_sp(ts.drop_last()) + ts.last() + seq![' ']
    }
}

/// Splits a line at every space character, keeping empty tokens.
pub fn split_spaces(line: &str) -> (r: Vec<String>)
    ensures
        r.deep_view() == split_sp(line@),
{
    let n: usize = line.unicode_len();
    let mut r: Vec<String> = Vec::new();
    let mut i: usize = 0;
    let mut done: bool = false;
    proof {
        assert(line@.skip(0) =~= line@);
    }
    while !done
        invariant
            n == line@.len(),
            i <= n,
            !done ==> split_sp(line@) == r.deep_view() + split_sp(line@.skip(i as int)),
            done ==> r.deep_view() == split_sp(line@),
        decreases n - i + (if done { 0int } else { 1int }),
    {
        let ghost old_dv = r.deep_view();
        let mut j: usize = i;
        while j < n && line.get_char(j) != ' '
            invariant
                n == line@.len(),
                i <= j <= n,
                forall|t: int| i <= t < j ==> line@[t] != ' ',
            decreases n - j,
        {
            j += 1;
        }
        proof {
            assert forall|t: int| 0 <= t < j - i implies line@.skip(i as int)[t] != ' ' by {
                assert(line@.skip(i as int)[t] == line@[i + t]);
            }
            lemma_first_at_is(line@.skip(i as int), ' ', j - i);
        }
        let tok: String = String::from_str(line.substring_char(i, j));
        r.push(tok);
        proof {
            assert(r.deep_view() =~= old_dv.push(line@.subrange(i as int, j as int)));
        }
        if j == n {
            proof {
                assert(line@.skip(i as int) =~= line@.subrange(i as int, j as int));
                assert(split_sp(line@.skip(i as int)) == seq![line@.skip(i as int)]);
                assert(old_dv + seq![line@.skip(i as int)] =~= r.deep_view());
            }
            done = true;
        } else {
            proof {
                let rest = line@.skip(i as int);
                assert(rest.take(j - i) =~= line@.subrange(i as int, j as int));
                assert(rest.skip(j - i + 1) =~= line@.skip(j + 1));
                assert(split_sp(rest) == seq![rest.take(j - i)] + split_sp(rest.skip(j - i + 1)));
                assert(old_dv + (seq![rest.take(j - i)] + split_sp(line@.skip(j + 1)))
                    =~= r.deep_view() + split_sp(line@.skip(j + 1)));
            }
            i = j + 1;
        }
    }
    r
}

/// Keeps only the characters of `t` whose code is above 32.
pub fn filter_printable(t: &str) -> (r: String)
    ensures
        r@ == keep_chars(t@),
{
    let n: usize = t.unicode_len();
    let mut r: String = String::new();
    let mut k: usize = 0;
    proof {
        assert(t@.take(0) =~= Seq::<char>::empty());
    }
    while k < n
        invariant
            n == t@.len(),
            k <= n,
            r@ == keep_chars(t@.take(k as int)),
        decreases n - k,
    {
        let c = t.get_char(k);
        if c as u32 > 32 {
            push_char(&mut r, c);
        }
        proof {
            assert(t@.take(k + 1).drop_last() =~= t@.take(k as int));
            assert(t@.take(k + 1).last() == t@[k as int]);
        }
        k += 1;
    }
    proof {
        assert(t@.take(n as int) =~= t@);
    }
    r
}

/// The usable tokens of a line: split on spaces, strip control characters
/// from each token, drop the tokens that end up empty.
pub fn tokenize_line(line: &str) -> (r: Vec<String>)
    ensures
        r.deep_view() == tokens_of(line@),
{
    let parts = split_spaces(line);
    let mut r: Vec<String> = Vec::new();
    let mut k: usize = 0;
    proof {
        assert(parts.deep_view().take(0) =~= Seq::<Seq<char>>::empty());
    }
    while k < parts.len()
        invariant
            parts.deep_view().len() == parts.len(),
            k <= parts.len(),
            r.deep_view() == tokens_of_list(parts.deep_view().take(k as int)),
        decreases parts.len() - k,
    {
        let ghost old_dv = r.deep_view();
        let kept = filter_printable(parts[k].as_str());
        let keep_it = kept.unicode_len() > 0;
        if keep_it {
            r.push(kept);
        }
        proof {
            let pdv = parts.deep_view();
            assert(pdv.take(k + 1).drop_last() =~= pdv.take(k as int));
            assert(pdv.take(k + 1).last() == pdv[k as int]);
            if keep_it {
                assert(r.deep_view() =~= old_dv.push(keep_chars(pdv[k as int])));
            }
        }
        k += 1;
    }
    proof {
        assert(parts.deep_view().take(parts.deep_view().len() as int) =~= parts.deep_view());
    }
    r
}

/// Removes every token that is exactly the isolated `*` decoration.
pub fn strip_stars(ts: &Vec<String>) -> (r: Vec<String>)
    ensures
        r.deep_view() == drop_stars(ts.deep_view()),
{
    let mut r: Vec<String> = Vec::new();
    let mut k: usize = 0;
    proof {
        assert(ts.deep_view().take(0) =~= Seq::<Seq<char>>::empty());
        assert(drop_stars(Seq::<Seq<char>>::empty()) == Seq::<Seq<char>>::empty());
    }
    while k < ts.len()
        invariant
            ts.deep_view().len() == ts.len(),
            k <= ts.len(),
            r.deep_view() == drop_stars(ts.deep_view().take(k as int)),
        decreases ts.len() - k,
    {
        let ghost old_dv = r.deep_view();
        let tok = &ts[k];
        let is_star = tok.as_str().unicode_len() == 1 && tok.as_str().get_char(0) == '*';
        proof {
            if is_star {
                assert(ts.deep_view()[k as int] =~= star_tok());
            } else if ts.deep_view()[k as int].len() == 1 {
                assert(ts.deep_view()[k as int] != star_tok());
            } else {
                assert(ts.deep_view()[k as int].len() != star_tok().len());
            }
        }
        if !is_star {
            let copy: String = tok.clone();
            r.push(copy);
            proof {
                assert(r.deep_view() =~= old_dv.push(ts.deep_view()[k as int]));
            }
        }
        proof {
            let tdv = ts.deep_view();
            assert(tdv.take(k + 1).drop_last() =~= tdv.take(k as int));
            assert(tdv.take(k + 1).last() == tdv[k as int]);
        }
        k += 1;
    }
    proof {
        assert(ts.deep_view().take(ts.deep_view().len() as int) =~= ts.deep_view());
    }
    r
}

/// A text without any space character.
pub open spec fn space_free(t: Seq<char>) -> bool {
    forall|i: int| 0 <= i < t.len() ==> t[i] != ' '
}

/// A text in which no whitespace-delimited token is an isolated `*`.
pub open spec fn star_free(s: Seq<char>) -> bool {
    forall|i: int| 0 <= i < split_sp(s).len() ==> split_sp(s)[i] != star_tok()
}

pub proof fn lemma_star_free_empty()
    ensures
        star_free(Seq::<char>::empty()),
{
    let e = Seq::<char>::empty();
    assert(split_sp(e) == seq![e]);
    assert(e.len() != star_tok().len());
}

/// Splitting distributes over concatenation at a space.
pub proof fn lemma_split_sp_append(a: Seq<char>, b: Seq<char>)
    ensures
        split_sp(a + seq![' '] + b) == split_sp(a) + split_sp(b),
    decreases a.len(),
{
    let s = a + seq![' '] + b;
    let i = first_at(a, ' ');
    lemma_first_at(a, ' ');
    if i >= a.len() {
        lemma_first_at_is(s, ' ', a.len() as int);
        assert(s.take(a.len() as int) =~= a);
        assert(s.skip(a.len() as int + 1) =~= b);
        assert(split_sp(s) == seq![a] + split_sp(b));
    } else {
        lemma_first_at_is(s, ' ', i as int);
        assert(s.take(i as int) =~= a.take(i as int));
        assert(s.skip(i as int + 1) =~= a.skip(i as int + 1) + seq![' '] + b);
        lemma_split_sp_append(a.skip(i as int + 1), b);
        assert(seq![a.take(i as int)] + (split_sp(a.skip(i as int + 1)) + split_sp(b)) =~= (seq![
            a.take(i as int),
        ] + split_sp(a.skip(i as int + 1))) + split_sp(b));
    }
}

/// A space-free text splits into itself alone.
pub proof fn lemma_split_sp_space_free(t: Seq<char>)
    requires
        space_free(t),
    ensures
        split_sp(t) == seq![t],
{
    lemma_first_at_is(t, ' ', t.len() as int);
}

/// Joining can also be unfolded at the front.
pub proof fn lemma_join_sp_left(ts: Seq<Seq<char>>)
    requires
        ts.len() > 0,
    ensures
        join_sp(ts) == ts[0] + seq![' '] + join_sp(ts.drop_first()),
    decreases ts.len(),
{
    if ts.len() == 1 {
        assert(ts.drop_last() =~= Seq::<Seq<char>>::empty());
        assert(ts.drop_first() =~= Seq::<Seq<char>>::empty());
        assert(join_sp(ts) =~= ts[0] + seq![' '] + join_sp(ts.drop_first()));
    } else {
        lemma_join_sp_left(ts.drop_last());
        assert(ts.drop_last()[0] == ts[0]);
        assert(ts.drop_last().drop_first() =~= ts.drop_first().drop_last());
        assert(ts.drop_first().last() == ts.last());
        assert(join_sp(ts) == join_sp(ts.drop_last()) + ts.last() + seq![' ']);
        assert(join_sp(ts.drop_first()) == join_sp(ts.drop_first().drop_last()) + ts.last()
            + seq![' ']);
        assert(join_sp(ts) =~= ts[0] + seq![' '] + join_sp(ts.drop_first()));
    }
}

/// Splitting a join of space-free tokens recovers the tokens, with one
/// empty token from the trailing space.
pub proof fn lemma_split_join(ts: Seq<Seq<char>>)
    requires
        forall|j: int| 0 <= j < ts.len() ==> space_free(ts[j]),
    ensures
        split_sp(join_sp(ts)) == ts + seq![Seq::<char>::empty()],
    decreases ts.len(),
{
    let e = Seq::<char>::empty();
    if ts.len() == 0 {
        assert(split_sp(e) == seq![e]);
        assert(seq![e] =~= ts + seq![e]);
    } else {
        lemma_join_sp_left(ts);
        lemma_split_sp_append(ts[0], join_sp(ts.drop_first()));
        lemma_split_sp_space_free(ts[0]);
        assert(forall|j: int|
            0 <= j < ts.drop_first().len() ==> space_free(#[trigger] ts.drop_first()[j]));
        lemma_split_join(ts.drop_first());
        assert(seq![ts[0]] + (ts.drop_first() + seq![e]) =~= ts + seq![e]);
    }
}

/// A join of space-free tokens, none of which is the isolated `*`, holds
/// no isolated `*`.
pub proof fn lemma_star_free_join(ts: Seq<Seq<char>>)
    requires
        forall|j: int| 0 <= j < ts.len() ==> space_free(ts[j]) && ts[j] != star_tok(),
    ensures
        star_free(join_sp(ts)),
{
    lemma_split_join(ts);
    assert(Seq::<char>::empty().len() != star_tok().len());
}

/// Appending a space-padded join of clean tokens to a text with no
/// isolated `*` keeps it free of isolated `*` tokens.
pub proof fn lemma_star_free_append(d: Seq<char>, ts: Seq<Seq<char>>)
    requires
        star_free(d),
        forall|j: int| 0 <= j < ts.len() ==> space_free(ts[j]) && ts[j] != star_tok(),
    ensures
        star_free(d + seq![' '] + join_sp(ts) + seq![' ']),
{
    let e = Seq::<char>::empty();
    let b = join_sp(ts) + seq![' '];
    assert(b =~= join_sp(ts) + seq![' '] + e);
    lemma_split_sp_append(join_sp(ts), e);
    lemma_split_join(ts);
    assert(split_sp(e) == seq![e]);
    assert(d + seq![' '] + join_sp(ts) + seq![' '] =~= d + seq![' '] + b);
    lemma_split_sp_append(d, b);
    assert(split_sp(b) == (ts + seq![e]) + seq![e]);
    let whole = split_sp(d) + split_sp(b);
    assert(e.len() != star_tok().len());
    assert forall|i: int| 0 <= i < whole.len() implies whole[i] != star_tok() by {
        if i < split_sp(d).len() {
            assert(whole[i] == split_sp(d)[i]);
        } else {
            let k = i - split_sp(d).len();
            assert(whole[i] == split_sp(b)[k]);
            if k < ts.len() {
                assert(split_sp(b)[k] == ts[k]);
            } else {
                assert(split_sp(b)[k] == e);
            }
        }
    }
}

/// Every character that token filtering keeps is a printable one.
pub proof fn lemma_keep_chars_kept(t: Seq<char>)
    ensures
        forall|i: int| 0 <= i < keep_chars(t).len() ==> is_kept_char(#[trigger] keep_chars(t)[i]),
    decreases t.len(),
{
    if t.len() > 0 {
        lemma_keep_chars_kept(t.drop_last());
        let pre = keep_chars(t.drop_last());
        assert forall|i: int|
            0 <= i < keep_chars(t).len() implies is_kept_char(#[trigger] keep_chars(t)[i]) by {
            if i < pre.len() {
                assert(keep_chars(t)[i] == pre[i]);
                assert(is_kept_char(pre[i]));
            } else {
                assert(keep_chars(t)[i] == t.last());
            }
        }
    }
}

/// Every filtered token of a line is non-empty and space-free.
pub proof fn lemma_tokens_of_list_clean(parts: Seq<Seq<char>>)
    ensures
        forall|j: int|
            0 <= j < tokens_of_list(parts).len() ==> ((#[trigger] tokens_of_list(parts)[j]).len()
                > 0 && space_free(tokens_of_list(parts)[j])),
    decreases parts.len(),
{
    if parts.len() > 0 {
        lemma_tokens_of_list_clean(parts.drop_last());
        lemma_keep_chars_kept(parts.last());
        let pre = tokens_of_list(parts.drop_last());
        let k = keep_chars(parts.last());
        assert forall|i: int| 0 <= i < k.len() implies k[i] != ' ' by {
            assert(is_kept_char(k[i]));
            assert(' ' as u32 == 32);
        }
        assert forall|j: int|
            0 <= j < tokens_of_list(parts).len() implies ((#[trigger] tokens_of_list(parts)[j]).len()
            > 0 && space_free(tokens_of_list(parts)[j])) by {
            if j < pre.len() {
                assert(tokens_of_list(parts)[j] == pre[j]);
                assert(pre[j].len() > 0 && space_free(pre[j]));
            } else {
                assert(tokens_of_list(parts)[j] == k);
            }
        }
    }
}

/// Dropping the isolated `*` tokens keeps every remaining token
/// non-empty, space-free, and different from the isolated `*`.
pub proof fn lemma_drop_stars_clean(ts: Seq<Seq<char>>)
    requires
        forall|j: int|
            0 <= j < ts.len() ==> ((#[trigger] ts[j]).len() > 0 && space_free(ts[j])),
    ensures
        forall|j: int|
            0 <= j < drop_stars(ts).len() ==> ((#[trigger] drop_stars(ts)[j]).len() > 0
                && space_free(drop_stars(ts)[j]) && drop_stars(ts)[j] != star_tok()),
    decreases ts.len(),
{
    if ts.len() > 0 {
        assert forall|j: int|
            0 <= j < ts.drop_last().len() implies ((#[trigger] ts.drop_last()[j]).len() > 0
            && space_free(ts.drop_last()[j])) by {
            assert(ts.drop_last()[j] == ts[j]);
        }
        lemma_drop_stars_clean(ts.drop_last());
        let pre = drop_stars(ts.drop_last());
        assert forall|j: int|
            0 <= j < drop_stars(ts).len() implies ((#[trigger] drop_stars(ts)[j]).len() > 0
            && space_free(drop_stars(ts)[j]) && drop_stars(ts)[j] != star_tok()) by {
            if j < pre.len() {
                assert(drop_stars(ts)[j] == pre[j]);
                assert(pre[j].len() > 0 && space_free(pre[j]) && pre[j] != star_tok());
            } else {
                assert(drop_stars(ts)[j] == ts.last());
                assert(ts[ts.len() - 1].len() > 0 && space_free(ts[ts.len() - 1]));
            }
        }
    }
}

/// The token up to, and not including, the first occurrence of `c`.
pub fn take_until(t: &str, c: char) -> (r: String)
    ensures
        r@ == t@.take(first_at(t@, c) as int),
{
    let n: usize = t.unicode_len();
    let mut j: usize = 0;
    while j < n && t.get_char(j) != c
        invariant
            n == t@.len(),
            j <= n,
            forall|i: int| 0 <= i < j ==> t@[i] != c,
        decreases n - j,
    {
        j += 1;
    }
    proof {
        lemma_first_at_is(t@, c, j as int);
        assert(t@.subrange(0, j as int) =~= t@.take(j as int));
    }
    String::from_str(t.substring_char(0, j))
}

/// `t` without its leading run of space and control characters.
pub open spec fn trim_left(t: Seq<char>) -> Seq<char>
    decreases t.len(),
{
    if t.len() > 0 && !is_kept_char(t[0]) {
        trim_left(t.drop_first())
    } else {
        t
    }
}

/// `t` without its trailing run of space and control characters.
pub open spec fn trim_right(t: Seq<char>) -> Seq<char>
    decreases t.len(),
{
    if t.len() > 0 && !is_kept_char(t.last()) {
        trim_right(t.drop_last())
    } else {
        t
    }
}

/// `t` without leading and trailing space and control characters.
pub open spec fn trim_spec(t: Seq<char>) -> Seq<char> {
    trim_right(trim_left(t))
}

/// `t` with every semicolon removed.
pub open spec fn drop_semis(t: Seq<char>) -> Seq<char>
    decreases t.len(),
{
    if t.len() == 0 {
        t
    } else {
        let pre = drop_semis(t.drop_last());
        if t.last() == ';' {
            pre
        } else {
            pre.push(t.last())
        }
    }
}

/// A declaration target cleaned as the driver stores it: surrounding
/// whitespace trimmed, semicolons removed.
pub open spec fn clean_target(tok: Seq<char>) -> Seq<char> {
    drop_semis(trim_spec(tok))
}

pub proof fn lemma_trim_left_is(t: Seq<char>, a: int)
    requires
        0 <= a <= t.len(),
        forall|i: int| 0 <= i < a ==> !is_kept_char(t[i]),
        a < t.len() ==> is_kept_char(t[a]),
    ensures
        trim_left(t) == t.skip(a),
    decreases a,
{
    if a == 0 {
        assert(t.skip(0) =~= t);
    } else {
        lemma_trim_left_is(t.drop_first(), a - 1);
        assert(t.drop_first().skip(a - 1) =~= t.skip(a));
    }
}

pub proof fn lemma_trim_right_is(t: Seq<char>, b: int)
    requires
        0 <= b <= t.len(),
        forall|i: int| b <= i < t.len() ==> !is_kept_char(t[i]),
        b > 0 ==> is_kept_char(t[b - 1]),
    ensures
        trim_right(t) == t.take(b),
    decreases t.len(),
{
    if b == t.len() {
        assert(t.take(b) =~= t);
    } else {
        lemma_trim_right_is(t.drop_last(), b);
        assert(t.drop_last().take(b) =~= t.take(b));
    }
}

/// Trims surrounding whitespace and control characters, then removes every
/// semicolon.
pub fn clean_token(t: &str) -> (r: String)
    ensures
        r@ == clean_target(t@),
{
    let n: usize = t.unicode_len();
    let mut a: usize = 0;
    while a < n && t.get_char(a) as u32 <= 32
        invariant
            n == t@.len(),
            a <= n,
            forall|i: int| 0 <= i < a ==> !is_kept_char(t@[i]),
        decreases n - a,
    {
        a += 1;
    }
    proof {
        lemma_trim_left_is(t@, a as int);
    }
    let mut b: usize = n;
    while b > a && t.get_char(b - 1) as u32 <= 32
        invariant
            n == t@.len(),
            a <= b <= n,
            forall|i: int| b <= i < n ==> !is_kept_char(t@[i]),
        decreases b,
    {
        b -= 1;
    }
    proof {
        let u = t@.skip(a as int);
        assert forall|i: int| b - a <= i < u.len() implies !is_kept_char(u[i]) by {
            assert(u[i] == t@[a + i]);
        }
        if b > a {
            assert(u[b - a - 1] == t@[b - 1]);
        }
        lemma_trim_right_is(u, b - a);
        assert(u.take(b - a) =~= t@.subrange(a as int, b as int));
    }
    let trimmed = t.substring_char(a, b);
    let m: usize = b - a;
    let mut r: String = String::new();
    let mut k: usize = 0;
    proof {
        assert(trimmed@.take(0) =~= Seq::<char>::empty());
    }
    while k < m
        invariant
            m == trimmed@.len(),
            k <= m,
            r@ == drop_semis(trimmed@.take(k as int)),
        decreases m - k,
    {
        let c = trimmed.get_char(k);
        if c != ';' {
            push_char(&mut r, c);
        }
        proof {
            assert(trimmed@.take(k + 1).drop_last() =~= trimmed@.take(k as int));
            assert(trimmed@.take(k + 1).last() == trimmed@[k as int]);
        }
        k += 1;
    }
    proof {
        assert(trimmed@.take(m as int) =~= trimmed@);
    }
    r
}

/// Relies on std's `String::push`: appends the given character to the end of
/// the string.
#[verifier::external_body]
pub(crate) fn push_char(s: &mut String, c: char)
    ensures
        final(s)@ == old(s)@.push(c),
{
    s.push(c);
}

} // verus!
