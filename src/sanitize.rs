//! Clean-up of replies from the inference backend: role tags, action asides and
//! irregular white space are removed, in a fixed order.
use vstd::prelude::*;
use crate::text::{
    CharClass, chars_of, in_class, is_punct, is_ws, is_ws_char, lemma_run_back_bound, lemma_run_bound, run,
    run_back, run_len, slice_of, string_of, trim, trim_chars,
};

verus! {

/// Where a leading role tag ends: a `[word]` at the very start, followed by
/// white space, punctuation and white space. Zero when `s` starts with no tag.
pub open spec fn tag_end(s: Seq<char>) -> int {
    if s.len() > 0 && s[0] == '[' {
        let w = run(s, 1, CharClass::Word) as int;
        if w > 0 && 1 + w < s.len() && s[1 + w] == ']' {
            let a = 2 + w;
            let b = a + run(s, a, CharClass::Space);
            let c = b + run(s, b, CharClass::Punct);
            c + run(s, c, CharClass::Space)
        } else {
            0
        }
    } else {
        0
    }
}

/// First step: the leading role tag, if any, is removed.
pub open spec fn strip_tag(s: Seq<char>) -> Seq<char> {
    s.subrange(tag_end(s), s.len() as int)
}

/// Second step, from position `i` on: each `!` is removed together with the
/// characters up to the next `.`, `!` or `?`.
pub open spec fn drop_actions_from(s: Seq<char>, i: int) -> Seq<char>
    decreases s.len() - i,
{
    if i < 0 || i >= s.len() {
        Seq::empty()
    } else if s[i] == '!' {
        let j = i + 1 + run(s, i + 1, CharClass::NonTerminal);
        if j > s.len() {
            Seq::empty()
        } else {
            drop_actions_from(s, j)
        }
    } else {
        seq![s[i]] + drop_actions_from(s, i + 1)
    }
}

pub open spec fn drop_actions(s: Seq<char>) -> Seq<char> {
    drop_actions_from(s, 0)
}

/// Third step: the leading run of punctuation and white space is removed.
pub open spec fn strip_leading(s: Seq<char>) -> Seq<char> {
    s.subrange(run(s, 0, CharClass::PunctOrSpace) as int, s.len() as int)
}

/// Fourth step, from position `i` on: each run of two or more white-space
/// characters other than line breaks becomes one space. Line breaks and the
/// white space around them are left to the fifth step.
pub open spec fn collapse_from(s: Seq<char>, i: int) -> Seq<char>
    decreases s.len() - i,
{
    if i < 0 || i >= s.len() {
        Seq::empty()
    } else if run(s, i, CharClass::HSpace) >= 2 {
        let j = i + run(s, i, CharClass::HSpace);
        if j > s.len() {
            Seq::empty()
        } else {
            seq![' '] + collapse_from(s, j)
        }
    } else {
        seq![s[i]] + collapse_from(s, i + 1)
    }
}

pub open spec fn collapse(s: Seq<char>) -> Seq<char> {
    collapse_from(s, 0)
}

pub open spec fn has_newline(s: Seq<char>, i: int, j: int) -> bool {
    exists|m: int| i <= m < j && s[m] == '\n'
}

/// Fifth step, from position `i` on: a run of white space that holds a line
/// break becomes a bare line break.
pub open spec fn newlines_from(s: Seq<char>, i: int) -> Seq<char>
    decreases s.len() - i,
{
    if i < 0 || i >= s.len() {
        Seq::empty()
    } else if is_ws(s[i]) && has_newline(s, i, i + run(s, i, CharClass::Space)) {
        let j = i + run(s, i, CharClass::Space);
        if j > s.len() {
            Seq::empty()
        } else {
            seq!['\n'] + newlines_from(s, j)
        }
    } else {
        seq![s[i]] + newlines_from(s, i + 1)
    }
}

pub open spec fn normalize_newlines(s: Seq<char>) -> Seq<char> {
    newlines_from(s, 0)
}

/// The whole clean-up: the five steps in order, then trimming.
pub open spec fn clean(s: Seq<char>) -> Seq<char> {
    trim(normalize_newlines(collapse(strip_leading(drop_actions(strip_tag(s))))))
}

proof fn lemma_append_step(out: Seq<char>, c: char, rest: Seq<char>)
    ensures
        out.push(c) + rest == out + (seq![c] + rest),
{
    assert(out.push(c) + rest =~= out + (seq![c] + rest));
}

fn tag_end_exec(s: &Vec<char>) -> (r: usize)
    ensures
        r == tag_end(s@),
        r <= s@.len(),
{
    if s.len() > 0 && s[0] == '[' {
        let w = run_len(s, 1, CharClass::Word);
        if w > 0 && 1 + w < s.len() && s[1 + w] == ']' {
            let a = 2 + w;
            let b = a + run_len(s, a, CharClass::Space);
            let c = b + run_len(s, b, CharClass::Punct);
            c + run_len(s, c, CharClass::Space)
        } else {
            0
        }
    } else {
        0
    }
}

fn strip_tag_exec(s: &Vec<char>) -> (r: Vec<char>)
    ensures
        r@ == strip_tag(s@),
{
    let e = tag_end_exec(s);
    slice_of(s, e, s.len())
}

fn drop_actions_exec(s: &Vec<char>) -> (r: Vec<char>)
    ensures
        r@ == drop_actions(s@),
{
    let mut out: Vec<char> = Vec::new();
    let mut i: usize = 0;
    while i < s.len()
        invariant
            i <= s@.len(),
            drop_actions(s@) == out@ + drop_actions_from(s@, i as int),
        decreases s@.len() - i,
    {
        if s[i] == '!' {
            let n = run_len(s, i + 1, CharClass::NonTerminal);
            i = i + 1 + n;
        } else {
            proof {
                lemma_append_step(out@, s@[i as int], drop_actions_from(s@, i + 1));
            }
            out.push(s[i]);
            i = i + 1;
        }
    }
    assert(out@ + Seq::<char>::empty() =~= out@);
    out
}

fn strip_leading_exec(s: &Vec<char>) -> (r: Vec<char>)
    ensures
        r@ == strip_leading(s@),
{
    let n = run_len(s, 0, CharClass::PunctOrSpace);
    slice_of(s, n, s.len())
}

fn collapse_exec(s: &Vec<char>) -> (r: Vec<char>)
    ensures
        r@ == collapse(s@),
{
    let mut out: Vec<char> = Vec::new();
    let mut i: usize = 0;
    while i < s.len()
        invariant
            i <= s@.len(),
            collapse(s@) == out@ + collapse_from(s@, i as int),
        decreases s@.len() - i,
    {
        let n = run_len(s, i, CharClass::HSpace);
        if n >= 2 {
            proof {
                lemma_append_step(out@, ' ', collapse_from(s@, i + n));
            }
            out.push(' ');
            i = i + n;
        } else {
            proof {
                lemma_append_step(out@, s@[i as int], collapse_from(s@, i + 1));
            }
            out.push(s[i]);
            i = i + 1;
        }
    }
    assert(out@ + Seq::<char>::empty() =~= out@);
    out
}

fn has_newline_exec(s: &Vec<char>, i: usize, j: usize) -> (r: bool)
    requires
        i <= j <= s@.len(),
    ensures
        r == has_newline(s@, i as int, j as int),
{
    let mut m: usize = i;
    while m < j
        invariant
            i <= m <= j <= s@.len(),
            forall|p: int| i <= p < m ==> s@[p] != '\n',
        decreases j - m,
    {
        if s[m] == '\n' {
            return true;
        }
        m = m + 1;
    }
    false
}

fn normalize_newlines_exec(s: &Vec<char>) -> (r: Vec<char>)
    ensures
        r@ == normalize_newlines(s@),
{
    let mut out: Vec<char> = Vec::new();
    let mut i: usize = 0;
    while i < s.len()
        invariant
            i <= s@.len(),
            normalize_newlines(s@) == out@ + newlines_from(s@, i as int),
        decreases s@.len() - i,
    {
        let n = run_len(s, i, CharClass::Space);
        if is_ws_char(s[i]) && has_newline_exec(s, i, i + n) {
            proof {
                lemma_append_step(out@, '\n', newlines_from(s@, i + n));
            }
            out.push('\n');
            i = i + n;
        } else {
            proof {
                lemma_append_step(out@, s@[i as int], newlines_from(s@, i + 1));
            }
            out.push(s[i]);
            i = i + 1;
        }
    }
    assert(out@ + Seq::<char>::empty() =~= out@);
    out
}

/// Cleans a reply of the inference backend: strips a leading role tag, removes
/// action asides, strips leading punctuation, collapses white space, normalizes
/// line breaks and trims.
pub fn clean_ai_response(response: &str) -> (r: String)
    ensures
        r@ == clean(response@),
{
    let s = chars_of(response);
    let s1 = strip_tag_exec(&s);
    let s2 = drop_actions_exec(&s1);
    let s3 = strip_leading_exec(&s2);
    let s4 = collapse_exec(&s3);
    let s5 = normalize_newlines_exec(&s4);
    let s6 = trim_chars(&s5);
    string_of(&s6)
}


pub open spec fn no_bang(s: Seq<char>) -> bool {
    forall|k: int| 0 <= k < s.len() ==> #[trigger] s[k] != '!'
}

/// No two characters of class `k` stand next to each other.
pub open spec fn no_double(s: Seq<char>, k: CharClass) -> bool {
    forall|m: int| 0 <= m < s.len() - 1 ==> !(in_class(k, #[trigger] s[m]) && in_class(k, s[m + 1]))
}

proof fn lemma_drop_actions_no_bang(s: Seq<char>, i: int)
    requires
        0 <= i,
    ensures
        no_bang(drop_actions_from(s, i)),
    decreases s.len() - i,
{
    if i < s.len() {
        if s[i] == '!' {
            let j = i + 1 + run(s, i + 1, CharClass::NonTerminal);
            if j <= s.len() {
                lemma_drop_actions_no_bang(s, j);
            }
        } else {
            lemma_drop_actions_no_bang(s, i + 1);
            lemma_prepend_bang(s[i], drop_actions_from(s, i + 1));
        }
    }
}

proof fn lemma_drop_actions_id(s: Seq<char>, i: int)
    requires
        0 <= i <= s.len(),
        no_bang(s),
    ensures
        drop_actions_from(s, i) == s.subrange(i, s.len() as int),
    decreases s.len() - i,
{
    if i < s.len() {
        lemma_drop_actions_id(s, i + 1);
        assert(seq![s[i]] + s.subrange(i + 1, s.len() as int) =~= s.subrange(i, s.len() as int));
    } else {
        assert(s.subrange(i, s.len() as int) =~= Seq::<char>::empty());
    }
}

proof fn lemma_prepend(x: char, rest: Seq<char>, k: CharClass)
    requires
        no_double(rest, k),
        rest.len() > 0 ==> !in_class(k, x) || !in_class(k, rest[0]),
    ensures
        no_double(seq![x] + rest, k),
{
    let t = seq![x] + rest;
    assert forall|m: int| 0 <= m < t.len() - 1 implies !(in_class(k, #[trigger] t[m]) && in_class(
        k,
        t[m + 1],
    )) by {
        if m > 0 {
            assert(t[m] == rest[m - 1]);
            assert(t[m + 1] == rest[m]);
        }
    }
}

proof fn lemma_prepend_bang(x: char, rest: Seq<char>)
    requires
        no_bang(rest),
        x != '!',
    ensures
        no_bang(seq![x] + rest),
{
    let t = seq![x] + rest;
    assert forall|k: int| 0 <= k < t.len() implies #[trigger] t[k] != '!' by {
        if k > 0 {
            assert(t[k] == rest[k - 1]);
        }
    }
}

proof fn lemma_collapse_shape(c: Seq<char>, i: int)
    requires
        0 <= i,
    ensures
        no_double(collapse_from(c, i), CharClass::HSpace),
        no_bang(c) ==> no_bang(collapse_from(c, i)),
        i < c.len() && !in_class(CharClass::HSpace, c[i]) ==> collapse_from(c, i).len() > 0
            && collapse_from(c, i)[0] == c[i],
    decreases c.len() - i,
{
    if i < c.len() {
        let n = run(c, i, CharClass::HSpace);
        lemma_run_bound(c, i, CharClass::HSpace);
        if n >= 2 {
            let j = i + n;
            lemma_collapse_shape(c, j);
            lemma_prepend(' ', collapse_from(c, j), CharClass::HSpace);
            if no_bang(c) {
                lemma_prepend_bang(' ', collapse_from(c, j));
            }
        } else {
            lemma_collapse_shape(c, i + 1);
            if in_class(CharClass::HSpace, c[i]) && i + 1 < c.len() {
                assert(!in_class(CharClass::HSpace, c[i + 1]));
            }
            lemma_prepend(c[i], collapse_from(c, i + 1), CharClass::HSpace);
            if no_bang(c) {
                lemma_prepend_bang(c[i], collapse_from(c, i + 1));
            }
        }
    }
}

proof fn lemma_newlines_shape(d: Seq<char>, i: int)
    requires
        0 <= i,
        no_double(d, CharClass::HSpace),
    ensures
        no_double(newlines_from(d, i), CharClass::Space),
        no_bang(d) ==> no_bang(newlines_from(d, i)),
        i < d.len() && !is_ws(d[i]) ==> newlines_from(d, i).len() > 0 && newlines_from(d, i)[0]
            == d[i],
    decreases d.len() - i,
{
    if i < d.len() {
        let n = run(d, i, CharClass::Space);
        lemma_run_bound(d, i, CharClass::Space);
        if is_ws(d[i]) && has_newline(d, i, i + n) {
            let j = i + n;
            lemma_newlines_shape(d, j);
            lemma_prepend('\n', newlines_from(d, j), CharClass::Space);
            if no_bang(d) {
                lemma_prepend_bang('\n', newlines_from(d, j));
            }
        } else {
            lemma_newlines_shape(d, i + 1);
            if is_ws(d[i]) && i + 1 < d.len() && is_ws(d[i + 1]) {
                assert(run(d, i + 1, CharClass::Space) >= 1);
                assert(n >= 2);
                if d[i] == '\n' {
                    assert(has_newline(d, i, i + n));
                }
                if d[i + 1] == '\n' {
                    assert(has_newline(d, i, i + n));
                }
                assert(false);
            }
            lemma_prepend(d[i], newlines_from(d, i + 1), CharClass::Space);
            if no_bang(d) {
                lemma_prepend_bang(d[i], newlines_from(d, i + 1));
            }
        }
    }
}

proof fn lemma_collapse_id(s: Seq<char>, i: int)
    requires
        0 <= i <= s.len(),
        no_double(s, CharClass::Space),
    ensures
        collapse_from(s, i) == s.subrange(i, s.len() as int),
    decreases s.len() - i,
{
    if i < s.len() {
        lemma_collapse_id(s, i + 1);
        if in_class(CharClass::HSpace, s[i]) {
            if i + 1 < s.len() {
                assert(!is_ws(s[i + 1]));
            }
            assert(run(s, i + 1, CharClass::HSpace) == 0);
            assert(run(s, i, CharClass::HSpace) == 1);
        } else {
            assert(run(s, i, CharClass::HSpace) == 0);
        }
        assert(seq![s[i]] + s.subrange(i + 1, s.len() as int) =~= s.subrange(i, s.len() as int));
    } else {
        assert(s.subrange(i, s.len() as int) =~= Seq::<char>::empty());
    }
}

proof fn lemma_newlines_id(s: Seq<char>, i: int)
    requires
        0 <= i <= s.len(),
        no_double(s, CharClass::Space),
    ensures
        newlines_from(s, i) == s.subrange(i, s.len() as int),
    decreases s.len() - i,
{
    if i < s.len() {
        lemma_newlines_id(s, i + 1);
        if is_ws(s[i]) {
            if i + 1 < s.len() {
                assert(!is_ws(s[i + 1]));
            }
            assert(run(s, i + 1, CharClass::Space) == 0);
            assert(run(s, i, CharClass::Space) == 1);
            if has_newline(s, i, i + 1) {
                assert(s[i] == '\n');
            }
        }
        assert(seq![s[i]] + s.subrange(i + 1, s.len() as int) =~= s.subrange(i, s.len() as int));
    } else {
        assert(s.subrange(i, s.len() as int) =~= Seq::<char>::empty());
    }
}

/// What trimming leaves: no white space at either end, and a subrange of the
/// input.
proof fn lemma_trim_shape(s: Seq<char>)
    ensures
        trim(s).len() > 0 ==> !is_ws(trim(s)[0]) && !is_ws(trim(s)[trim(s).len() - 1]),
        no_bang(s) ==> no_bang(trim(s)),
        no_double(s, CharClass::Space) ==> no_double(trim(s), CharClass::Space),
        s.len() > 0 && !is_ws(s[0]) ==> trim(s).len() > 0 && trim(s)[0] == s[0],
{
    lemma_run_bound(s, 0, CharClass::Space);
    lemma_run_back_bound(s, s.len() as int);
    let lead = run(s, 0, CharClass::Space) as int;
    if lead < s.len() {
        let end = s.len() - run_back(s, s.len() as int);
        if end <= lead {
            assert(is_ws(s[lead]));
        }
        let t = s.subrange(lead, end);
        assert(t[0] == s[lead]);
        assert(t[t.len() - 1] == s[end - 1]);
        if no_double(s, CharClass::Space) {
            assert forall|k: int| 0 <= k < t.len() - 1 implies !(in_class(
                CharClass::Space,
                #[trigger] t[k],
            ) && in_class(CharClass::Space, t[k + 1])) by {
                assert(t[k] == s[lead + k]);
                assert(t[k + 1] == s[lead + k + 1]);
            }
        }
        if no_bang(s) {
            assert forall|k: int| 0 <= k < t.len() implies #[trigger] t[k] != '!' by {
                assert(t[k] == s[lead + k]);
            }
        }
    }
}

proof fn lemma_trim_id(y: Seq<char>)
    requires
        y.len() > 0 ==> !is_ws(y[0]) && !is_ws(y[y.len() - 1]),
    ensures
        trim(y) == y,
{
    if y.len() > 0 {
        assert(run(y, 0, CharClass::Space) == 0);
        assert(run_back(y, y.len() as int) == 0);
        assert(y.subrange(0, y.len() as int) =~= y);
    } else {
        assert(y =~= Seq::<char>::empty());
    }
}

/// Cleaning a cleaned reply changes nothing, unless the cleaned reply itself
/// starts with a role tag (as `"..., [Tag] text"` cleans to `"[Tag] text"`).
pub proof fn lemma_clean_idempotent(s: Seq<char>)
    requires
        tag_end(clean(s)) == 0,
    ensures
        clean(clean(s)) == clean(s),
{
    let a = strip_tag(s);
    let b = drop_actions(a);
    let c = strip_leading(b);
    let d = collapse(c);
    let e = normalize_newlines(d);
    lemma_drop_actions_no_bang(a, 0);
    lemma_run_bound(b, 0, CharClass::PunctOrSpace);
    assert(no_bang(c)) by {
        let m = run(b, 0, CharClass::PunctOrSpace) as int;
        assert forall|k: int| 0 <= k < c.len() implies #[trigger] c[k] != '!' by {
            assert(c[k] == b[m + k]);
        }
    }
    lemma_collapse_shape(c, 0);
    lemma_newlines_shape(d, 0);
    let y = trim(e);
    assert(y == clean(s));
    lemma_trim_shape(e);
    if c.len() > 0 {
        assert(!is_ws(c[0]) && !is_punct(c[0]));
    }
    // the cleaned text starts with neither punctuation nor white space
    if y.len() > 0 {
        assert(c.len() > 0);
        assert(d[0] == c[0]);
        assert(e[0] == d[0]);
        assert(y[0] == c[0]);
    }
    assert(run(y, 0, CharClass::PunctOrSpace) == 0);
    assert(strip_tag(y) =~= y);
    lemma_drop_actions_id(y, 0);
    assert(y.subrange(0, y.len() as int) =~= y);
    assert(strip_leading(y) =~= y);
    lemma_collapse_id(y, 0);
    lemma_newlines_id(y, 0);
    lemma_trim_id(y);
}

} // verus!
