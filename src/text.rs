//! Character classes, runs of characters and conversions between strings and
//! character vectors.
use vstd::prelude::*;

verus! {

/// Whether `c` has the Unicode `White_Space` property, the class that both
/// `char::is_whitespace` and the regex class `\s` use.
pub open spec fn is_ws(c: char) -> bool {
    ('\u{9}' <= c && c <= '\u{d}') || c == ' ' || c == '\u{85}' || c == '\u{a0}'
        || c == '\u{1680}' || ('\u{2000}' <= c && c <= '\u{200a}') || c == '\u{2028}'
        || c == '\u{2029}' || c == '\u{202f}' || c == '\u{205f}' || c == '\u{3000}'
}

/// The punctuation that may follow a role tag or lead a reply: `! ? , . - –`.
pub open spec fn is_punct(c: char) -> bool {
    c == '!' || c == '?' || c == ',' || c == '.' || c == '-' || c == '\u{2013}'
}

/// Characters that end a sentence.
pub open spec fn is_terminal(c: char) -> bool {
    c == '.' || c == '!' || c == '?'
}

/// Whether `c` belongs to the regex class `\w` (Unicode word characters).
pub uninterp spec fn is_word(c: char) -> bool;

/// The ASCII members of `\w`: letters, digits and `_`.
pub open spec fn is_ascii_word(c: char) -> bool {
    ('a' <= c && c <= 'z') || ('A' <= c && c <= 'Z') || ('0' <= c && c <= '9') || c == '_'
}

/// The classes of characters over which runs are measured.
#[derive(Clone, Copy, PartialEq, Eq, Debug)]
pub enum CharClass {
    Space,
    /// White space other than a line break.
    HSpace,
    Punct,
    PunctOrSpace,
    NonTerminal,
    Word,
}

pub open spec fn in_class(k: CharClass, c: char) -> bool {
    match k {
        CharClass::Space => is_ws(c),
        CharClass::HSpace => is_ws(c) && c != '\n',
        CharClass::Punct => is_punct(c),
        CharClass::PunctOrSpace => is_punct(c) || is_ws(c),
        CharClass::NonTerminal => !is_terminal(c),
        CharClass::Word => is_word(c),
    }
}

/// Length of the longest run of characters of class `k` that starts at `i`.
pub open spec fn run(s: Seq<char>, i: int, k: CharClass) -> nat
    decreases s.len() - i,
{
    if 0 <= i < s.len() && in_class(k, s[i]) {
        1 + run(s, i + 1, k)
    } else {
        0
    }
}

/// Length of the longest run of white space that ends just before `j`.
pub open spec fn run_back(s: Seq<char>, j: int) -> nat
    decreases j,
{
    if 0 < j <= s.len() && is_ws(s[j - 1]) {
        1 + run_back(s, j - 1)
    } else {
        0
    }
}

/// `s` without leading and trailing white space.
pub open spec fn trim(s: Seq<char>) -> Seq<char> {
    let lead = run(s, 0, CharClass::Space);
    if lead >= s.len() {
        Seq::empty()
    } else {
        s.subrange(lead as int, s.len() - run_back(s, s.len() as int))
    }
}

pub proof fn lemma_run_bound(s: Seq<char>, i: int, k: CharClass)
    requires
        0 <= i <= s.len(),
    ensures
        i + run(s, i, k) <= s.len(),
        forall|j: int| i <= j < i + run(s, i, k) ==> in_class(k, #[trigger] s[j]),
        i + run(s, i, k) < s.len() ==> !in_class(k, s[i + run(s, i, k)]),
    decreases s.len() - i,
{
    if i < s.len() && in_class(k, s[i]) {
        lemma_run_bound(s, i + 1, k);
    }
}

pub proof fn lemma_run_back_bound(s: Seq<char>, j: int)
    requires
        0 <= j <= s.len(),
    ensures
        run_back(s, j) <= j,
        forall|m: int| j - run_back(s, j) <= m < j ==> is_ws(#[trigger] s[m]),
        run_back(s, j) < j ==> !is_ws(s[j - run_back(s, j) - 1]),
    decreases j,
{
    if 0 < j && is_ws(s[j - 1]) {
        lemma_run_back_bound(s, j - 1);
    }
}

pub fn is_ws_char(c: char) -> (r: bool)
    ensures
        r == is_ws(c),
{
    ('\u{9}' <= c && c <= '\u{d}') || c == ' ' || c == '\u{85}' || c == '\u{a0}'
        || c == '\u{1680}' || ('\u{2000}' <= c && c <= '\u{200a}') || c == '\u{2028}'
        || c == '\u{2029}' || c == '\u{202f}' || c == '\u{205f}' || c == '\u{3000}'
}

/// Relies on regex::Regex::is_match with the pattern `^\w$`: whether the
/// character belongs to the Unicode word class. The answer depends on the
/// character alone; among ASCII characters the class is exactly the letters,
/// the digits and `_`.
#[verifier::external_body]
fn is_word_char(c: char) -> (r: bool)
    ensures
        r == is_word(c),
        c <= '\u{7f}' ==> (r <==> is_ascii_word(c)),
{
    let mut buf = [0u8; 4];
    regex::Regex::new(r"^\w$").unwrap().is_match(c.encode_utf8(&mut buf))
}

pub fn in_class_exec(k: CharClass, c: char) -> (r: bool)
    ensures
        r == in_class(k, c),
{
    match k {
        CharClass::Space => is_ws_char(c),
        CharClass::HSpace => is_ws_char(c) && c != '\n',
        CharClass::Punct => c == '!' || c == '?' || c == ',' || c == '.' || c == '-' || c
            == '\u{2013}',
        CharClass::PunctOrSpace => c == '!' || c == '?' || c == ',' || c == '.' || c == '-' || c
            == '\u{2013}' || is_ws_char(c),
        CharClass::NonTerminal => !(c == '.' || c == '!' || c == '?'),
        CharClass::Word => is_word_char(c),
    }
}

/// Measures the run of class `k` that starts at `i`.
pub fn run_len(s: &Vec<char>, i: usize, k: CharClass) -> (r: usize)
    requires
        i <= s@.len(),
    ensures
        r == run(s@, i as int, k),
        i + r <= s@.len(),
{
    let mut j: usize = i;
    while j < s.len() && in_class_exec(k, s[j])
        invariant
            i <= j <= s@.len(),
            run(s@, i as int, k) == (j - i) + run(s@, j as int, k),
        decreases s@.len() - j,
    {
        j = j + 1;
    }
    proof {
        lemma_run_bound(s@, i as int, k);
    }
    j - i
}

/// The characters of `s`, in order.
pub fn chars_of(s: &str) -> (r: Vec<char>)
    ensures
        r@ == s@,
{
    let n = s.unicode_len();
    let mut out: Vec<char> = Vec::new();
    let mut i: usize = 0;
    while i < n
        invariant
            n == s@.len(),
            i <= n,
            out@ == s@.subrange(0, i as int),
        decreases n - i,
    {
        out.push(s.get_char(i));
        i = i + 1;
        assert(out@ =~= s@.subrange(0, i as int));
    }
    assert(out@ =~= s@);
    out
}

/// Relies on String::push: the character is appended at the end.
#[verifier::external_body]
fn push_char(s: &mut String, c: char)
    ensures
        final(s)@ == old(s)@.push(c),
{
    s.push(c)
}

/// A string holding the characters of `v`, in order.
pub fn string_of(v: &Vec<char>) -> (r: String)
    ensures
        r@ == v@,
{
    let mut out = String::new();
    let mut i: usize = 0;
    while i < v.len()
        invariant
            i <= v@.len(),
            out@ == v@.subrange(0, i as int),
        decreases v@.len() - i,
    {
        push_char(&mut out, v[i]);
        i = i + 1;
        assert(out@ =~= v@.subrange(0, i as int));
    }
    assert(out@ =~= v@);
    out
}

/// `v[from..to]` as a new vector.
pub fn slice_of(v: &Vec<char>, from: usize, to: usize) -> (r: Vec<char>)
    requires
        from <= to <= v@.len(),
    ensures
        r@ == v@.subrange(from as int, to as int),
{
    let mut out: Vec<char> = Vec::new();
    let mut i: usize = from;
    while i < to
        invariant
            from <= i <= to <= v@.len(),
            out@ == v@.subrange(from as int, i as int),
        decreases to - i,
    {
        out.push(v[i]);
        i = i + 1;
        assert(out@ =~= v@.subrange(from as int, i as int));
    }
    out
}

/// `v` without leading and trailing white space.
pub fn trim_chars(v: &Vec<char>) -> (r: Vec<char>)
    ensures
        r@ == trim(v@),
{
    let lead = run_len(v, 0, CharClass::Space);
    if lead >= v.len() {
        return Vec::new();
    }
    proof {
        lemma_run_bound(v@, 0, CharClass::Space);
    }
    let mut j: usize = v.len();
    while is_ws_char(v[j - 1])
        invariant
            lead < v@.len(),
            !is_ws(v@[lead as int]),
            lead < j <= v@.len(),
            run_back(v@, v@.len() as int) == (v@.len() - j) + run_back(v@, j as int),
        decreases j,
    {
        j = j - 1;
    }
    assert(run_back(v@, j as int) == 0);
    slice_of(v, lead, j)
}

} // verus!
