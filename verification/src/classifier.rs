//! Decides whether a block of text begins with a recognized diagram-grammar
//! keyword. The classifier is a pure function: it discards leading blank
//! lines, trims the first non-blank line, takes its first
//! whitespace-delimited token and tests membership in a fixed keyword set.

use vstd::prelude::*;

verus! {

/// Whitespace characters recognized while scanning: space, tab,
/// carriage return and newline.
pub open spec fn is_ws_char(c: char) -> bool {
    c == ' ' || c == '\t' || c == '\n' || c == '\r'
}

/// The suffix of `t` that starts at its first non-whitespace character
/// (empty when `t` is empty or entirely whitespace). Skipping every
/// leading whitespace character lands exactly on the first token of the
/// first non-blank line, so this models "discard leading blank lines,
/// then trim the line".
pub open spec fn first_content(t: Seq<char>) -> Seq<char>
    decreases t.len(),
{
    if t.len() == 0 {
        t
    } else if is_ws_char(t[0]) {
        first_content(t.drop_first())
    } else {
        t
    }
}

/// Length of the leading run of non-whitespace characters of `t`.
pub open spec fn leading_token_len(t: Seq<char>) -> int
    decreases t.len(),
{
    if t.len() == 0 || is_ws_char(t[0]) {
        0
    } else {
        1 + leading_token_len(t.drop_first())
    }
}

/// The first whitespace-delimited token of `t`, after discarding leading
/// blank lines and indentation; empty when `t` has no content.
pub open spec fn first_token(t: Seq<char>) -> Seq<char> {
    first_content(t).take(leading_token_len(first_content(t)))
}

/// The fixed set of recognized diagram-grammar keywords, one per
/// supported diagram family (exact case match).
pub open spec fn is_recognized_keyword(tok: Seq<char>) -> bool {
    ||| tok == "flowchart"@
    ||| tok == "graph"@
    ||| tok == "sequenceDiagram"@
    ||| tok == "classDiagram"@
    ||| tok == "stateDiagram"@
    ||| tok == "stateDiagram-v2"@
    ||| tok == "erDiagram"@
    ||| tok == "timeline"@
    ||| tok == "pie"@
    ||| tok == "mindmap"@
}

/// `t` classifies as diagram source exactly when its first token is a
/// recognized keyword; empty or all-whitespace text has an empty first
/// token and never classifies.
pub open spec fn spec_looks_like_diagram(t: Seq<char>) -> bool {
    is_recognized_keyword(first_token(t))
}

/// Discarding a whitespace prefix does not change where the first
/// content starts.
pub proof fn lemma_first_content_of_ws_prefix(t: Seq<char>, i: int)
    requires
        0 <= i <= t.len(),
        forall|j: int| 0 <= j < i ==> is_ws_char(t[j]),
    ensures
        first_content(t) == first_content(t.skip(i)),
    decreases i,
{
    if i == 0 {
        assert(t.skip(0) =~= t);
    } else {
        assert(is_ws_char(t[0]));
        assert(t.drop_first() =~= t.skip(1));
        lemma_first_content_of_ws_prefix(t.skip(1), i - 1);
        assert(t.skip(1).skip(i - 1) =~= t.skip(i));
    }
}

/// A scan that saw `m` non-whitespace characters and then a delimiter
/// (or the end) has found the leading token length.
pub proof fn lemma_token_len_of_scan(s: Seq<char>, m: int)
    requires
        0 <= m <= s.len(),
        forall|k: int| 0 <= k < m ==> !is_ws_char(s[k]),
        m == s.len() || is_ws_char(s[m]),
    ensures
        leading_token_len(s) == m,
    decreases m,
{
    if m > 0 {
        assert(!is_ws_char(s[0]));
        assert(s.drop_first() =~= s.skip(1));
        lemma_token_len_of_scan(s.skip(1), m - 1);
    }
}

/// The empty token is not a recognized keyword.
pub proof fn lemma_empty_token_not_recognized()
    ensures
        !is_recognized_keyword(Seq::<char>::empty()),
{
    reveal_strlit("flowchart");
    reveal_strlit("graph");
    reveal_strlit("sequenceDiagram");
    reveal_strlit("classDiagram");
    reveal_strlit("stateDiagram");
    reveal_strlit("stateDiagram-v2");
    reveal_strlit("erDiagram");
    reveal_strlit("timeline");
    reveal_strlit("pie");
    reveal_strlit("mindmap");
    assert("flowchart"@.len() == 9);
    assert("graph"@.len() == 5);
    assert("sequenceDiagram"@.len() == 15);
    assert("classDiagram"@.len() == 12);
    assert("stateDiagram"@.len() == 12);
    assert("stateDiagram-v2"@.len() == 15);
    assert("erDiagram"@.len() == 9);
    assert("timeline"@.len() == 8);
    assert("pie"@.len() == 3);
    assert("mindmap"@.len() == 7);
}

/// Leading blank lines (or any all-whitespace prefix) do not affect
/// classification.
pub proof fn lemma_blank_prefix_ignored(p: Seq<char>, t: Seq<char>)
    requires
        forall|j: int| 0 <= j < p.len() ==> is_ws_char(p[j]),
    ensures
        spec_looks_like_diagram(p + t) == spec_looks_like_diagram(t),
{
    lemma_first_content_of_ws_prefix(p + t, p.len() as int);
    assert((p + t).skip(p.len() as int) =~= t);
}

/// Text that starts with a recognized keyword followed by a whitespace
/// delimiter (or nothing) classifies as diagram source.
pub proof fn lemma_keyword_prefix_classifies(kw: Seq<char>, rest: Seq<char>)
    requires
        is_recognized_keyword(kw),
        forall|j: int| 0 <= j < kw.len() ==> !is_ws_char(kw[j]),
        rest.len() == 0 || is_ws_char(rest[0]),
    ensures
        spec_looks_like_diagram(kw + rest),
{
    if kw.len() == 0 {
        assert(kw =~= Seq::<char>::empty());
        lemma_empty_token_not_recognized();
        assert(false);
    }
    let s = kw + rest;
    assert(s[0] == kw[0]);
    assert(first_content(s) == s);
    assert(forall|k: int| 0 <= k < kw.len() ==> s[k] == kw[k]);
    if rest.len() > 0 {
        assert(s[kw.len() as int] == rest[0]);
    }
    lemma_token_len_of_scan(s, kw.len() as int);
    assert(s.take(kw.len() as int) =~= kw);
}

fn is_ws(c: char) -> (r: bool)
    ensures
        r == is_ws_char(c),
{
    c == ' ' || c == '\t' || c == '\n' || c == '\r'
}

/// Executable equality test on the character views of two strings.
pub fn str_eq(a: &str, b: &str) -> (r: bool)
    ensures
        r == (a@ == b@),
{
    let sa = String::from_str(a);
    let sb = String::from_str(b);
    sa == sb
}

fn is_recognized(tok: &str) -> (r: bool)
    ensures
        r == is_recognized_keyword(tok@),
{
    str_eq(tok, "flowchart") || str_eq(tok, "graph") || str_eq(tok, "sequenceDiagram")
        || str_eq(tok, "classDiagram") || str_eq(tok, "stateDiagram")
        || str_eq(tok, "stateDiagram-v2") || str_eq(tok, "erDiagram")
        || str_eq(tok, "timeline") || str_eq(tok, "pie") || str_eq(tok, "mindmap")
}

/// Decides whether `text` begins — after any leading blank lines and
/// indentation — with a recognized diagram-grammar keyword. Pure and
/// deterministic: the result is a function of `text` alone.
pub fn looks_like_diagram(text: &str) -> (r: bool)
    ensures
        r == spec_looks_like_diagram(text@),
{
    let n: usize = text.unicode_len();
    let mut i: usize = 0;
    loop
        invariant
            n == text@.len(),
            0 <= i <= n,
            forall|j: int| 0 <= j < i ==> is_ws_char(text@[j]),
        ensures
            0 <= i <= n,
            n == text@.len(),
            forall|j: int| 0 <= j < i ==> is_ws_char(text@[j]),
            i == n || !is_ws_char(text@[i as int]),
        decreases n - i,
    {
        if i >= n {
            break;
        }
        let c = text.get_char(i);
        if !is_ws(c) {
            break;
        }
        i += 1;
    }
    proof {
        lemma_first_content_of_ws_prefix(text@, i as int);
    }
    if i == n {
        proof {
            assert(text@.skip(n as int) =~= Seq::<char>::empty());
            assert(first_token(text@) =~= Seq::<char>::empty());
            lemma_empty_token_not_recognized();
        }
        return false;
    }
    let mut j: usize = i;
    loop
        invariant
            n == text@.len(),
            i <= j <= n,
            i < n,
            !is_ws_char(text@[i as int]),
            forall|k: int| i <= k < j ==> !is_ws_char(text@[k]),
        ensures
            i <= j <= n,
            n == text@.len(),
            forall|k: int| i <= k < j ==> !is_ws_char(text@[k]),
            j == n || is_ws_char(text@[j as int]),
        decreases n - j,
    {
        if j >= n {
            break;
        }
        let c = text.get_char(j);
        if is_ws(c) {
            break;
        }
        j += 1;
    }
    let tok: &str = text.substring_char(i, j);
    proof {
        let content = text@.skip(i as int);
        assert(content[0] == text@[i as int]);
        assert(first_content(text@) == content);
        assert(forall|k: int| 0 <= k < j - i ==> content[k] == text@[k + i]);
        if j < n {
            assert(content[j - i] == text@[j as int]);
        }
        lemma_token_len_of_scan(content, j - i);
        assert(first_token(text@) =~= text@.subrange(i as int, j as int));
    }
    is_recognized(tok)
}

} // verus!
