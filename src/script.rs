//! Script preparation: deciding whether a snippet of remote code is an
//! expression whose value should be returned, or a statement sequence that
//! manages its own `return`.
//!
//! The decision is a best-effort heuristic over the text, not a parse: exotic
//! code can be misclassified. In particular a bare call statement with no
//! trailing semicolon is not recognised as a statement and gets the implicit
//! `return` (the classifier fails open toward returning a value).

use vstd::prelude::*;
use vstd::string::{StrSliceExecFns, StringExecFns};

use crate::text::{chars_of, ends_with, range_contains, range_ends_with, range_starts_with, starts_with};

verus! {

broadcast use vstd::string::group_string_axioms;

/// Unicode `White_Space`, the set that `char::is_whitespace` tests.
pub open spec fn is_space(c: char) -> bool {
    let u = c as u32;
    (0x09 <= u <= 0x0D) || u == 0x20 || u == 0x85 || u == 0xA0 || u == 0x1680
        || (0x2000 <= u <= 0x200A) || u == 0x2028 || u == 0x2029 || u == 0x202F
        || u == 0x205F || u == 0x3000
}

/// Every character of `s` is white space.
pub open spec fn all_space(s: Seq<char>) -> bool {
    forall|k: int| 0 <= k < s.len() ==> is_space(#[trigger] s[k])
}

/// Index of the first non-space character of `s` at or after `i` (or `s.len()`).
pub open spec fn first_non_space(s: Seq<char>, i: int) -> int
    decreases s.len() - i,
{
    if i >= s.len() {
        s.len() as int
    } else if i < 0 {
        first_non_space(s, 0)
    } else if is_space(s[i]) {
        first_non_space(s, i + 1)
    } else {
        i
    }
}

/// End of `s[lo..j]` once trailing white space is dropped.
pub open spec fn trimmed_end(s: Seq<char>, j: int, lo: int) -> int
    decreases j - lo,
{
    if j <= lo {
        lo
    } else if is_space(s[j - 1]) {
        trimmed_end(s, j - 1, lo)
    } else {
        j
    }
}

/// `s` without leading and trailing white space.
pub open spec fn trimmed(s: Seq<char>) -> Seq<char> {
    let a = first_non_space(s, 0);
    s.subrange(a, trimmed_end(s, s.len() as int, a))
}

/// `t` holds a semicolon that is not merely its one trailing terminator.
pub open spec fn has_separator(t: Seq<char>) -> bool {
    if t.len() > 0 && t.last() == ';' {
        t.drop_last().contains(';')
    } else {
        t.contains(';')
    }
}

/// `t` opens with a declaration or control-flow keyword.
pub open spec fn starts_with_keyword(t: Seq<char>) -> bool {
    starts_with(t, "const "@) || starts_with(t, "let "@) || starts_with(t, "var "@)
        || starts_with(t, "if "@) || starts_with(t, "for "@) || starts_with(t, "while "@)
        || starts_with(t, "function "@) || starts_with(t, "class "@) || starts_with(t, "try "@)
}

/// `t` has one of the recognised shapes of a single expression.
pub open spec fn expression_shaped(t: Seq<char>) -> bool {
    starts_with(t, "await "@) || starts_with(t, "("@) || starts_with(t, "JSON."@)
        || starts_with(t, "{"@) || starts_with(t, "["@) || ends_with(t, ")()"@)
        || starts_with(t, "document."@) || starts_with(t, "window."@) || starts_with(t, "new "@)
}

/// How a snippet is read.
#[derive(Debug, Clone, Copy, PartialEq, Eq, Structural)]
pub enum ScriptShape {
    /// The trimmed snippet already begins with `return `.
    ExplicitReturn,
    /// A statement sequence: a separating semicolon, or a leading keyword.
    MultiStatement,
    /// A recognised expression shape.
    SingleExpression,
    /// None of the above; treated as an expression.
    Ambiguous,
}

/// The shape of snippet `s`, by the rules taken in order.
pub open spec fn shape_of(s: Seq<char>) -> ScriptShape {
    let t = trimmed(s);
    if starts_with(t, "return "@) {
        ScriptShape::ExplicitReturn
    } else if has_separator(t) || starts_with_keyword(t) {
        ScriptShape::MultiStatement
    } else if expression_shaped(t) {
        ScriptShape::SingleExpression
    } else {
        ScriptShape::Ambiguous
    }
}

/// The prepared form of `s`: unchanged when it manages its own return,
/// otherwise its trimmed text behind `return `.
pub open spec fn prepared(s: Seq<char>) -> Seq<char> {
    match shape_of(s) {
        ScriptShape::ExplicitReturn | ScriptShape::MultiStatement => s,
        _ => "return "@ + trimmed(s),
    }
}

fn is_white(c: char) -> (r: bool)
    ensures
        r == is_space(c),
{
    let u = c as u32;
    (0x09 <= u && u <= 0x0D) || u == 0x20 || u == 0x85 || u == 0xA0 || u == 0x1680 || (0x2000
        <= u && u <= 0x200A) || u == 0x2028 || u == 0x2029 || u == 0x202F || u == 0x205F || u
        == 0x3000
}

/// Bounds `(a, b)` of the trimmed text within `v`.
fn trim_bounds(v: &Vec<char>) -> (r: (usize, usize))
    ensures
        r.0 <= r.1 <= v.len(),
        r.0 == first_non_space(v@, 0),
        r.1 == trimmed_end(v@, v.len() as int, r.0 as int),
        v@.subrange(r.0 as int, r.1 as int) == trimmed(v@),
{
    let n = v.len();
    let mut a: usize = 0;
    while a < n && is_white(v[a])
        invariant
            a <= n == v.len(),
            first_non_space(v@, 0) == first_non_space(v@, a as int),
        decreases n - a,
    {
        a += 1;
    }
    let mut b: usize = n;
    while b > a && is_white(v[b - 1])
        invariant
            a <= b <= n == v.len(),
            trimmed_end(v@, n as int, a as int) == trimmed_end(v@, b as int, a as int),
        decreases b,
    {
        b -= 1;
    }
    (a, b)
}

fn starts_with_any_keyword(v: &Vec<char>, a: usize, b: usize) -> (r: bool)
    requires
        a <= b <= v.len(),
    ensures
        r == starts_with_keyword(v@.subrange(a as int, b as int)),
{
    range_starts_with(v, a, b, "const ") || range_starts_with(v, a, b, "let ")
        || range_starts_with(v, a, b, "var ") || range_starts_with(v, a, b, "if ")
        || range_starts_with(v, a, b, "for ") || range_starts_with(v, a, b, "while ")
        || range_starts_with(v, a, b, "function ") || range_starts_with(v, a, b, "class ")
        || range_starts_with(v, a, b, "try ")
}

fn looks_like_expression(v: &Vec<char>, a: usize, b: usize) -> (r: bool)
    requires
        a <= b <= v.len(),
    ensures
        r == expression_shaped(v@.subrange(a as int, b as int)),
{
    range_starts_with(v, a, b, "await ") || range_starts_with(v, a, b, "(")
        || range_starts_with(v, a, b, "JSON.") || range_starts_with(v, a, b, "{")
        || range_starts_with(v, a, b, "[") || range_ends_with(v, a, b, ")()")
        || range_starts_with(v, a, b, "document.") || range_starts_with(v, a, b, "window.")
        || range_starts_with(v, a, b, "new ")
}

fn separator_within(v: &Vec<char>, a: usize, b: usize) -> (r: bool)
    requires
        a <= b <= v.len(),
    ensures
        r == has_separator(v@.subrange(a as int, b as int)),
{
    let ghost t = v@.subrange(a as int, b as int);
    if b > a && v[b - 1] == ';' {
        assert(t.drop_last() =~= v@.subrange(a as int, b - 1));
        range_contains(v, a, b - 1, ';')
    } else {
        range_contains(v, a, b, ';')
    }
}

fn shape_within(v: &Vec<char>, a: usize, b: usize) -> (r: ScriptShape)
    requires
        a <= b <= v.len(),
        v@.subrange(a as int, b as int) == trimmed(v@),
    ensures
        r == shape_of(v@),
{
    if range_starts_with(v, a, b, "return ") {
        ScriptShape::ExplicitReturn
    } else if separator_within(v, a, b) || starts_with_any_keyword(v, a, b) {
        ScriptShape::MultiStatement
    } else if looks_like_expression(v, a, b) {
        ScriptShape::SingleExpression
    } else {
        ScriptShape::Ambiguous
    }
}

/// Classifies `script` (see [`ScriptShape`]).
pub fn classify_script(script: &str) -> (r: ScriptShape)
    ensures
        r == shape_of(script@),
{
    let v = chars_of(script);
    let (a, b) = trim_bounds(&v);
    shape_within(&v, a, b)
}

/// Prepares a snippet for execution: adds an implicit `return` in front of its
/// trimmed text unless it already returns explicitly or is a statement sequence.
pub fn prepare_script(script: &str) -> (r: String)
    ensures
        r@ == prepared(script@),
{
    let v = chars_of(script);
    let (a, b) = trim_bounds(&v);
    match shape_within(&v, a, b) {
        ScriptShape::ExplicitReturn | ScriptShape::MultiStatement => String::from_str(script),
        _ => {
            let body = script.substring_char(a, b);
            String::from_str("return ").concat(body)
        },
    }
}

proof fn lemma_first_non_space(s: Seq<char>, i: int)
    requires
        0 <= i <= s.len(),
    ensures
        i <= first_non_space(s, i) <= s.len(),
        first_non_space(s, i) < s.len() ==> !is_space(s[first_non_space(s, i)]),
        forall|k: int| i <= k < first_non_space(s, i) ==> is_space(#[trigger] s[k]),
    decreases s.len() - i,
{
    if i < s.len() && is_space(s[i]) {
        lemma_first_non_space(s, i + 1);
    }
}

proof fn lemma_trimmed_end(s: Seq<char>, j: int, lo: int)
    requires
        0 <= lo <= j <= s.len(),
    ensures
        lo <= trimmed_end(s, j, lo) <= j,
        trimmed_end(s, j, lo) > lo ==> !is_space(s[trimmed_end(s, j, lo) - 1]),
        forall|k: int| trimmed_end(s, j, lo) <= k < j ==> is_space(#[trigger] s[k]),
    decreases j - lo,
{
    if j > lo && is_space(s[j - 1]) {
        lemma_trimmed_end(s, j - 1, lo);
    }
}

/// A non-blank snippet trims to a non-empty text that starts and ends with a
/// character that is not white space.
proof fn lemma_trimmed_edges(s: Seq<char>)
    requires
        !all_space(s),
    ensures
        trimmed(s).len() > 0,
        !is_space(trimmed(s)[0]),
        !is_space(trimmed(s).last()),
{
    let k = choose|k: int| 0 <= k < s.len() && !is_space(#[trigger] s[k]);
    lemma_first_non_space(s, 0);
    let a = first_non_space(s, 0);
    lemma_trimmed_end(s, s.len() as int, a);
    let e = trimmed_end(s, s.len() as int, a);
    assert(a <= k);
    assert(e > k);
}

/// A snippet whose first character is not white space, and that holds a
/// character that is not white space at or after `k`, keeps its first `k + 1`
/// characters when trimmed.
proof fn lemma_trim_keeps_head(s: Seq<char>, k: int)
    requires
        0 <= k < s.len(),
        !is_space(s[0]),
        exists|m: int| k <= m < s.len() && !is_space(#[trigger] s[m]),
    ensures
        trimmed(s).len() > k,
        trimmed(s).subrange(0, k + 1) == s.subrange(0, k + 1),
{
    let m = choose|m: int| k <= m < s.len() && !is_space(#[trigger] s[m]);
    assert(first_non_space(s, 0) == 0);
    lemma_trimmed_end(s, s.len() as int, 0);
    assert(trimmed_end(s, s.len() as int, 0) > m);
    assert(trimmed(s).subrange(0, k + 1) =~= s.subrange(0, k + 1));
}

/// What preparation does with each kind of snippet: a snippet that begins
/// with `return ` followed by some code, or whose trimmed text has a
/// separating semicolon or a leading declaration or control keyword, is left
/// as it is; any other gets `return ` in front of its trimmed text.
pub proof fn law_prepared_forms(s: Seq<char>)
    ensures
        starts_with(s, "return "@) && !all_space(s.subrange(7, s.len() as int)) ==> prepared(s)
            == s,
        has_separator(trimmed(s)) || starts_with_keyword(trimmed(s)) ==> prepared(s) == s,
        !starts_with(trimmed(s), "return "@) && !has_separator(trimmed(s))
            && !starts_with_keyword(trimmed(s)) ==> prepared(s) == "return "@ + trimmed(s),
{
    reveal_strlit("return ");
    if starts_with(s, "return "@) && !all_space(s.subrange(7, s.len() as int)) {
        let u = s.subrange(7, s.len() as int);
        let j = choose|j: int| 0 <= j < u.len() && !is_space(#[trigger] u[j]);
        assert(s[0] == "return "@[0]);
        assert(s[7 + j] == u[j]);
        lemma_trim_keeps_head(s, 6);
        assert(trimmed(s).subrange(0, 7) =~= s.subrange(0, 7));
    }
}

/// Preparing a prepared snippet again changes nothing, for every snippet that
/// is not blank.
pub proof fn law_prepare_idempotent(s: Seq<char>)
    requires
        !all_space(s),
    ensures
        prepared(prepared(s)) == prepared(s),
{
    reveal_strlit("return ");
    let t = trimmed(s);
    match shape_of(s) {
        ScriptShape::ExplicitReturn | ScriptShape::MultiStatement => {},
        _ => {
            lemma_trimmed_edges(s);
            let u = "return "@ + t;
            assert(u[0] == 'r');
            assert(u.last() == t.last());
            lemma_trim_keeps_head(u, u.len() - 1);
            assert(trimmed(u).len() == u.len());
            assert(trimmed(u) =~= u) by {
                assert(trimmed(u).subrange(0, u.len() as int) =~= trimmed(u));
                assert(u.subrange(0, u.len() as int) =~= u);
            }
            assert(u.subrange(0, 7) =~= "return "@);
        },
    }
}

} // verus!
