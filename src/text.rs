//! Character-level helpers over `str` and `String` views.

use vstd::prelude::*;
use vstd::std_specs::iter::IteratorSpec;
use vstd::string::StringExecFns;

verus! {

broadcast use vstd::string::group_string_axioms;

/// The characters of `s`, in order.
pub fn chars_of(s: &str) -> (r: Vec<char>)
    ensures
        r@ == s@,
{
    let mut out: Vec<char> = Vec::new();
    let mut it = s.chars();
    loop
        invariant
            it.obeys_prophetic_iter_laws(),
            it.decrease() is Some,
            out@ + it.remaining() == s@,
        ensures
            out@ == s@,
        decreases it.decrease()->0,
    {
        match it.next() {
            Some(c) => {
                out.push(c);
            },
            None => {
                assert(out@ + it.remaining() =~= out@);
                break;
            },
        }
    }
    out
}


/// `p` is a prefix of `s`.
pub open spec fn starts_with(s: Seq<char>, p: Seq<char>) -> bool {
    p.len() <= s.len() && s.subrange(0, p.len() as int) == p
}

/// `p` is a suffix of `s`.
pub open spec fn ends_with(s: Seq<char>, p: Seq<char>) -> bool {
    p.len() <= s.len() && s.subrange(s.len() - p.len(), s.len() as int) == p
}

/// Whether `v[lo..hi]` starts with the characters of `p`.
pub fn range_starts_with(v: &Vec<char>, lo: usize, hi: usize, p: &str) -> (r: bool)
    requires
        lo <= hi <= v.len(),
    ensures
        r == starts_with(v@.subrange(lo as int, hi as int), p@),
{
    let pc = chars_of(p);
    if pc.len() > hi - lo {
        return false;
    }
    let mut i: usize = 0;
    while i < pc.len()
        invariant
            pc@ == p@,
            lo + pc.len() <= hi <= v.len(),
            i <= pc.len(),
            forall|k: int| 0 <= k < i ==> v@[lo + k] == pc@[k],
        decreases pc.len() - i,
    {
        if v[lo + i] != pc[i] {
            assert(v@.subrange(lo as int, hi as int).subrange(0, pc.len() as int)[i as int] != pc@[i as int]);
            return false;
        }
        i += 1;
    }
    assert(v@.subrange(lo as int, hi as int).subrange(0, pc.len() as int) =~= pc@);
    true
}

/// Whether `v[lo..hi]` ends with the characters of `p`.
pub fn range_ends_with(v: &Vec<char>, lo: usize, hi: usize, p: &str) -> (r: bool)
    requires
        lo <= hi <= v.len(),
    ensures
        r == ends_with(v@.subrange(lo as int, hi as int), p@),
{
    let pc = chars_of(p);
    if pc.len() > hi - lo {
        return false;
    }
    let start = hi - pc.len();
    let mut i: usize = 0;
    while i < pc.len()
        invariant
            pc@ == p@,
            lo <= start,
            start + pc.len() == hi,
            hi <= v.len(),
            i <= pc.len(),
            forall|k: int| 0 <= k < i ==> v@[start + k] == pc@[k],
        decreases pc.len() - i,
    {
        if v[start + i] != pc[i] {
            let ghost w = v@.subrange(lo as int, hi as int);
            assert(w.subrange(w.len() - pc.len(), w.len() as int)[i as int] != pc@[i as int]);
            return false;
        }
        i += 1;
    }
    let ghost w = v@.subrange(lo as int, hi as int);
    assert(w.subrange(w.len() - pc.len(), w.len() as int) =~= pc@);
    true
}

/// Whether `v[lo..hi]` holds the character `c`.
pub fn range_contains(v: &Vec<char>, lo: usize, hi: usize, c: char) -> (r: bool)
    requires
        lo <= hi <= v.len(),
    ensures
        r == v@.subrange(lo as int, hi as int).contains(c),
{
    let mut i: usize = lo;
    while i < hi
        invariant
            lo <= i <= hi <= v.len(),
            forall|k: int| lo <= k < i ==> v@[k] != c,
        decreases hi - i,
    {
        if v[i] == c {
            assert(v@.subrange(lo as int, hi as int)[i - lo] == c);
            return true;
        }
        i += 1;
    }
    assert forall|k: int| 0 <= k < hi - lo implies v@.subrange(lo as int, hi as int)[k] != c by {
        assert(v@[lo + k] != c);
    }
    false
}


/// Whether `a` and `b` hold the same characters.
pub fn same_text(a: &str, b: &str) -> (r: bool)
    ensures
        r == (a@ == b@),
{
    let x = chars_of(a);
    let y = chars_of(b);
    if x.len() != y.len() {
        return false;
    }
    let mut i: usize = 0;
    while i < x.len()
        invariant
            x@ == a@,
            y@ == b@,
            x.len() == y.len(),
            i <= x.len(),
            forall|k: int| 0 <= k < i ==> x@[k] == y@[k],
        decreases x.len() - i,
    {
        if x[i] != y[i] {
            return false;
        }
        i += 1;
    }
    assert(x@ =~= y@);
    true
}

/// An ASCII decimal digit.
pub open spec fn is_digit(c: char) -> bool {
    '0' <= c && c <= '9'
}

/// Value of an ASCII digit.
pub open spec fn digit_value(c: char) -> nat {
    ((c as u32) - 48) as nat
}

/// Value of a string of decimal digits (0 for the empty string).
pub open spec fn digits_value(s: Seq<char>) -> nat
    decreases s.len(),
{
    if s.len() == 0 {
        0
    } else {
        digits_value(s.drop_last()) * 10 + digit_value(s.last())
    }
}

/// `s` without one leading `+`.
pub open spec fn unsigned_part(s: Seq<char>) -> Seq<char> {
    if s.len() > 0 && s[0] == '+' {
        s.drop_first()
    } else {
        s
    }
}

/// Every character of `d` is a decimal digit.
pub open spec fn all_digits(d: Seq<char>) -> bool {
    forall|k: int| 0 <= k < d.len() ==> is_digit(#[trigger] d[k])
}

/// What `u64::from_str` accepts: an optional `+`, then one or more decimal
/// digits whose value fits in a `u64`.
pub open spec fn parsed_u64(s: Seq<char>) -> Option<nat> {
    let d = unsigned_part(s);
    if d.len() > 0 && all_digits(d) && digits_value(d) <= u64::MAX {
        Some(digits_value(d))
    } else {
        None
    }
}

proof fn lemma_digits_value_grows(d: Seq<char>, i: int)
    requires
        0 <= i <= d.len(),
        forall|k: int| 0 <= k < d.len() ==> is_digit(#[trigger] d[k]),
    ensures
        digits_value(d.subrange(0, i)) <= digits_value(d),
    decreases d.len() - i,
{
    if i < d.len() {
        lemma_digits_value_grows(d, i + 1);
        assert(d.subrange(0, i + 1).drop_last() =~= d.subrange(0, i));
    } else {
        assert(d.subrange(0, i) =~= d);
    }
}

/// Parses `s` as `u64::from_str` does.
pub fn parse_u64(s: &str) -> (r: Option<u64>)
    ensures
        match r {
            Some(n) => parsed_u64(s@) == Some(n as nat),
            None => parsed_u64(s@) is None,
        },
{
    let v = chars_of(s);
    let start: usize = if v.len() > 0 && v[0] == '+' {
        1
    } else {
        0
    };
    let ghost d = unsigned_part(v@);
    assert(d =~= v@.subrange(start as int, v.len() as int));
    if start >= v.len() {
        return None;
    }
    let mut acc: u64 = 0;
    let mut i: usize = start;
    while i < v.len()
        invariant
            v@ == s@,
            start <= i <= v.len(),
            d == v@.subrange(start as int, v.len() as int),
            d == unsigned_part(s@),
            forall|k: int| start <= k < i ==> is_digit(#[trigger] v@[k]),
            acc as nat == digits_value(v@.subrange(start as int, i as int)),
        decreases v.len() - i,
    {
        let c = v[i];
        if !('0' <= c && c <= '9') {
            assert(d[i - start] == v@[i as int]);
            assert(!is_digit(d[i - start]));
            assert(!all_digits(d));
            return None;
        }
        let dv: u64 = (c as u32 - 48) as u64;
        assert(v@.subrange(start as int, i + 1).drop_last() =~= v@.subrange(start as int, i as int));
        match acc.checked_mul(10) {
            Some(m) => match m.checked_add(dv) {
                Some(n) => {
                    acc = n;
                },
                None => {
                    proof {
                        if all_digits(d) {
                            lemma_digits_value_grows(d, i + 1 - start);
                            assert(d.subrange(0, i + 1 - start) =~= v@.subrange(start as int, i + 1));
                            assert(digits_value(v@.subrange(start as int, i + 1)) == acc * 10 + dv);
                            assert(digits_value(d) > u64::MAX);
                        }
                    }
                    return None;
                },
            },
            None => {
                proof {
                    if all_digits(d) {
                        lemma_digits_value_grows(d, i + 1 - start);
                        assert(d.subrange(0, i + 1 - start) =~= v@.subrange(start as int, i + 1));
                    }
                }
                return None;
            },
        }
        i += 1;
    }
    assert(v@.subrange(start as int, i as int) =~= d);
    Some(acc)
}

/// The decimal digit character for `d < 10`.
pub open spec fn digit_char(d: nat) -> char {
    seq!['0', '1', '2', '3', '4', '5', '6', '7', '8', '9'][d as int]
}

/// Decimal text of `n`, without sign or leading zeros.
pub open spec fn decimal(n: nat) -> Seq<char>
    decreases n,
{
    if n < 10 {
        seq![digit_char(n)]
    } else {
        decimal(n / 10).push(digit_char(n % 10))
    }
}

fn digit_text(d: u64) -> (r: &'static str)
    requires
        d < 10,
    ensures
        r@ == seq![digit_char(d as nat)],
{
    if d == 0 {
        proof { reveal_strlit("0"); }
        "0"
    } else if d == 1 {
        proof { reveal_strlit("1"); }
        "1"
    } else if d == 2 {
        proof { reveal_strlit("2"); }
        "2"
    } else if d == 3 {
        proof { reveal_strlit("3"); }
        "3"
    } else if d == 4 {
        proof { reveal_strlit("4"); }
        "4"
    } else if d == 5 {
        proof { reveal_strlit("5"); }
        "5"
    } else if d == 6 {
        proof { reveal_strlit("6"); }
        "6"
    } else if d == 7 {
        proof { reveal_strlit("7"); }
        "7"
    } else if d == 8 {
        proof { reveal_strlit("8"); }
        "8"
    } else {
        proof { reveal_strlit("9"); }
        "9"
    }
}

/// Decimal text of `n`.
pub fn decimal_text(n: u64) -> (r: String)
    ensures
        r@ == decimal(n as nat),
    decreases n,
{
    if n < 10 {
        String::from_str(digit_text(n))
    } else {
        let mut head = decimal_text(n / 10);
        head.append(digit_text(n % 10));
        assert(head@ =~= decimal(n as nat));
        head
    }
}

/// Decimal text of a `u128`.
pub fn decimal_text_wide(n: u128) -> (r: String)
    ensures
        r@ == decimal(n as nat),
    decreases n,
{
    if n < 10 {
        String::from_str(digit_text(n as u64))
    } else {
        let mut head = decimal_text_wide(n / 10);
        head.append(digit_text((n % 10) as u64));
        assert(head@ =~= decimal(n as nat));
        head
    }
}

} // verus!
