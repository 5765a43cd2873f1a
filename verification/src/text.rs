//! Character-level helpers: prefix and substring tests, and decimal text.

use vstd::prelude::*;
use vstd::std_specs::iter::IteratorSpec;

verus! {

/// `pat` occurs in `s` starting at position `at`.
pub open spec fn occurs_at(s: Seq<char>, pat: Seq<char>, at: int) -> bool {
    0 <= at && at + pat.len() <= s.len() && s.subrange(at, at + pat.len()) == pat
}

/// `s` begins with `pat`.
pub open spec fn has_prefix(s: Seq<char>, pat: Seq<char>) -> bool {
    occurs_at(s, pat, 0)
}

/// `pat` occurs somewhere in `s` as a contiguous run.
pub open spec fn has_substring(s: Seq<char>, pat: Seq<char>) -> bool {
    exists|at: int| occurs_at(s, pat, at)
}

/// The characters of a text that may be missing.
pub open spec fn text_of(text: Option<String>) -> Option<Seq<char>> {
    match text {
        Some(t) => Some(t@),
        None => None,
    }
}

/// The characters of `s`, in order.
pub fn chars_of(s: &str) -> (out: Vec<char>)
    ensures
        out@ == s@,
{
    broadcast use vstd::string::axiom_spec_iter, vstd::string::next_postcondition;

    let mut out: Vec<char> = Vec::new();
    let mut it = s.chars();
    loop
        invariant
            it.obeys_prophetic_iter_laws(),
            it.decrease() is Some,
            out@ + it.remaining() == s@,
        ensures
            out@ == s@,
        decreases it.decrease()->0,
    {
        let ghost before = it.remaining();
        match it.next() {
            Some(c) => {
                assert(before == seq![c] + it.remaining());
                assert(out@.push(c) + it.remaining() == out@ + before);
                out.push(c);
            },
            None => {
                assert(out@ + before == out@);
                break ;
            },
        }
    }
    out
}

/// Whether `pat` occurs in `s` at position `at`.
pub fn matches_at(s: &Vec<char>, pat: &Vec<char>, at: usize) -> (found: bool)
    ensures
        found == occurs_at(s@, pat@, at as int),
{
    if at > s.len() || pat.len() > s.len() - at {
        return false;
    }
    let mut k: usize = 0;
    while k < pat.len()
        invariant
            at + pat.len() <= s.len(),
            k <= pat.len(),
            forall|j: int| 0 <= j < k ==> s@[at + j] == pat@[j],
        decreases pat.len() - k,
    {
        if s[at + k] != pat[k] {
            assert(s@.subrange(at as int, at + pat.len())[k as int] != pat@[k as int]);
            return false;
        }
        k += 1;
    }
    assert(s@.subrange(at as int, at + pat.len()) =~= pat@);
    true
}

/// Whether `s` begins with `pat`.
pub fn starts_with(s: &Vec<char>, pat: &Vec<char>) -> (found: bool)
    ensures
        found == has_prefix(s@, pat@),
{
    matches_at(s, pat, 0)
}

/// Whether `pat` occurs somewhere in `s`.
pub fn contains_run(s: &Vec<char>, pat: &Vec<char>) -> (found: bool)
    ensures
        found == has_substring(s@, pat@),
{
    if pat.len() > s.len() {
        return false;
    }
    let last: usize = s.len() - pat.len();
    let mut at: usize = 0;
    loop
        invariant
            last == s.len() - pat.len(),
            at <= last,
            forall|j: int| 0 <= j < at ==> !occurs_at(s@, pat@, j),
        decreases last - at,
    {
        if matches_at(s, pat, at) {
            return true;
        }
        if at == last {
            return false;
        }
        at += 1;
    }
}

/// Whether the character `c` occurs in `s`.
pub fn contains_char(s: &Vec<char>, c: char) -> (found: bool)
    ensures
        found == s@.contains(c),
{
    let mut i: usize = 0;
    while i < s.len()
        invariant
            i <= s.len(),
            forall|j: int| 0 <= j < i ==> s@[j] != c,
        decreases s.len() - i,
    {
        if s[i] == c {
            return true;
        }
        i += 1;
    }
    false
}

/// Whether two texts are the same, character by character.
pub fn same_chars(a: &Vec<char>, b: &Vec<char>) -> (same: bool)
    ensures
        same == (a@ == b@),
{
    if a.len() != b.len() {
        return false;
    }
    let mut i: usize = 0;
    while i < a.len()
        invariant
            a.len() == b.len(),
            i <= a.len(),
            forall|j: int| 0 <= j < i ==> a@[j] == b@[j],
        decreases a.len() - i,
    {
        if a[i] != b[i] {
            return false;
        }
        i += 1;
    }
    assert(a@ =~= b@);
    true
}

/// The character that writes the decimal digit `d`.
pub open spec fn digit_char(d: nat) -> char {
    if d == 0 {
        '0'
    } else if d == 1 {
        '1'
    } else if d == 2 {
        '2'
    } else if d == 3 {
        '3'
    } else if d == 4 {
        '4'
    } else if d == 5 {
        '5'
    } else if d == 6 {
        '6'
    } else if d == 7 {
        '7'
    } else if d == 8 {
        '8'
    } else {
        '9'
    }
}

/// The decimal numeral of `n`: no sign, no leading zero except for zero itself.
pub open spec fn decimal(n: nat) -> Seq<char>
    decreases n,
{
    if n < 10 {
        seq![digit_char(n)]
    } else {
        decimal(n / 10).push(digit_char(n % 10))
    }
}

fn digit_text(d: u128) -> (out: &'static str)
    requires
        d < 10,
    ensures
        out@ == seq![digit_char(d as nat)],
{
    proof {
        reveal_strlit("0");
        reveal_strlit("1");
        reveal_strlit("2");
        reveal_strlit("3");
        reveal_strlit("4");
        reveal_strlit("5");
        reveal_strlit("6");
        reveal_strlit("7");
        reveal_strlit("8");
        reveal_strlit("9");
    }
    let out = if d == 0 {
        "0"
    } else if d == 1 {
        "1"
    } else if d == 2 {
        "2"
    } else if d == 3 {
        "3"
    } else if d == 4 {
        "4"
    } else if d == 5 {
        "5"
    } else if d == 6 {
        "6"
    } else if d == 7 {
        "7"
    } else if d == 8 {
        "8"
    } else {
        "9"
    };
    assert(out@ =~= seq![digit_char(d as nat)]);
    out
}

/// Writes `n` as its decimal numeral.
pub fn decimal_text(n: u128) -> (out: String)
    ensures
        out@ == decimal(n as nat),
    decreases n,
{
    if n < 10 {
        String::from_str(digit_text(n))
    } else {
        let mut out = decimal_text(n / 10);
        out.append(digit_text(n % 10));
        assert(out@ =~= decimal(n as nat));
        out
    }
}

/// `a` and `b` agree on their first `k` characters and part there: `a`
/// ends, or its next character is the smaller one.
pub open spec fn parts_at(a: Seq<char>, b: Seq<char>, k: int) -> bool {
    &&& 0 <= k <= a.len()
    &&& k < b.len()
    &&& a.subrange(0, k) == b.subrange(0, k)
    &&& (k == a.len() || (a[k] as u32) < (b[k] as u32))
}

/// `a` comes before `b` in the order of texts: character by character
/// from the front, a proper prefix before what continues it.
pub open spec fn text_before(a: Seq<char>, b: Seq<char>) -> bool {
    exists|k: int| parts_at(a, b, k)
}

/// No text comes before itself.
pub proof fn lemma_text_before_irreflexive(a: Seq<char>)
    ensures
        !text_before(a, a),
{
}

/// Among numerals of one length, the smaller number comes first as text.
pub proof fn lemma_decimal_order(m: nat, n: nat)
    requires
        m < n,
        decimal(m).len() == decimal(n).len(),
    ensures
        text_before(decimal(m), decimal(n)),
    decreases n,
{
    let a = decimal(m);
    let b = decimal(n);
    if n < 10 {
        assert(a.subrange(0, 0) =~= b.subrange(0, 0));
        assert(parts_at(a, b, 0));
    } else {
        assert(m >= 10) by {
            if m < 10 {
                assert(a.len() == 1);
                assert(b.len() == decimal(n / 10).len() + 1);
                assert(decimal(n / 10).len() >= 1) by {
                    lemma_decimal_not_empty(n / 10);
                }
            }
        }
        let pa = decimal(m / 10);
        let pb = decimal(n / 10);
        assert(a == pa.push(digit_char(m % 10)));
        assert(b == pb.push(digit_char(n % 10)));
        assert(m / 10 <= n / 10);
        if m / 10 == n / 10 {
            let k = pa.len() as int;
            assert(a.subrange(0, k) =~= b.subrange(0, k));
            assert(m % 10 < n % 10);
            assert(parts_at(a, b, k));
        } else {
            lemma_decimal_order(m / 10, n / 10);
            let k = choose|k: int| parts_at(pa, pb, k);
            assert(a.subrange(0, k) =~= pa.subrange(0, k));
            assert(b.subrange(0, k) =~= pb.subrange(0, k));
            assert(parts_at(a, b, k));
        }
    }
}

/// A numeral has at least one digit.
pub proof fn lemma_decimal_not_empty(n: nat)
    ensures
        decimal(n).len() >= 1,
    decreases n,
{
    if n >= 10 {
        lemma_decimal_not_empty(n / 10);
    }
}

/// Different numbers have different numerals.
pub proof fn lemma_decimal_injective(m: nat, n: nat)
    requires
        decimal(m) == decimal(n),
    ensures
        m == n,
{
    lemma_text_before_irreflexive(decimal(m));
    if m < n {
        lemma_decimal_order(m, n);
    } else if n < m {
        lemma_decimal_order(n, m);
    }
}

/// Across lengths the order of texts is not the order of numbers: as
/// text, ten comes before nine.
pub proof fn lemma_ten_before_nine()
    ensures
        text_before(decimal(10), decimal(9)),
{
    reveal_with_fuel(decimal, 3);
    let a = decimal(10);
    let b = decimal(9);
    assert(a.subrange(0, 0) =~= b.subrange(0, 0));
    assert(parts_at(a, b, 0));
}

} // verus!
