//! Text helpers: comparison, decimal rendering, trimming and the small
//! scanners that the rest of the crate builds labels and command lines with.
//!
//! Every string is modelled by its view, a `Seq<char>`.

use vstd::prelude::*;
use vstd::std_specs::iter::IteratorSpec;
use vstd::string::*;

verus! {

/// The views of a sequence of strings, in order.
pub open spec fn texts(v: Seq<String>) -> Seq<Seq<char>> {
    v.map_values(|s: String| s@)
}

/// The view of an optional string.
pub open spec fn opt_text(o: Option<String>) -> Option<Seq<char>> {
    match o {
        Some(s) => Some(s@),
        None => None,
    }
}

/// `String::push`: the character is appended at the end and nothing else
/// changes.
#[verifier::external_body]
pub(crate) fn push_char(s: &mut String, c: char)
    ensures
        final(s)@ == old(s)@.push(c),
{
    s.push(c);
}

/// Whether two string slices hold the same characters.
pub fn same_text(a: &str, b: &str) -> (r: bool)
    ensures
        r == (a@ == b@),
{
    let mut x = a.chars();
    let mut y = b.chars();
    let ghost mut n: int = 0;
    loop
        invariant
            0 <= n <= a@.len(),
            n <= b@.len(),
            a@.take(n) == b@.take(n),
            x.remaining() == a@.skip(n),
            y.remaining() == b@.skip(n),
            x.obeys_prophetic_iter_laws(),
            y.obeys_prophetic_iter_laws(),
        decreases a@.len() - n,
    {
        let p = x.next();
        let q = y.next();
        match (p, q) {
            (None, None) => {
                proof {
                    assert(a@.take(n) == a@);
                    assert(b@.take(n) == b@);
                }
                return true;
            },
            (Some(c), Some(d)) => {
                if c != d {
                    return false;
                }
                proof {
                    assert(a@.take(n + 1) == a@.take(n).push(a@[n]));
                    assert(b@.take(n + 1) == b@.take(n).push(b@[n]));
                    assert(a@.skip(n).drop_first() == a@.skip(n + 1));
                    assert(b@.skip(n).drop_first() == b@.skip(n + 1));
                    n = n + 1;
                }
            },
            _ => {
                return false;
            },
        }
    }
}

/// Whether `c` occurs in `s`.
pub fn has_char(s: &str, c: char) -> (r: bool)
    ensures
        r == s@.contains(c),
{
    for ch in it: s.chars()
        invariant
            it.seq() == s@,
            !s@.take(it.index() as int).contains(c),
    {
        if ch == c {
            assert(s@[it.index() as int] == c);
            return true;
        }
        proof {
            let i = it.index() as int;
            assert(s@.take(i + 1) == s@.take(i).push(s@[i]));
        }
    }
    proof {
        assert(s@.take(s@.len() as int) == s@);
    }
    false
}

/// The decimal digit for a value below ten.
pub open spec fn digit_char(d: nat) -> char {
    if d == 0 {
        '0'
    } else if d == 1 {
        '1'
    } else if d == 2 {
        '2'
    } else if d == 3 {
        '3'
    } else if d == 4 {
        '4'
    } else if d == 5 {
        '5'
    } else if d == 6 {
        '6'
    } else if d == 7 {
        '7'
    } else if d == 8 {
        '8'
    } else {
        '9'
    }
}

/// The decimal numeral of a natural number, without leading zeros.
pub open spec fn decimal(n: nat) -> Seq<char>
    decreases n,
{
    if n < 10 {
        seq![digit_char(n)]
    } else {
        decimal(n / 10).push(digit_char(n % 10))
    }
}

/// The decimal numeral of an integer, with a leading `-` below zero.
pub open spec fn signed_decimal(i: int) -> Seq<char> {
    if i < 0 {
        seq!['-'] + decimal((-i) as nat)
    } else {
        decimal(i as nat)
    }
}

fn digit_of(d: u64) -> (c: char)
    requires
        d < 10,
    ensures
        c == digit_char(d as nat),
{
    if d == 0 {
        '0'
    } else if d == 1 {
        '1'
    } else if d == 2 {
        '2'
    } else if d == 3 {
        '3'
    } else if d == 4 {
        '4'
    } else if d == 5 {
        '5'
    } else if d == 6 {
        '6'
    } else if d == 7 {
        '7'
    } else if d == 8 {
        '8'
    } else {
        '9'
    }
}

/// Appends the decimal numeral of `n` to `out`.
pub fn push_decimal(out: &mut String, n: u64)
    ensures
        final(out)@ == old(out)@ + decimal(n as nat),
    decreases n,
{
    if n >= 10 {
        push_decimal(out, n / 10);
    }
    push_char(out, digit_of(n % 10));
}

/// The decimal numeral of `n`.
pub fn u64_text(n: u64) -> (r: String)
    ensures
        r@ == decimal(n as nat),
{
    let mut out = String::new();
    push_decimal(&mut out, n);
    out
}

/// Appends the decimal numeral of `i`, signed, to `out`.
pub fn push_signed(out: &mut String, i: i64)
    ensures
        final(out)@ == old(out)@ + signed_decimal(i as int),
{
    if i < 0 {
        push_char(out, '-');
        let below: i64 = -(i + 1);
        let magnitude: u64 = below as u64 + 1;
        push_decimal(out, magnitude);
        assert(old(out)@.push('-') + decimal(magnitude as nat) == old(out)@ + (seq!['-'] + decimal(
            magnitude as nat,
        )));
    } else {
        push_decimal(out, i as u64);
    }
}

/// The decimal numeral of `i`, signed.
pub fn i64_text(i: i64) -> (r: String)
    ensures
        r@ == signed_decimal(i as int),
{
    let mut out = String::new();
    push_signed(&mut out, i);
    out
}

/// Whether a character has the Unicode property `White_Space`.
pub uninterp spec fn white_space(c: char) -> bool;

/// `s` without its leading white space.
pub open spec fn trim_start(s: Seq<char>) -> Seq<char>
    decreases s.len(),
{
    if s.len() > 0 && white_space(s[0]) {
        trim_start(s.drop_first())
    } else {
        s
    }
}

/// `s` without its trailing white space.
pub open spec fn trim_end(s: Seq<char>) -> Seq<char>
    decreases s.len(),
{
    if s.len() > 0 && white_space(s.last()) {
        trim_end(s.drop_last())
    } else {
        s
    }
}

/// `s` without leading and trailing white space.
pub open spec fn trimmed(s: Seq<char>) -> Seq<char> {
    trim_end(trim_start(s))
}

/// `str::trim`: the slice without its leading and trailing white space,
/// where white space is the Unicode property `White_Space`. What is left
/// neither starts nor ends with such a character.
#[verifier::external_body]
pub(crate) fn trim(s: &str) -> (r: &str)
    ensures
        r@ == trimmed(s@),
        r@.len() > 0 ==> !white_space(r@[0]) && !white_space(r@.last()),
{
    s.trim()
}

/// `s` without the run of `c` at its end.
pub open spec fn strip_trailing(s: Seq<char>, c: char) -> Seq<char>
    decreases s.len(),
{
    if s.len() > 0 && s.last() == c {
        strip_trailing(s.drop_last(), c)
    } else {
        s
    }
}

proof fn lemma_strip_trailing(s: Seq<char>, c: char, keep: int)
    requires
        0 <= keep <= s.len(),
        forall|k: int| keep <= k < s.len() ==> s[k] == c,
        keep > 0 ==> s[keep - 1] != c,
    ensures
        strip_trailing(s, c) == s.take(keep),
    decreases s.len() - keep,
{
    if keep == s.len() {
        assert(s.take(keep) == s);
    } else {
        let t = s.drop_last();
        lemma_strip_trailing(t, c, keep);
        assert(t.take(keep) == s.take(keep));
    }
}

/// `s` without the run of `c` at its end, as `str::trim_end_matches` gives
/// it for a single character.
pub fn trim_end_char(s: &str, c: char) -> (r: &str)
    ensures
        r@ == strip_trailing(s@, c),
{
    let total: usize = s.unicode_len();
    let mut keep: usize = 0;
    let mut at: usize = 0;
    for ch in it: s.chars()
        invariant
            it.seq() == s@,
            s@.len() == total,
            at == it.index(),
            keep <= at,
            forall|k: int| keep <= k < at ==> s@[k] == c,
            keep > 0 ==> s@[keep - 1] != c,
    {
        at = at + 1;
        if ch != c {
            keep = at;
        }
    }
    proof {
        lemma_strip_trailing(s@, c, keep as int);
    }
    s.substring_char(0, keep)
}

/// The part of a choice label before its first ` [`, or all of it where
/// there is none.
pub open spec fn label_name(s: Seq<char>) -> Seq<char>
    decreases s.len(),
{
    if s.len() < 2 {
        s
    } else if s[0] == ' ' && s[1] == '[' {
        Seq::empty()
    } else {
        seq![s[0]] + label_name(s.drop_first())
    }
}

/// Whether ` [` stands at position `k` of `s`.
pub open spec fn bracket_at(s: Seq<char>, k: int) -> bool {
    0 <= k && k + 1 < s.len() && s[k] == ' ' && s[k + 1] == '['
}

proof fn lemma_label_name(s: Seq<char>, i: int)
    requires
        0 <= i <= s.len(),
        forall|k: int| 0 <= k < i ==> !#[trigger] bracket_at(s, k),
    ensures
        label_name(s) == s.take(i) + label_name(s.skip(i)),
    decreases i,
{
    if i == 0 {
        assert(s.skip(0) == s);
        assert(s.take(0) + label_name(s) == label_name(s));
    } else {
        lemma_label_name(s, i - 1);
        let t = s.skip(i - 1);
        assert(!bracket_at(s, i - 1));
        assert(t.drop_first() == s.skip(i));
        assert(t[0] == s[i - 1]);
        if t.len() >= 2 {
            assert(t[1] == s[i]);
        } else {
            assert(s.skip(i).len() == 0);
            assert(label_name(t) == seq![t[0]] + label_name(s.skip(i)));
        }
        assert(s.take(i) == s.take(i - 1) + seq![s[i - 1]]);
        assert(s.take(i - 1) + (seq![s[i - 1]] + label_name(s.skip(i))) == s.take(i - 1) + seq![
            s[i - 1],
        ] + label_name(s.skip(i)));
    }
}

/// The name that a choice label starts with: what stands before its first
/// ` [`, as `str::split_once` would cut it, or the whole label.
pub fn label_prefix(label: &str) -> (r: &str)
    ensures
        r@ == label_name(label@),
{
    let total: usize = label.unicode_len();
    let mut at: usize = 0;
    let mut after_space = false;
    for ch in it: label.chars()
        invariant
            it.seq() == label@,
            label@.len() == total,
            at == it.index(),
            after_space == (at > 0 && label@[at - 1] == ' '),
            forall|k: int| 0 <= k && k + 1 < at ==> !#[trigger] bracket_at(label@, k),
    {
        if after_space && ch == '[' {
            proof {
                let cut = at - 1;
                lemma_label_name(label@, cut);
                let t = label@.skip(cut);
                assert(label@[at as int] == '[');
                assert(t[0] == ' ' && t[1] == '[');
                assert(label@.take(cut) + Seq::<char>::empty() == label@.take(cut));
                assert(label@.subrange(0, cut) == label@.take(cut));
            }
            return label.substring_char(0, at - 1);
        }
        after_space = ch == ' ';
        at = at + 1;
    }
    proof {
        let n = label@.len() as int;
        if n > 0 {
            lemma_label_name(label@, n - 1);
            assert(label@.skip(n - 1).len() == 1);
            assert(label@.take(n - 1) + label@.skip(n - 1) == label@);
        }
    }
    label
}

} // verus!
