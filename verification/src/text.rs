//! Small executable helpers on strings and characters, with exact
//! specifications: character-level equality, decimal rendering of integers,
//! and splitting and joining around a separator character.

use vstd::prelude::*;
use vstd::string::StrSliceExecFns;
use vstd::string::StringExecFns;

verus! {

/// The decimal digit character for a value below ten.
pub open spec fn spec_digit(d: int) -> char {
    if d == 0 {
        '0'
    } else if d == 1 {
        '1'
    } else if d == 2 {
        '2'
    } else if d == 3 {
        '3'
    } else if d == 4 {
        '4'
    } else if d == 5 {
        '5'
    } else if d == 6 {
        '6'
    } else if d == 7 {
        '7'
    } else if d == 8 {
        '8'
    } else {
        '9'
    }
}

/// The decimal rendering of a non-negative integer, most significant digit
/// first, with no leading zeros (a lone `'0'` for zero).
pub open spec fn spec_decimal(n: int) -> Seq<char>
    decreases n,
{
    if n < 10 {
        seq![spec_digit(n)]
    } else {
        spec_decimal(n / 10).push(spec_digit(n % 10))
    }
}

fn digit_str(d: u32) -> (r: &'static str)
    requires
        d < 10,
    ensures
        r@ == seq![spec_digit(d as int)],
{
    proof {
        reveal_strlit("0");
        reveal_strlit("1");
        reveal_strlit("2");
        reveal_strlit("3");
        reveal_strlit("4");
        reveal_strlit("5");
        reveal_strlit("6");
        reveal_strlit("7");
        reveal_strlit("8");
        reveal_strlit("9");
    }
    let r: &'static str = if d == 0 {
        "0"
    } else if d == 1 {
        "1"
    } else if d == 2 {
        "2"
    } else if d == 3 {
        "3"
    } else if d == 4 {
        "4"
    } else if d == 5 {
        "5"
    } else if d == 6 {
        "6"
    } else if d == 7 {
        "7"
    } else if d == 8 {
        "8"
    } else {
        "9"
    };
    proof {
        assert(r@ =~= seq![spec_digit(d as int)]);
    }
    r
}

fn push_decimal(s: &mut String, n: u32)
    ensures
        final(s)@ == old(s)@ + spec_decimal(n as int),
    decreases n,
{
    if n < 10 {
        s.append(digit_str(n));
        proof {
            assert(s@ =~= old(s)@ + spec_decimal(n as int));
        }
    } else {
        push_decimal(s, n / 10);
        s.append(digit_str(n % 10));
        proof {
            assert(s@ =~= old(s)@ + spec_decimal(n as int));
        }
    }
}

/// Renders an unsigned integer in decimal, as `format!("{n}")` would.
pub fn u32_to_string(n: u32) -> (r: String)
    ensures
        r@ == spec_decimal(n as int),
{
    let mut s = String::new();
    push_decimal(&mut s, n);
    proof {
        assert(s@ =~= spec_decimal(n as int));
    }
    s
}

/// Appends one character to a string.
///
/// Relies on `String::push`: pushes the given `char` onto the end of the
/// string, changing nothing else.
#[verifier::external_body]
pub(crate) fn push_char(s: &mut String, c: char)
    ensures
        final(s)@ == old(s)@.push(c),
{
    s.push(c);
}

/// True when the character does not occur in the sequence.
pub open spec fn char_free(s: Seq<char>, c: char) -> bool {
    forall|i: int| 0 <= i < s.len() ==> s[i] != c
}

/// The tokens of a character sequence, split around a separator character,
/// as `str::split` yields them: an empty input gives one empty token, and a
/// separator at either end or two adjacent separators give empty tokens.
pub open spec fn spec_split(s: Seq<char>, c: char) -> Seq<Seq<char>>
    decreases s.len(),
{
    if s.len() == 0 {
        seq![Seq::<char>::empty()]
    } else if s[0] == c {
        seq![Seq::<char>::empty()] + spec_split(s.skip(1), c)
    } else {
        let rest = spec_split(s.skip(1), c);
        seq![seq![s[0]] + rest[0]] + rest.skip(1)
    }
}

/// The tokens joined back, one separator between adjacent tokens.
pub open spec fn spec_join(ts: Seq<Seq<char>>, c: char) -> Seq<char>
    decreases ts.len(),
{
    if ts.len() == 0 {
        Seq::empty()
    } else if ts.len() == 1 {
        ts[0]
    } else {
        ts[0] + seq![c] + spec_join(ts.skip(1), c)
    }
}

/// Splitting always yields at least one token.
pub proof fn lemma_split_len(s: Seq<char>, c: char)
    ensures
        spec_split(s, c).len() >= 1,
    decreases s.len(),
{
    if s.len() == 0 {
    } else if s[0] == c {
        lemma_split_len(s.skip(1), c);
    } else {
        lemma_split_len(s.skip(1), c);
    }
}

/// A sequence free of the separator is a single token.
pub proof fn lemma_split_whole(s: Seq<char>, c: char)
    requires
        char_free(s, c),
    ensures
        spec_split(s, c) =~~= seq![s],
    decreases s.len(),
{
    if s.len() == 0 {
        assert(spec_split(s, c) =~~= seq![s]);
    } else {
        assert(s[0] != c);
        assert(char_free(s.skip(1), c)) by {
            assert(forall|i: int| 0 <= i < s.skip(1).len() ==> s.skip(1)[i] == s[i + 1]);
        }
        lemma_split_whole(s.skip(1), c);
        let rest = spec_split(s.skip(1), c);
        assert(rest =~~= seq![s.skip(1)]);
        assert(seq![s[0]] + rest[0] =~= s);
        assert(spec_split(s, c) =~~= seq![s]);
    }
}

/// A separator-free prefix followed by a separator splits off as one token.
pub proof fn lemma_split_prefix(a: Seq<char>, tail: Seq<char>, c: char)
    requires
        char_free(a, c),
    ensures
        spec_split(a + seq![c] + tail, c) =~~= seq![a] + spec_split(tail, c),
    decreases a.len(),
{
    let s = a + seq![c] + tail;
    if a.len() == 0 {
        assert(s[0] == c);
        assert(s.skip(1) =~= tail);
        assert(spec_split(s, c) =~~= seq![Seq::<char>::empty()] + spec_split(tail, c));
        assert(seq![a] =~~= seq![Seq::<char>::empty()]);
        assert(spec_split(s, c) =~~= seq![a] + spec_split(tail, c));
    } else {
        assert(s[0] == a[0]);
        assert(a[0] != c);
        let a1 = a.skip(1);
        assert(char_free(a1, c)) by {
            assert(forall|i: int| 0 <= i < a1.len() ==> a1[i] == a[i + 1]);
        }
        lemma_split_prefix(a1, tail, c);
        assert(s.skip(1) =~= a1 + seq![c] + tail);
        let rest = spec_split(s.skip(1), c);
        assert(rest =~= seq![a1] + spec_split(tail, c));
        lemma_split_len(tail, c);
        assert(rest[0] == a1);
        assert(seq![s[0]] + rest[0] =~= a);
        assert(rest.skip(1) =~= spec_split(tail, c));
        assert(spec_split(s, c) =~= seq![a] + spec_split(tail, c));
    }
}

/// Joining the tokens of a split restores the sequence verbatim.
pub proof fn lemma_join_split(s: Seq<char>, c: char)
    ensures
        spec_join(spec_split(s, c), c) =~= s,
    decreases s.len(),
{
    if s.len() == 0 {
    } else if s[0] == c {
        lemma_join_split(s.skip(1), c);
        let rest = spec_split(s.skip(1), c);
        lemma_split_len(s.skip(1), c);
        let ts = seq![Seq::<char>::empty()] + rest;
        assert(ts.len() >= 2);
        assert(ts.skip(1) =~~= rest);
        assert(spec_join(ts, c) =~= Seq::<char>::empty() + seq![c] + spec_join(rest, c));
        assert(spec_join(ts, c) =~= s);
    } else {
        lemma_join_split(s.skip(1), c);
        let rest = spec_split(s.skip(1), c);
        lemma_split_len(s.skip(1), c);
        let head = seq![s[0]] + rest[0];
        let ts = seq![head] + rest.skip(1);
        if rest.len() == 1 {
            assert(ts.len() == 1);
            assert(spec_join(rest, c) == rest[0]);
            assert(rest[0] =~= s.skip(1));
            assert(spec_join(ts, c) == head);
            assert(head =~= s);
        } else {
            assert(ts.len() >= 2);
            assert(ts.skip(1) =~~= rest.skip(1));
            assert(spec_join(rest, c) =~= rest[0] + seq![c] + spec_join(rest.skip(1), c));
            assert(spec_join(ts, c) =~= head + seq![c] + spec_join(rest.skip(1), c));
            assert(s =~= seq![s[0]] + s.skip(1));
            assert(spec_join(ts, c) =~= s);
        }
    }
}

/// Splits a string around a separator character, as `str::split` does.
pub fn split_str(s: &str, c: char) -> (r: Vec<String>)
    ensures
        r.deep_view() =~~= spec_split(s@, c),
{
    let n = s.unicode_len();
    let mut toks: Vec<String> = Vec::new();
    let mut cur = String::new();
    let mut i: usize = 0;
    proof {
        assert(cur@ + s@.skip(0) =~= s@);
        assert(toks.deep_view() + spec_split(cur@ + s@.skip(0), c) =~~= spec_split(s@, c));
    }
    while i < n
        invariant
            n == s@.len(),
            i <= n,
            char_free(cur@, c),
            toks.deep_view() + spec_split(cur@ + s@.skip(i as int), c) =~~= spec_split(s@, c),
        decreases n - i,
    {
        let ch = s.get_char(i);
        proof {
            assert(s@.skip(i as int) =~= seq![s@[i as int]] + s@.skip(i as int + 1));
        }
        if ch == c {
            proof {
                lemma_split_prefix(cur@, s@.skip(i as int + 1), c);
                assert(cur@ + s@.skip(i as int) =~= cur@ + seq![c] + s@.skip(i as int + 1));
            }
            toks.push(cur);
            cur = String::new();
            proof {
                assert(toks.deep_view() + spec_split(cur@ + s@.skip(i as int + 1), c)
                    =~~= spec_split(s@, c));
            }
        } else {
            proof {
                assert((cur@ + s@.skip(i as int)) =~= (cur@.push(ch) + s@.skip(i as int + 1)));
            }
            push_char(&mut cur, ch);
        }
        i += 1;
    }
    proof {
        assert(cur@ + s@.skip(n as int) =~= cur@);
        lemma_split_whole(cur@, c);
    }
    toks.push(cur);
    toks
}

/// Appends the tokens from `start` on, joined with the separator, to `s`.
pub fn join_from(items: &Vec<String>, start: usize, c: char, s: &mut String)
    requires
        start <= items.len(),
    ensures
        final(s)@ == old(s)@ + spec_join(items.deep_view().skip(start as int), c),
    decreases items.len() - start,
{
    if start < items.len() {
        s.append(items[start].as_str());
        if start + 1 < items.len() {
            push_char(s, c);
            join_from(items, start + 1, c, s);
            proof {
                let ts = items.deep_view().skip(start as int);
                assert(ts.skip(1) =~= items.deep_view().skip(start as int + 1));
                assert(ts.len() >= 2);
                assert(s@ =~= old(s)@ + spec_join(ts, c));
            }
        } else {
            proof {
                let ts = items.deep_view().skip(start as int);
                assert(ts.len() == 1);
                assert(ts[0] == items[start as int]@);
                assert(s@ =~= old(s)@ + spec_join(ts, c));
            }
        }
    } else {
        proof {
            assert(items.deep_view().skip(start as int).len() == 0);
            assert(s@ =~= old(s)@ + spec_join(items.deep_view().skip(start as int), c));
        }
    }
}

/// Clones a vector of strings, element for element.
pub fn clone_string_vec(v: &Vec<String>) -> (r: Vec<String>)
    ensures
        r@ == v@,
{
    let mut r: Vec<String> = Vec::new();
    let mut i: usize = 0;
    while i < v.len()
        invariant
            i <= v.len(),
            r@.len() == i,
            forall|j: int| 0 <= j < i ==> r@[j] == v@[j],
        decreases v.len() - i,
    {
        r.push(v[i].clone());
        i += 1;
    }
    proof {
        assert(r@ =~= v@);
    }
    r
}

/// Clones a vector of string pairs, element for element.
pub fn clone_string_pairs(v: &Vec<(String, String)>) -> (r: Vec<(String, String)>)
    ensures
        r@ == v@,
{
    let mut r: Vec<(String, String)> = Vec::new();
    let mut i: usize = 0;
    while i < v.len()
        invariant
            i <= v.len(),
            r@.len() == i,
            forall|j: int| 0 <= j < i ==> r@[j] == v@[j],
        decreases v.len() - i,
    {
        r.push((v[i].0.clone(), v[i].1.clone()));
        i += 1;
    }
    proof {
        assert(r@ =~= v@);
    }
    r
}

/// Character-for-character string equality.
pub fn str_eq(a: &str, b: &str) -> (r: bool)
    ensures
        r == (a@ == b@),
{
    let alen = a.unicode_len();
    let blen = b.unicode_len();
    if alen != blen {
        return false;
    }
    let mut i: usize = 0;
    while i < alen
        invariant
            alen == a@.len(),
            alen == b@.len(),
            i <= alen,
            forall|j: int| 0 <= j < i ==> a@[j] == b@[j],
        decreases alen - i,
    {
        if a.get_char(i) != b.get_char(i) {
            return false;
        }
        i += 1;
    }
    proof {
        assert(a@ =~= b@);
    }
    true
}

} // verus!
