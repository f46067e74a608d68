//! Plain-text helpers: decimal rendering of integers and splitting of
//! delimited text, both with exact character-level contracts.

use vstd::prelude::*;
use vstd::string::StringExecFns;

verus! {

/// The character for a single decimal digit.
pub open spec fn digit_char(n: nat) -> char {
    if n == 0 {
        '0'
    } else if n == 1 {
        '1'
    } else if n == 2 {
        '2'
    } else if n == 3 {
        '3'
    } else if n == 4 {
        '4'
    } else if n == 5 {
        '5'
    } else if n == 6 {
        '6'
    } else if n == 7 {
        '7'
    } else if n == 8 {
        '8'
    } else {
        '9'
    }
}

/// Decimal digits of `n`, most significant first, with no leading zeros.
pub open spec fn dec_rep(n: nat) -> Seq<char>
    decreases n,
{
    if n < 10 {
        seq![digit_char(n)]
    } else {
        dec_rep(n / 10) + seq![digit_char(n % 10)]
    }
}

fn digit_str(n: u64) -> (r: &'static str)
    requires
        n < 10,
    ensures
        r@ =~= seq![digit_char(n as nat)],
{
    proof {
        reveal_strlit("0");
        reveal_strlit("1");
        reveal_strlit("2");
        reveal_strlit("3");
        reveal_strlit("4");
        reveal_strlit("5");
        reveal_strlit("6");
        reveal_strlit("7");
        reveal_strlit("8");
        reveal_strlit("9");
    }
    if n == 0 {
        "0"
    } else if n == 1 {
        "1"
    } else if n == 2 {
        "2"
    } else if n == 3 {
        "3"
    } else if n == 4 {
        "4"
    } else if n == 5 {
        "5"
    } else if n == 6 {
        "6"
    } else if n == 7 {
        "7"
    } else if n == 8 {
        "8"
    } else {
        "9"
    }
}

/// Renders `n` in decimal.
pub fn dec_str(n: u64) -> (r: String)
    ensures
        r@ == dec_rep(n as nat),
    decreases n,
{
    if n < 10 {
        String::from_str(digit_str(n))
    } else {
        let mut s = dec_str(n / 10);
        s.append(digit_str(n % 10));
        proof {
            assert(s@ =~= dec_rep(n as nat));
        }
        s
    }
}

/// Whether `c` occurs in `s`.
pub open spec fn has_char(s: Seq<char>, c: char) -> bool {
    exists|i: int| 0 <= i < s.len() && s[i] == c
}

/// The segments of `s` between occurrences of `sep`; always at least one
/// segment, and empty text yields one empty segment.
pub open spec fn split_chars(s: Seq<char>, sep: char) -> Seq<Seq<char>>
    decreases s.len(),
{
    if s.len() == 0 {
        seq![Seq::<char>::empty()]
    } else if s[0] == sep {
        seq![Seq::<char>::empty()] + split_chars(s.drop_first(), sep)
    } else {
        let rest = split_chars(s.drop_first(), sep);
        seq![seq![s[0]] + rest[0]] + rest.drop_first()
    }
}

proof fn lemma_split_chars_len(s: Seq<char>, sep: char)
    ensures
        split_chars(s, sep).len() >= 1,
    decreases s.len(),
{
    if s.len() != 0 {
        lemma_split_chars_len(s.drop_first(), sep);
    }
}

/// Text without the separator splits into itself alone.
proof fn lemma_split_chars_whole(s: Seq<char>, sep: char)
    requires
        !has_char(s, sep),
    ensures
        split_chars(s, sep) =~~= seq![s],
    decreases s.len(),
{
    if s.len() == 0 {
        assert(split_chars(s, sep) =~~= seq![s]);
    } else {
        assert(s[0] != sep);
        assert(!has_char(s.drop_first(), sep)) by {
            assert(forall|i: int|
                0 <= i < s.drop_first().len() ==> #[trigger] s.drop_first()[i] == s[i + 1]);
        }
        lemma_split_chars_whole(s.drop_first(), sep);
        lemma_split_chars_len(s.drop_first(), sep);
        assert(split_chars(s, sep)[0] =~= s);
        assert(split_chars(s, sep) =~~= seq![s]);
    }
}

/// Splitting at the first separator: everything before it is the first
/// segment, and the rest splits independently.
proof fn lemma_split_chars_step(s: Seq<char>, sep: char, i: int)
    requires
        0 <= i < s.len(),
        s[i] == sep,
        !has_char(s.subrange(0, i), sep),
    ensures
        split_chars(s, sep) =~~= seq![s.subrange(0, i)] + split_chars(
            s.subrange(i + 1, s.len() as int),
            sep,
        ),
    decreases i,
{
    if i == 0 {
        assert(s.drop_first() =~= s.subrange(1, s.len() as int));
        assert(s.subrange(0, 0) =~= Seq::<char>::empty());
        assert(split_chars(s, sep) =~~= seq![s.subrange(0, 0)] + split_chars(
            s.subrange(1, s.len() as int),
            sep,
        ));
    } else {
        assert(s[0] != sep) by {
            assert(s.subrange(0, i)[0] == s[0]);
        }
        let d = s.drop_first();
        assert(!has_char(d.subrange(0, i - 1), sep)) by {
            assert(forall|j: int|
                0 <= j < i - 1 ==> #[trigger] d.subrange(0, i - 1)[j] == s.subrange(0, i)[j + 1]);
        }
        assert(d[i - 1] == sep);
        lemma_split_chars_step(d, sep, i - 1);
        lemma_split_chars_len(d.subrange(i, d.len() as int), sep);
        assert(d.subrange(0, i - 1) =~= s.subrange(1, i));
        assert(d.subrange(i, d.len() as int) =~= s.subrange(i + 1, s.len() as int));
        let rest = split_chars(d, sep);
        assert(rest[0] == s.subrange(1, i));
        assert(seq![s[0]] + s.subrange(1, i) =~= s.subrange(0, i));
        assert(rest.drop_first() =~~= split_chars(s.subrange(i + 1, s.len() as int), sep));
        assert(split_chars(s, sep) =~~= seq![s.subrange(0, i)] + split_chars(
            s.subrange(i + 1, s.len() as int),
            sep,
        ));
    }
}

/// Splits `s` into the segments between occurrences of `sep`.
pub fn split_on(s: &str, sep: char) -> (r: Vec<String>)
    ensures
        r.deep_view() =~~= split_chars(s@, sep),
{
    let n = s.unicode_len();
    let mut out: Vec<String> = Vec::new();
    let mut start: usize = 0;
    let mut i: usize = 0;
    proof {
        assert(s@.subrange(0, n as int) =~= s@);
        assert(out.deep_view() + split_chars(s@, sep) =~~= split_chars(s@, sep));
    }
    while i < n
        invariant
            n == s@.len(),
            0 <= start <= i <= n,
            !has_char(s@.subrange(start as int, i as int), sep),
            split_chars(s@, sep) =~~= out.deep_view() + split_chars(
                s@.subrange(start as int, n as int),
                sep,
            ),
        decreases n - i,
    {
        let c = s.get_char(i);
        if c == sep {
            let seg = String::from_str(s.substring_char(start, i));
            proof {
                let suffix = s@.subrange(start as int, n as int);
                assert(suffix[i - start] == sep);
                assert(suffix.subrange(0, i - start) =~= s@.subrange(start as int, i as int));
                lemma_split_chars_step(suffix, sep, i - start);
                assert(suffix.subrange(i - start + 1, suffix.len() as int) =~= s@.subrange(
                    i + 1,
                    n as int,
                ));
                let old_dv = out.deep_view();
                assert((out.deep_view().push(seg@)) =~~= old_dv + seq![seg@]);
            }
            let ghost old_out = out.deep_view();
            out.push(seg);
            proof {
                assert(out.deep_view() =~~= old_out.push(s@.subrange(start as int, i as int)));
                assert(split_chars(s@, sep) =~~= out.deep_view() + split_chars(
                    s@.subrange(i + 1 as int, n as int),
                    sep,
                ));
            }
            start = i + 1;
        } else {
            proof {
                assert(forall|j: int|
                    0 <= j < i + 1 - start ==> #[trigger] s@.subrange(start as int, i + 1 as int)[j] == s@[start + j]);
                assert(!has_char(s@.subrange(start as int, i + 1 as int), sep));
            }
        }
        i += 1;
    }
    let seg = String::from_str(s.substring_char(start, n));
    proof {
        lemma_split_chars_whole(s@.subrange(start as int, n as int), sep);
    }
    let ghost old_out = out.deep_view();
    out.push(seg);
    proof {
        assert(out.deep_view() =~~= old_out.push(s@.subrange(start as int, n as int)));
        assert(out.deep_view() =~~= split_chars(s@, sep));
    }
    out
}

/// Whether `needle` occurs contiguously inside `hay`.
pub open spec fn contains_seq(hay: Seq<char>, needle: Seq<char>) -> bool {
    exists|k: int|
        0 <= k && k + needle.len() <= hay.len() && #[trigger] hay.subrange(k, k + needle.len())
            == needle
}

/// A sequence assembled around `needle` contains it.
pub proof fn lemma_concat_contains(a: Seq<char>, needle: Seq<char>, b: Seq<char>)
    ensures
        contains_seq(a + needle + b, needle),
{
    let hay = a + needle + b;
    let k = a.len() as int;
    assert(hay.subrange(k, k + needle.len()) =~= needle);
}

} // verus!
