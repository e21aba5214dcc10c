//! Small verified text utilities the configuration parser is built from:
//! splitting into lines, trimming surrounding whitespace, and exact string
//! comparison.

use vstd::prelude::*;
use vstd::string::StrSliceExecFns;
use vstd::string::StringExecFns;

verus! {

/// Whitespace that may surround tokens on a configuration line.
pub open spec fn is_ws(c: char) -> bool {
    c == ' ' || c == '\t' || c == '\r'
}

/// The lines of a text: maximal runs of characters between newline
/// characters.  A text with no newline is one line; every newline ends a
/// line, so a trailing newline yields a final empty line.
pub open spec fn split_lines(s: Seq<char>) -> Seq<Seq<char>>
    decreases s.len(),
{
    if s.len() == 0 {
        seq![Seq::<char>::empty()]
    } else if s[0] == '\n' {
        seq![Seq::<char>::empty()] + split_lines(s.skip(1))
    } else {
        let rest = split_lines(s.skip(1));
        seq![seq![s[0]] + rest[0]] + rest.skip(1)
    }
}

/// A text without newlines is a single line.
pub proof fn lemma_split_lines_no_nl(s: Seq<char>)
    requires
        forall|j: int| 0 <= j < s.len() ==> (#[trigger] s[j]) != '\n',
    ensures
        split_lines(s) == seq![s],
    decreases s.len(),
{
    if s.len() == 0 {
        assert(s =~= Seq::<char>::empty());
    } else {
        lemma_split_lines_no_nl(s.skip(1));
        let rest = split_lines(s.skip(1));
        assert(rest == seq![s.skip(1)]);
        assert(seq![s[0]] + s.skip(1) =~= s);
        assert(rest.skip(1) =~= Seq::<Seq<char>>::empty());
        assert(split_lines(s) =~= seq![s]);
    }
}

/// If the first newline of `s` is at `k`, the lines of `s` are the first
/// `k` characters followed by the lines of the rest.
pub proof fn lemma_split_lines_at_nl(s: Seq<char>, k: int)
    requires
        0 <= k < s.len(),
        forall|j: int| 0 <= j < k ==> (#[trigger] s[j]) != '\n',
        s[k] == '\n',
    ensures
        split_lines(s) == seq![s.take(k)] + split_lines(s.skip(k + 1)),
    decreases k,
{
    if k == 0 {
        assert(s.take(0) =~= Seq::<char>::empty());
        assert(s.skip(1) =~= s.skip(k + 1));
    } else {
        lemma_split_lines_at_nl(s.skip(1), k - 1);
        let rest = split_lines(s.skip(1));
        assert(rest == seq![s.skip(1).take(k - 1)] + split_lines(s.skip(1).skip(k)));
        assert(rest[0] == s.skip(1).take(k - 1));
        assert(seq![s[0]] + s.skip(1).take(k - 1) =~= s.take(k));
        assert(s.skip(1).skip(k) =~= s.skip(k + 1));
        assert(rest.skip(1) =~= split_lines(s.skip(k + 1)));
        assert(split_lines(s) =~= seq![s.take(k)] + split_lines(s.skip(k + 1)));
    }
}

/// Split a text into its lines.
pub fn split_str_lines(s: &str) -> (r: Vec<String>)
    ensures
        r@.map_values(|l: String| l@) == split_lines(s@),
        r@.len() >= 1,
{
    let n = s.unicode_len();
    let mut out: Vec<String> = Vec::new();
    let mut start: usize = 0;
    let mut i: usize = 0;
    proof {
        assert(s@.skip(0) =~= s@);
        assert(out@.map_values(|l: String| l@) + split_lines(s@) =~= split_lines(s@));
    }
    while i < n
        invariant
            start <= i <= n,
            n == s@.len(),
            forall|j: int| start <= j < i ==> (#[trigger] s@[j]) != '\n',
            split_lines(s@) == out@.map_values(|l: String| l@) + split_lines(s@.skip(start as int)),
        decreases n - i,
    {
        if s.get_char(i) == '\n' {
            let ghost pre = out@;
            let line = s.substring_char(start, i);
            out.push(String::from_str(line));
            proof {
                let tail = s@.skip(start as int);
                assert forall|j: int| 0 <= j < i - start implies (#[trigger] tail[j]) != '\n' by {
                    assert(tail[j] == s@[start + j]);
                }
                assert(tail[i - start] == '\n');
                lemma_split_lines_at_nl(tail, i - start);
                assert(tail.take(i - start) =~= s@.subrange(start as int, i as int));
                assert(tail.skip(i - start + 1) =~= s@.skip(i as int + 1));
                assert(out@.map_values(|l: String| l@) =~= pre.map_values(|l: String| l@) + seq![
                    s@.subrange(start as int, i as int),
                ]);
                assert(split_lines(s@) =~= out@.map_values(|l: String| l@) + split_lines(
                    s@.skip(i as int + 1),
                ));
            }
            start = i + 1;
        }
        i += 1;
    }
    let ghost pre = out@;
    let line = s.substring_char(start, n);
    out.push(String::from_str(line));
    proof {
        let tail = s@.skip(start as int);
        assert forall|j: int| 0 <= j < tail.len() implies (#[trigger] tail[j]) != '\n' by {
            assert(tail[j] == s@[start + j]);
        }
        lemma_split_lines_no_nl(tail);
        assert(tail =~= s@.subrange(start as int, n as int));
        assert(out@.map_values(|l: String| l@) =~= pre.map_values(|l: String| l@) + seq![tail]);
        assert(split_lines(s@) =~= out@.map_values(|l: String| l@));
    }
    out
}

/// Drop leading whitespace.
pub open spec fn trim_front(s: Seq<char>) -> Seq<char>
    decreases s.len(),
{
    if s.len() > 0 && is_ws(s[0]) {
        trim_front(s.skip(1))
    } else {
        s
    }
}

/// Drop trailing whitespace.
pub open spec fn trim_back(s: Seq<char>) -> Seq<char>
    decreases s.len(),
{
    if s.len() > 0 && is_ws(s.last()) {
        trim_back(s.drop_last())
    } else {
        s
    }
}

/// A line with its surrounding whitespace dropped.
pub open spec fn trim_spec(s: Seq<char>) -> Seq<char> {
    trim_back(trim_front(s))
}

proof fn lemma_trim_front(s: Seq<char>, a: int)
    requires
        0 <= a <= s.len(),
        forall|j: int| 0 <= j < a ==> is_ws(#[trigger] s[j]),
        a == s.len() || !is_ws(s[a]),
    ensures
        trim_front(s) == s.skip(a),
    decreases a,
{
    if a == 0 {
        assert(s.skip(0) =~= s);
    } else {
        lemma_trim_front(s.skip(1), a - 1);
        assert(s.skip(1).skip(a - 1) =~= s.skip(a));
    }
}

proof fn lemma_trim_back(s: Seq<char>, b: int)
    requires
        0 <= b <= s.len(),
        forall|j: int| b <= j < s.len() ==> is_ws(#[trigger] s[j]),
        b == 0 || !is_ws(s[b - 1]),
    ensures
        trim_back(s) == s.take(b),
    decreases s.len() - b,
{
    if b == s.len() {
        if s.len() == 0 {
            assert(s.take(0) =~= s);
        } else {
            assert(s.take(b) =~= s);
        }
    } else {
        assert(is_ws(s.last()));
        lemma_trim_back(s.drop_last(), b);
        assert(s.drop_last().take(b) =~= s.take(b));
    }
}

/// Trim surrounding whitespace from a string.
pub fn trim_str<'a>(s: &'a str) -> (r: &'a str)
    ensures
        r@ == trim_spec(s@),
{
    let n = s.unicode_len();
    let mut a: usize = 0;
    while a < n && is_ws_exec(s.get_char(a))
        invariant
            a <= n,
            n == s@.len(),
            forall|j: int| 0 <= j < a ==> is_ws(#[trigger] s@[j]),
        decreases n - a,
    {
        a += 1;
    }
    proof {
        lemma_trim_front(s@, a as int);
    }
    if a == n {
        let r = s.substring_char(a, n);
        proof {
            assert(r@ =~= s@.skip(a as int));
            assert(trim_back(r@) == r@);
        }
        return r;
    }
    let mut b: usize = n;
    while b > a && is_ws_exec(s.get_char(b - 1))
        invariant
            a <= b <= n,
            n == s@.len(),
            forall|j: int| b <= j < n ==> is_ws(#[trigger] s@[j]),
            !is_ws(s@[a as int]),
        decreases b,
    {
        b -= 1;
    }
    let r = s.substring_char(a, b);
    proof {
        let f = s@.skip(a as int);
        assert forall|j: int| b - a <= j < f.len() implies is_ws(#[trigger] f[j]) by {
            assert(f[j] == s@[a + j]);
        }
        if b > a {
            assert(f[b - a - 1] == s@[b - 1]);
        } else {
            assert(f[0] == s@[a as int]);
            assert(!is_ws(f[0]));
            assert(b - a == 0);
        }
        lemma_trim_back(f, b - a);
        assert(r@ =~= f.take(b - a));
    }
    r
}

/// Is this character configuration-line whitespace?
pub fn is_ws_exec(c: char) -> (r: bool)
    ensures
        r == is_ws(c),
{
    c == ' ' || c == '\t' || c == '\r'
}

/// Exact equality of two strings, character by character.
pub fn str_eq(a: &str, b: &str) -> (r: bool)
    ensures
        r == (a@ == b@),
{
    let n = a.unicode_len();
    let m = b.unicode_len();
    if n != m {
        return false;
    }
    let mut i: usize = 0;
    while i < n
        invariant
            i <= n,
            n == a@.len(),
            n == b@.len(),
            forall|j: int| 0 <= j < i ==> (#[trigger] a@[j]) == b@[j],
        decreases n - i,
    {
        if a.get_char(i) != b.get_char(i) {
            return false;
        }
        i += 1;
    }
    proof {
        assert(a@ =~= b@);
    }
    true
}

} // verus!
