//! Text as sequences of characters: optional strings, keyed tables, white
//! space and trimming.

use vstd::prelude::*;
use vstd::string::*;

verus! {

/// The characters of an optional string.
pub open spec fn opt_text(s: Option<String>) -> Option<Seq<char>> {
    match s {
        Some(t) => Some(t@),
        None => None,
    }
}

/// Whether no key occurs twice among the entries of a table.
pub open spec fn distinct_keys<V>(entries: Seq<(Seq<char>, V)>) -> bool {
    forall|i: int, j: int|
        0 <= i < j < entries.len() ==> (#[trigger] entries[i]).0 != (#[trigger] entries[j]).0
}

/// The characters with the Unicode binary attribute `White_Space`.
pub open spec fn whitespace(c: char) -> bool {
    let n = c as u32;
    ||| 0x09 <= n <= 0x0D
    ||| n == 0x20
    ||| n == 0x85
    ||| n == 0xA0
    ||| n == 0x1680
    ||| 0x2000 <= n <= 0x200A
    ||| n == 0x2028
    ||| n == 0x2029
    ||| n == 0x202F
    ||| n == 0x205F
    ||| n == 0x3000
}

/// `s` without its leading white space.
pub open spec fn trim_start(s: Seq<char>) -> Seq<char>
    decreases s.len(),
{
    if s.len() > 0 && whitespace(s[0]) {
        trim_start(s.drop_first())
    } else {
        s
    }
}

/// `s` without its trailing white space.
pub open spec fn trim_end(s: Seq<char>) -> Seq<char>
    decreases s.len(),
{
    if s.len() > 0 && whitespace(s.last()) {
        trim_end(s.drop_last())
    } else {
        s
    }
}

/// `s` without its leading and trailing white space.
pub open spec fn trimmed(s: Seq<char>) -> Seq<char> {
    trim_end(trim_start(s))
}

/// Trimming on the left drops a run of white space from the front, and all
/// of it: what is left starts with another character, or is empty.
pub proof fn lemma_trim_start_shape(s: Seq<char>)
    ensures
        trim_start(s).len() <= s.len(),
        trim_start(s) == s.subrange(s.len() - trim_start(s).len(), s.len() as int),
        forall|i: int| 0 <= i < s.len() - trim_start(s).len() ==> whitespace(#[trigger] s[i]),
        trim_start(s).len() > 0 ==> !whitespace(trim_start(s)[0]),
    decreases s.len(),
{
    if s.len() > 0 && whitespace(s[0]) {
        let rest = s.drop_first();
        lemma_trim_start_shape(rest);
        let kept = trim_start(rest);
        assert(rest.subrange(rest.len() - kept.len(), rest.len() as int) =~= s.subrange(
            s.len() - kept.len(),
            s.len() as int,
        ));
        assert forall|i: int| 0 <= i < s.len() - kept.len() implies whitespace(
            #[trigger] s[i],
        ) by {
            if i > 0 {
                assert(s[i] == rest[i - 1]);
            }
        }
    } else {
        assert(s.subrange(0, s.len() as int) =~= s);
    }
}

/// Trimming on the right drops a run of white space from the back, and all
/// of it: what is left ends with another character, or is empty.
pub proof fn lemma_trim_end_shape(s: Seq<char>)
    ensures
        trim_end(s).len() <= s.len(),
        trim_end(s) == s.subrange(0, trim_end(s).len() as int),
        forall|i: int| trim_end(s).len() <= i < s.len() ==> whitespace(#[trigger] s[i]),
        trim_end(s).len() > 0 ==> !whitespace(trim_end(s).last()),
    decreases s.len(),
{
    if s.len() > 0 && whitespace(s.last()) {
        let rest = s.drop_last();
        lemma_trim_end_shape(rest);
        let kept = trim_end(rest);
        assert(rest.subrange(0, kept.len() as int) =~= s.subrange(0, kept.len() as int));
        assert forall|i: int| kept.len() <= i < s.len() implies whitespace(#[trigger] s[i]) by {
            if i < s.len() - 1 {
                assert(s[i] == rest[i]);
            }
        }
    } else {
        assert(s.subrange(0, s.len() as int) =~= s);
    }
}

/// What trimming leaves is the stretch of `s` between two runs of white
/// space, and it neither starts nor ends with white space.
pub proof fn lemma_trimmed_shape(s: Seq<char>)
    ensures
        exists|from: int, to: int|
            {
                &&& 0 <= from <= to <= s.len()
                &&& #[trigger] s.subrange(from, to) == trimmed(s)
                &&& forall|i: int| 0 <= i < from ==> whitespace(#[trigger] s[i])
                &&& forall|i: int| to <= i < s.len() ==> whitespace(#[trigger] s[i])
            },
        trimmed(s).len() > 0 ==> !whitespace(trimmed(s)[0]) && !whitespace(trimmed(s).last()),
{
    let left = trim_start(s);
    lemma_trim_start_shape(s);
    lemma_trim_end_shape(left);
    let from = s.len() - left.len();
    let to = from + trimmed(s).len();
    assert(s.subrange(from, to) =~= trimmed(s));
    assert forall|i: int| to <= i < s.len() implies whitespace(#[trigger] s[i]) by {
        assert(s[i] == left[i - from]);
    }
    if trimmed(s).len() > 0 {
        assert(trimmed(s)[0] == left[0]);
    }
}

/// Whether `c` is white space.
pub fn is_whitespace(c: char) -> (yes: bool)
    ensures
        yes == whitespace(c),
{
    let n: u32 = c as u32;
    (0x09 <= n && n <= 0x0D) || n == 0x20 || n == 0x85 || n == 0xA0 || n == 0x1680 || (0x2000 <= n
        && n <= 0x200A) || n == 0x2028 || n == 0x2029 || n == 0x202F || n == 0x205F || n == 0x3000
}

/// The part of `s` between its leading and its trailing white space.
pub fn trim(s: &str) -> (inner: &str)
    ensures
        inner@ == trimmed(s@),
{
    let n: usize = s.unicode_len();
    let mut start: usize = 0;
    assert(s@.subrange(0, n as int) =~= s@);
    while start < n && is_whitespace(s.get_char(start))
        invariant
            start <= n,
            n == s@.len(),
            trim_start(s@) == trim_start(s@.subrange(start as int, n as int)),
        decreases n - start,
    {
        proof {
            let rest = s@.subrange(start as int, n as int);
            assert(rest.drop_first() =~= s@.subrange(start as int + 1, n as int));
        }
        start = start + 1;
    }
    let mut end: usize = n;
    while end > start && is_whitespace(s.get_char(end - 1))
        invariant
            start <= end <= n,
            n == s@.len(),
            trimmed(s@) == trim_end(s@.subrange(start as int, end as int)),
        decreases end,
    {
        proof {
            let rest = s@.subrange(start as int, end as int);
            assert(rest.drop_last() =~= s@.subrange(start as int, end as int - 1));
        }
        end = end - 1;
    }
    s.substring_char(start, end)
}

} // verus!
