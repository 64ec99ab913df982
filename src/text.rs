//! Splitting an input line into whitespace-separated tokens.
use vstd::prelude::*;
use vstd::string::StrSliceExecFns;

verus! {

/// The ASCII whitespace characters: space, tab, line feed, form feed, carriage return.
pub open spec fn is_space(c: char) -> bool {
    c == ' ' || c == '\t' || c == '\n' || c == '\x0C' || c == '\r'
}

/// Length of the run of non-space characters at the front of `s`.
pub open spec fn word_len(s: Seq<char>) -> nat
    decreases s.len(),
{
    if s.len() == 0 || is_space(s[0]) {
        0
    } else {
        1 + word_len(s.drop_first())
    }
}

/// The maximal runs of non-space characters of `s`, in order.
pub open spec fn tokens(s: Seq<char>) -> Seq<Seq<char>>
    decreases s.len(),
    via tokens_decreases
{
    if s.len() == 0 {
        seq![]
    } else if is_space(s[0]) {
        tokens(s.drop_first())
    } else {
        let n = word_len(s);
        seq![s.take(n as int)] + tokens(s.skip(n as int))
    }
}

#[via_fn]
proof fn tokens_decreases(s: Seq<char>) {
    lemma_word_len_bounded(s);
}

proof fn lemma_word_len_bounded(s: Seq<char>)
    ensures
        word_len(s) <= s.len(),
        word_len(s) > 0 <==> (s.len() > 0 && !is_space(s[0])),
        word_len(s) < s.len() ==> is_space(s[word_len(s) as int]),
        forall|k: int| 0 <= k < word_len(s) ==> !is_space(#[trigger] s[k]),
    decreases s.len(),
{
    if s.len() > 0 && !is_space(s[0]) {
        lemma_word_len_bounded(s.drop_first());
        assert forall|k: int| 0 <= k < word_len(s) implies !is_space(#[trigger] s[k]) by {
            if k > 0 {
                assert(s[k] == s.drop_first()[k - 1]);
            }
        }
    }
}

/// A run of non-space characters followed by a space (or the end) is the word.
proof fn lemma_word_len_exact(s: Seq<char>, n: int)
    requires
        0 <= n <= s.len(),
        forall|k: int| 0 <= k < n ==> !is_space(#[trigger] s[k]),
        n == s.len() || is_space(s[n]),
    ensures
        word_len(s) == n,
    decreases n,
{
    if n > 0 {
        lemma_word_len_exact(s.drop_first(), n - 1);
    }
}

/// Finds the first token of `line` at or after character `from`, as the
/// character range `(start, end)`; `start == end` when there is none.
fn next_token(line: &str, len: usize, from: usize) -> (r: (usize, usize))
    requires
        len == line@.len(),
        from <= len,
    ensures
        from <= r.0 <= r.1 <= len,
        r.0 == r.1 ==> r.1 == len && tokens(line@.skip(from as int)) == Seq::<Seq<char>>::empty(),
        r.0 < r.1 ==> tokens(line@.skip(from as int)) == seq![line@.subrange(r.0 as int, r.1 as int)]
            + tokens(line@.skip(r.1 as int)),
{
    let ghost s = line@;
    let mut i: usize = from;
    while i < len && is_space_char(line.get_char(i))
        invariant
            len == s.len(),
            line@ == s,
            from <= i <= len,
            tokens(s.skip(from as int)) == tokens(s.skip(i as int)),
        decreases len - i,
    {
        proof {
            let t = s.skip(i as int);
            assert(t.drop_first() =~= s.skip(i + 1));
        }
        i = i + 1;
    }
    if i == len {
        proof {
            assert(s.skip(i as int).len() == 0);
        }
        return (i, i);
    }
    let start = i;
    while i < len && !is_space_char(line.get_char(i))
        invariant
            len == s.len(),
            line@ == s,
            start <= i <= len,
            start < len,
            !is_space(s[start as int]),
            forall|k: int| start <= k < i ==> !is_space(#[trigger] s[k]),
        decreases len - i,
    {
        i = i + 1;
    }
    proof {
        let t = s.skip(start as int);
        let n = i - start;
        assert forall|k: int| 0 <= k < n implies !is_space(#[trigger] t[k]) by {
            assert(t[k] == s[start + k]);
        }
        if i < len {
            assert(t[n] == s[i as int]);
        }
        lemma_word_len_exact(t, n);
        assert(t.take(n) =~= s.subrange(start as int, i as int));
        assert(t.skip(n) =~= s.skip(i as int));
    }
    (start, i)
}

/// Whether `c` is one of the ASCII whitespace characters.
pub fn is_space_char(c: char) -> (r: bool)
    ensures
        r == is_space(c),
{
    c == ' ' || c == '\t' || c == '\n' || c == '\x0C' || c == '\r'
}

/// Splits `line` into its whitespace-separated tokens.
pub fn tokenize(line: &str) -> (r: Vec<String>)
    ensures
        r@.len() == tokens(line@).len(),
        forall|k: int| 0 <= k < r@.len() ==> (#[trigger] r@[k])@ == tokens(line@)[k],
{
    let len = line.unicode_len();
    let mut out: Vec<String> = Vec::new();
    let mut pos: usize = 0;
    let mut done = false;
    proof {
        assert(line@.skip(0) =~= line@);
        assert(out@.map_values(|t: String| t@) + tokens(line@.skip(0)) =~= tokens(line@));
    }
    while !done
        invariant
            len == line@.len(),
            pos <= len,
            done ==> tokens(line@.skip(pos as int)) == Seq::<Seq<char>>::empty(),
            out@.map_values(|t: String| t@) + tokens(line@.skip(pos as int)) == tokens(line@),
        decreases len - pos + if done { 0int } else { 1int },
    {
        let (start, end) = next_token(line, len, pos);
        if start == end {
            done = true;
            pos = end;
        } else {
            let word = line.substring_char(start, end).to_owned();
            proof {
                let before = out@.map_values(|t: String| t@);
                assert(out@.push(word).map_values(|t: String| t@) =~= before.push(word@));
                assert(before.push(word@) + tokens(line@.skip(end as int)) =~= before
                    + (seq![line@.subrange(start as int, end as int)] + tokens(
                    line@.skip(end as int),
                )));
            }
            out.push(word);
            pos = end;
        }
    }
    proof {
        assert(out@.map_values(|t: String| t@) =~= tokens(line@));
        assert forall|k: int| 0 <= k < out@.len() implies (#[trigger] out@[k])@ == tokens(
            line@,
        )[k] by {
            assert(out@.map_values(|t: String| t@)[k] == out@[k]@);
        }
    }
    out
}

} // verus!
