//! Prompt-echo stripping: several generation engines echo the input
//! verbatim as a prefix of their output, so every backend removes the
//! literal prompt text from the raw output before returning it.
//!
//! The removal has plain substring-replacement semantics: scanning left
//! to right, every non-overlapping occurrence of the prompt is deleted.
//! It is a best-effort heuristic — it does not handle case differences,
//! partial overlaps or tokenization artifacts.
use vstd::prelude::*;
use vstd::string::{StrSliceExecFns, StringExecFns};

verus! {

/// Left-to-right removal of every non-overlapping occurrence of `p` in
/// `s`. An empty `p` removes nothing.
pub open spec fn strip_occurrences(s: Seq<char>, p: Seq<char>) -> Seq<char>
    decreases s.len(),
{
    if p.len() == 0 {
        s
    } else if s.len() < p.len() {
        s
    } else if s.subrange(0, p.len() as int) == p {
        strip_occurrences(s.skip(p.len() as int), p)
    } else {
        seq![s[0]] + strip_occurrences(s.skip(1), p)
    }
}

/// `p` is a literal prefix of `s`.
pub open spec fn has_prefix(s: Seq<char>, p: Seq<char>) -> bool {
    p.len() <= s.len() && s.subrange(0, p.len() as int) == p
}

/// `p` occurs somewhere in `s` as a contiguous subsequence.
pub open spec fn occurs_in(s: Seq<char>, p: Seq<char>) -> bool {
    exists|i: int|
        0 <= i && i + p.len() <= s.len() && #[trigger] s.subrange(i, i + p.len() as int) == p
}

/// Whether `p` stands at position `i` of `s`.
fn match_at(s: &str, p: &str, i: usize, n: usize, m: usize) -> (r: bool)
    requires
        n == s@.len(),
        m == p@.len(),
        i + m <= n,
    ensures
        r == (s@.subrange(i as int, i + p@.len()) == p@),
{
    let mut j: usize = 0;
    while j < m
        invariant
            n == s@.len(),
            m == p@.len(),
            i + m <= n,
            j <= m,
            forall|k: int| 0 <= k < j ==> s@[i + k] == p@[k],
        decreases m - j,
    {
        if s.get_char(i + j) != p.get_char(j) {
            proof {
                assert(s@.subrange(i as int, i + p@.len())[j as int] == s@[i + j]);
            }
            return false;
        }
        j += 1;
    }
    proof {
        assert(s@.subrange(i as int, i + p@.len()) =~= p@);
    }
    true
}

/// Removes every occurrence of `prompt` from `raw`, scanning left to
/// right without overlap — the post-processing every backend applies to
/// the raw engine output.
pub fn strip_prompt(raw: &str, prompt: &str) -> (r: String)
    ensures
        r@ == strip_occurrences(raw@, prompt@),
{
    let n = raw.unicode_len();
    let m = prompt.unicode_len();
    if m == 0 || m > n {
        return String::from_str(raw);
    }
    let mut out = String::new();
    let mut i: usize = 0;
    let mut seg: usize = 0;
    proof {
        assert(raw@.skip(0) =~= raw@);
        assert(Seq::<char>::empty() + raw@.subrange(0, 0) + strip_occurrences(raw@, prompt@)
            =~= strip_occurrences(raw@, prompt@));
    }
    while i <= n - m
        invariant
            n == raw@.len(),
            m == prompt@.len(),
            1 <= m <= n,
            seg <= i <= n,
            strip_occurrences(raw@, prompt@) == out@ + raw@.subrange(seg as int, i as int)
                + strip_occurrences(raw@.skip(i as int), prompt@),
        decreases n - i,
    {
        if match_at(raw, prompt, i, n, m) {
            let piece = raw.substring_char(seg, i);
            out.append(piece);
            proof {
                let ghost si = raw@.skip(i as int);
                assert(si.subrange(0, m as int) =~= raw@.subrange(i as int, i + m));
                assert(si.skip(m as int) =~= raw@.skip(i + m));
                assert(strip_occurrences(si, prompt@) == strip_occurrences(
                    raw@.skip(i + m),
                    prompt@,
                ));
                assert(raw@.subrange(i + m, i + m) =~= Seq::<char>::empty());
                assert(out@ + raw@.subrange(i + m, i + m) =~= out@);
            }
            i = i + m;
            seg = i;
        } else {
            proof {
                let ghost si = raw@.skip(i as int);
                assert(si.subrange(0, m as int) =~= raw@.subrange(i as int, i + m));
                assert(si[0] == raw@[i as int]);
                assert(si.skip(1) =~= raw@.skip(i + 1));
                assert(strip_occurrences(si, prompt@) == seq![raw@[i as int]]
                    + strip_occurrences(raw@.skip(i + 1), prompt@));
                assert(raw@.subrange(seg as int, i as int) + seq![raw@[i as int]] =~= raw@.subrange(
                    seg as int,
                    i + 1,
                ));
            }
            i = i + 1;
        }
    }
    let tail = raw.substring_char(seg, n);
    out.append(tail);
    proof {
        assert(raw@.skip(i as int).len() < m);
        assert(strip_occurrences(raw@.skip(i as int), prompt@) == raw@.skip(i as int));
        assert(raw@.subrange(seg as int, i as int) + raw@.skip(i as int) =~= raw@.subrange(
            seg as int,
            n as int,
        ));
    }
    out
}

/// When the raw output begins with the prompt, stripping discards that
/// leading echo and continues on the remainder.
pub proof fn lemma_leading_echo_removed(s: Seq<char>, p: Seq<char>)
    requires
        p.len() > 0,
        has_prefix(s, p),
    ensures
        strip_occurrences(s, p) == strip_occurrences(s.skip(p.len() as int), p),
{
}

/// A prompt that occurs nowhere in the raw output leaves it untouched.
pub proof fn lemma_strip_absent_prompt(s: Seq<char>, p: Seq<char>)
    requires
        p.len() > 0,
        !occurs_in(s, p),
    ensures
        strip_occurrences(s, p) == s,
    decreases s.len(),
{
    if s.len() < p.len() {
    } else {
        assert(s.subrange(0, p.len() as int) != p) by {
            if s.subrange(0, p.len() as int) == p {
                assert(s.subrange(0, 0 + p.len() as int) == p);
                assert(occurs_in(s, p));
            }
        }
        assert(!occurs_in(s.skip(1), p)) by {
            if occurs_in(s.skip(1), p) {
                let i = choose|i: int|
                    0 <= i && i + p.len() <= s.skip(1).len() && #[trigger] s.skip(1).subrange(
                        i,
                        i + p.len() as int,
                    ) == p;
                assert(s.subrange(i + 1, (i + 1) + p.len() as int) =~= s.skip(1).subrange(
                    i,
                    i + p.len() as int,
                ));
                assert(occurs_in(s, p));
            }
        }
        lemma_strip_absent_prompt(s.skip(1), p);
        assert(seq![s[0]] + s.skip(1) =~= s);
    }
}

/// Prompt-echo law: if the raw engine output begins with the prompt
/// verbatim, and the prompt does not occur again in the remainder, then
/// stripping returns exactly that remainder — in particular, the returned
/// text does not contain the prompt as a literal prefix.
pub proof fn lemma_prompt_echo_stripped(s: Seq<char>, p: Seq<char>)
    requires
        p.len() > 0,
        has_prefix(s, p),
        !occurs_in(s.skip(p.len() as int), p),
    ensures
        strip_occurrences(s, p) == s.skip(p.len() as int),
        !has_prefix(strip_occurrences(s, p), p),
{
    lemma_leading_echo_removed(s, p);
    lemma_strip_absent_prompt(s.skip(p.len() as int), p);
    let rest = s.skip(p.len() as int);
    if has_prefix(rest, p) {
        assert(rest.subrange(0, 0 + p.len() as int) == p);
        assert(occurs_in(rest, p));
    }
}

} // verus!
