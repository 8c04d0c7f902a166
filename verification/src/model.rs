//! The summarizer: a heuristic text condenser over sentence boundaries.

use vstd::prelude::*;
use crate::text::{chars_of, spec_trim, str_trim, string_from_chars};

verus! {

/// The characters a sentence ends on.
pub open spec fn spec_is_sentence_end(c: char) -> bool {
    c == '.' || c == '!' || c == '?'
}

/// The length of the first sentence of `s`: the characters before its first
/// sentence-end character, all of `s` when it has none.
pub open spec fn spec_first_sentence_len(s: Seq<char>) -> nat
    decreases s.len(),
{
    if s.len() == 0 {
        0
    } else if spec_is_sentence_end(s[0]) {
        0
    } else {
        1 + spec_first_sentence_len(s.skip(1))
    }
}

/// The sentences of `s`: the segments between sentence-end characters,
/// empty segments included, one segment at least.
pub open spec fn spec_sentences(s: Seq<char>) -> Seq<Seq<char>>
    decreases s.len(),
{
    let n = spec_first_sentence_len(s);
    if n >= s.len() {
        seq![s]
    } else {
        seq![s.take(n as int)] + spec_sentences(s.skip(n as int + 1))
    }
}

/// A segment with no sentence-end character before position `j`, and one at
/// `j` or its end there, has first-sentence length exactly `j`.
proof fn lemma_first_sentence_len(s: Seq<char>, j: int)
    requires
        0 <= j <= s.len(),
        forall|k: int| 0 <= k < j ==> !spec_is_sentence_end(s[k]),
        j == s.len() || spec_is_sentence_end(s[j]),
    ensures
        spec_first_sentence_len(s) == j,
    decreases j,
{
    if j == 0 {
    } else {
        assert(!spec_is_sentence_end(s[0]));
        assert forall|k: int| 0 <= k < j - 1 implies !spec_is_sentence_end(s.skip(1)[k]) by {
            assert(s.skip(1)[k] == s[k + 1]);
        }
        if j < s.len() {
            assert(s.skip(1)[j - 1] == s[j as int]);
        }
        lemma_first_sentence_len(s.skip(1), j - 1);
    }
}

/// The prefix a summary keeps of a short text: its first 100 characters.
pub open spec fn spec_head_of(t: Seq<char>) -> Seq<char> {
    if t.len() <= 100 {
        t
    } else {
        t.take(100)
    }
}

/// The summary of a text: its first and last sentences, trimmed, when it
/// has more than three segments; its first 100 characters otherwise; under
/// the fixed marker either way.
pub open spec fn spec_summary(t: Seq<char>) -> Seq<char> {
    let parts = spec_sentences(t);
    if parts.len() > 3 {
        "[AI-Verified] "@ + spec_trim(parts[0]) + "... "@ + spec_trim(parts.last())
    } else {
        "[AI-Verified] "@ + spec_head_of(t)
    }
}

/// The summarizer.  It holds no state: summaries are derived from the text
/// alone.
pub struct Summarizer {}

impl Summarizer {
    /// Builds a summarizer.
    pub fn new() -> Summarizer {
        Summarizer {  }
    }

    /// Condenses a text, as `spec_summary`.
    pub fn summarize(&self, text: &str) -> (r: String)
        ensures
            r@ == spec_summary(text@),
    {
        let cs = chars_of(text);
        let clen = cs.len();
        let mut parts: Vec<String> = Vec::new();
        let mut seg_start: usize = 0;
        let mut i: usize = 0;
        proof {
            assert(text@.skip(0) =~= text@);
        }
        while i < cs.len()
            invariant
                cs@ == text@,
                clen == cs@.len(),
                seg_start <= i <= cs@.len(),
                forall|k: int| seg_start <= k < i ==> !spec_is_sentence_end(cs@[k]),
                spec_sentences(text@) == parts@.map_values(|p: String| p@) + spec_sentences(
                    text@.skip(seg_start as int),
                ),
            decreases cs@.len() - i,
        {
            let c = cs[i];
            if c == '.' || c == '!' || c == '?' {
                let mut seg: Vec<char> = Vec::new();
                let mut k: usize = seg_start;
                while k < i
                    invariant
                        cs@ == text@,
                        seg_start <= k <= i <= cs@.len(),
                        seg@ == cs@.subrange(seg_start as int, k as int),
                    decreases i - k,
                {
                    proof {
                        assert(cs@.subrange(seg_start as int, k + 1) =~= cs@.subrange(
                            seg_start as int,
                            k as int,
                        ).push(cs@[k as int]));
                    }
                    seg.push(cs[k]);
                    k = k + 1;
                }
                proof {
                    let rest = text@.skip(seg_start as int);
                    assert forall|k2: int| 0 <= k2 < i - seg_start implies !spec_is_sentence_end(
                        rest[k2],
                    ) by {
                        assert(rest[k2] == text@[seg_start + k2]);
                    }
                    assert(rest[i - seg_start] == text@[i as int]);
                    lemma_first_sentence_len(rest, i - seg_start);
                    assert(rest.take(i - seg_start) =~= text@.subrange(
                        seg_start as int,
                        i as int,
                    ));
                    assert(rest.skip(i - seg_start + 1) =~= text@.skip(i + 1));
                    assert(spec_sentences(rest) == seq![
                        text@.subrange(seg_start as int, i as int),
                    ] + spec_sentences(text@.skip(i + 1)));
                }
                let piece = string_from_chars(seg.as_slice());
                parts.push(piece);
                proof {
                    assert(parts@.map_values(|p: String| p@) =~= parts@.map_values(
                        |p: String| p@,
                    ).drop_last().push(text@.subrange(seg_start as int, i as int)));
                    assert(spec_sentences(text@) =~= parts@.map_values(|p: String| p@)
                        + spec_sentences(text@.skip(i + 1)));
                }
                seg_start = i + 1;
            }
            i = i + 1;
        }
        let mut seg: Vec<char> = Vec::new();
        let mut k: usize = seg_start;
        while k < cs.len()
            invariant
                cs@ == text@,
                seg_start <= k <= cs@.len(),
                seg@ == cs@.subrange(seg_start as int, k as int),
            decreases cs@.len() - k,
        {
            proof {
                assert(cs@.subrange(seg_start as int, k + 1) =~= cs@.subrange(
                    seg_start as int,
                    k as int,
                ).push(cs@[k as int]));
            }
            seg.push(cs[k]);
            k = k + 1;
        }
        proof {
            let rest = text@.skip(seg_start as int);
            assert forall|k2: int| 0 <= k2 < rest.len() implies !spec_is_sentence_end(
                rest[k2],
            ) by {
                assert(rest[k2] == text@[seg_start + k2]);
            }
            lemma_first_sentence_len(rest, rest.len() as int);
            assert(spec_sentences(rest) == seq![rest]);
            assert(rest =~= text@.subrange(seg_start as int, text@.len() as int));
        }
        let piece = string_from_chars(seg.as_slice());
        parts.push(piece);
        proof {
            assert(parts@.map_values(|p: String| p@) =~= parts@.map_values(
                |p: String| p@,
            ).drop_last().push(text@.subrange(seg_start as int, text@.len() as int)));
            assert(spec_sentences(text@) =~= parts@.map_values(|p: String| p@));
        }
        let mut out = String::from_str("[AI-Verified] ");
        if parts.len() > 3 {
            let first = str_trim(parts[0].as_str());
            let last = str_trim(parts[parts.len() - 1].as_str());
            out.append(first.as_str());
            out.append("... ");
            out.append(last.as_str());
            proof {
                assert(parts@.map_values(|p: String| p@)[0] == parts@[0]@);
                assert(parts@.map_values(|p: String| p@).last() == parts@[parts@.len() - 1]@);
                assert(out@ =~= spec_summary(text@));
            }
        } else {
            let end = if clen <= 100 {
                clen
            } else {
                100
            };
            let mut head: Vec<char> = Vec::new();
            let mut j: usize = 0;
            while j < end
                invariant
                    cs@ == text@,
                    clen == cs@.len(),
                    j <= end <= cs@.len(),
                    head@ == cs@.subrange(0, j as int),
                decreases end - j,
            {
                proof {
                    assert(cs@.subrange(0, j + 1) =~= cs@.subrange(0, j as int).push(
                        cs@[j as int]));
                }
                head.push(cs[j]);
                j = j + 1;
            }
            let h = string_from_chars(head.as_slice());
            out.append(h.as_str());
            proof {
                if text@.len() <= 100 {
                    assert(cs@.subrange(0, end as int) =~= text@);
                } else {
                    assert(cs@.subrange(0, end as int) =~= text@.take(100));
                }
                assert(out@ =~= spec_summary(text@));
            }
        }
        out
    }
}

} // verus!
