//! Log normalization: splitting a raw text blob into lines, trimming each,
//! skipping blanks, and classifying what remains into an ordered sequence
//! of entries.

use vstd::prelude::*;
use crate::classify::classify_spec;
use crate::entry::EntryV;
use crate::text::{trim_spec, find_char};

verus! {

/// The lines of a text blob, split at `'\n'`. The empty blob has no lines,
/// and a final line terminator does not open an extra empty line, as with
/// `str::lines`.
pub open spec fn line_segments(s: Seq<char>) -> Seq<Seq<char>>
    decreases s.len(),
{
    if s.len() == 0 {
        seq![]
    } else {
        let rest = line_segments(s.drop_first());
        if s[0] == '\n' {
            seq![Seq::<char>::empty()] + rest
        } else if rest.len() == 0 {
            seq![seq![s[0]]]
        } else {
            seq![seq![s[0]] + rest[0]] + rest.drop_first()
        }
    }
}

/// Splitting at the first line break: when position `i` holds the first
/// `'\n'` of the blob, the lines are the text before it followed by the
/// lines of the text after it.
pub proof fn lemma_line_segments_split(s: Seq<char>, i: int)
    requires
        0 <= i < s.len(),
        s[i] == '\n',
        forall|k: int| 0 <= k < i ==> s[k] != '\n',
    ensures
        line_segments(s) == seq![s.subrange(0, i)] + line_segments(
            s.subrange(i + 1, s.len() as int),
        ),
    decreases i,
{
    if i == 0 {
        assert(s.subrange(0, 0) =~= Seq::<char>::empty());
        assert(s.subrange(1, s.len() as int) =~= s.drop_first());
    } else {
        let t = s.drop_first();
        lemma_line_segments_split(t, i - 1);
        assert(t.subrange(i, t.len() as int) =~= s.subrange(i + 1, s.len() as int));
        let rest = line_segments(t);
        assert(rest == seq![t.subrange(0, i - 1)] + line_segments(
            t.subrange(i, t.len() as int),
        ));
        assert(rest.len() > 0);
        assert(rest[0] == t.subrange(0, i - 1));
        assert(seq![s[0]] + rest[0] =~= s.subrange(0, i));
        assert(rest.drop_first() =~= line_segments(s.subrange(i + 1, s.len() as int)));
        assert(line_segments(s) =~= seq![s.subrange(0, i)] + line_segments(
            s.subrange(i + 1, s.len() as int),
        ));
    }
}

/// A non-empty blob without a line break is a single line.
pub proof fn lemma_line_segments_whole(s: Seq<char>)
    requires
        s.len() > 0,
        forall|k: int| 0 <= k < s.len() ==> s[k] != '\n',
    ensures
        line_segments(s) == seq![s],
    decreases s.len(),
{
    let t = s.drop_first();
    if t.len() == 0 {
        assert(line_segments(t) == Seq::<Seq<char>>::empty());
        assert(seq![s[0]] =~= s);
        assert(line_segments(s) =~= seq![s]);
    } else {
        lemma_line_segments_whole(t);
        assert(line_segments(t) == seq![t]);
        assert(seq![s[0]] + t =~= s);
        assert(seq![t].drop_first() =~= Seq::<Seq<char>>::empty());
        assert(line_segments(s) =~= seq![s]);
    }
}

/// The lines of the blob that survive normalization: each line trimmed,
/// blank lines removed, input order kept.
pub open spec fn kept_lines(segs: Seq<Seq<char>>) -> Seq<Seq<char>>
    decreases segs.len(),
{
    if segs.len() == 0 {
        seq![]
    } else {
        let t = trim_spec(segs[0]);
        let rest = kept_lines(segs.drop_first());
        if t.len() == 0 {
            rest
        } else {
            seq![t] + rest
        }
    }
}

/// The entry a trimmed, non-blank line becomes: its classification together
/// with the line itself as content; no timestamp and no metadata.
pub open spec fn entry_of(t: Seq<char>, root: Seq<char>) -> EntryV {
    EntryV { timestamp: None, entry_type: classify_spec(t, root), content: t, metadata: None }
}

/// The entries that a sequence of raw lines normalizes to.
pub open spec fn entries_of_segments(segs: Seq<Seq<char>>, root: Seq<char>) -> Seq<EntryV>
    decreases segs.len(),
{
    if segs.len() == 0 {
        seq![]
    } else {
        let t = trim_spec(segs[0]);
        let rest = entries_of_segments(segs.drop_first(), root);
        if t.len() == 0 {
            rest
        } else {
            seq![entry_of(t, root)] + rest
        }
    }
}

/// The entries that a whole text blob normalizes to.
pub open spec fn normalize_spec(logs: Seq<char>, root: Seq<char>) -> Seq<EntryV> {
    entries_of_segments(line_segments(logs), root)
}

/// Stability: the entries are exactly the kept lines, classified in input
/// line order — the entry at position `i` is built from the `i`-th
/// non-blank line.
pub proof fn lemma_entries_follow_line_order(segs: Seq<Seq<char>>, root: Seq<char>)
    ensures
        entries_of_segments(segs, root) == kept_lines(segs).map_values(
            |t: Seq<char>| entry_of(t, root),
        ),
    decreases segs.len(),
{
    if segs.len() > 0 {
        lemma_entries_follow_line_order(segs.drop_first(), root);
        let t = trim_spec(segs[0]);
        if t.len() == 0 {
        } else {
            assert(kept_lines(segs).map_values(|x: Seq<char>| entry_of(x, root)) =~= seq![
                entry_of(t, root),
            ] + kept_lines(segs.drop_first()).map_values(|x: Seq<char>| entry_of(x, root)));
        }
    }
}

/// Blank lines produce no entry: there are never more entries than lines,
/// and when no line is blank the counts are equal.
pub proof fn lemma_entry_count(segs: Seq<Seq<char>>, root: Seq<char>)
    ensures
        entries_of_segments(segs, root).len() <= segs.len(),
        (forall|k: int| 0 <= k < segs.len() ==> trim_spec(#[trigger] segs[k]).len() > 0)
            ==> entries_of_segments(segs, root).len() == segs.len(),
    decreases segs.len(),
{
    if segs.len() > 0 {
        lemma_entry_count(segs.drop_first(), root);
        assert(forall|k: int|
            0 <= k < segs.drop_first().len() ==> #[trigger] segs.drop_first()[k] == segs[k + 1]);
    }
}

/// Blank lines of a blob produce no entry: a normalized conversation never
/// has more entries than the blob has lines, and when no line is blank it
/// has exactly one entry per line.
pub proof fn lemma_normalize_count(logs: Seq<char>, root: Seq<char>)
    ensures
        normalize_spec(logs, root).len() <= line_segments(logs).len(),
        (forall|k: int|
            0 <= k < line_segments(logs).len() ==> trim_spec(
                #[trigger] line_segments(logs)[k],
            ).len() > 0) ==> normalize_spec(logs, root).len() == line_segments(logs).len(),
{
    lemma_entry_count(line_segments(logs), root);
}

/// Stability over the blob: the normalized entries are the blob's non-blank
/// lines, trimmed and classified, in input line order.
pub proof fn lemma_normalize_order(logs: Seq<char>, root: Seq<char>)
    ensures
        normalize_spec(logs, root) == kept_lines(line_segments(logs)).map_values(
            |t: Seq<char>| entry_of(t, root),
        ),
{
    lemma_entries_follow_line_order(line_segments(logs), root);
}

/// The runtime line splitter: the blob's lines, in order, as owned strings.
pub fn split_lines(logs: &str) -> (v: Vec<String>)
    ensures
        v@.map_values(|x: String| x@) == line_segments(logs@),
{
    let mut v: Vec<String> = Vec::new();
    let mut rem: &str = logs;
    proof {
        assert(v@.map_values(|x: String| x@) + line_segments(rem@) =~= line_segments(logs@));
    }
    loop
        invariant
            v@.map_values(|x: String| x@) + line_segments(rem@) == line_segments(logs@),
        decreases rem@.len(),
    {
        let n = rem.unicode_len();
        if n == 0 {
            proof {
                assert(v@.map_values(|x: String| x@) =~= v@.map_values(|x: String| x@)
                    + line_segments(rem@));
            }
            return v;
        }
        match find_char(rem, '\n') {
            Some(i) => {
                let line = rem.substring_char(0, i);
                let tail = rem.substring_char(i + 1, n);
                proof {
                    lemma_line_segments_split(rem@, i as int);
                }
                let owned = line.to_owned();
                proof {
                    assert(v@.push(owned).map_values(|x: String| x@) =~= v@.map_values(
                        |x: String| x@,
                    ).push(line@));
                    assert(v@.map_values(|x: String| x@).push(line@) + line_segments(tail@)
                        =~= v@.map_values(|x: String| x@) + line_segments(rem@));
                }
                v.push(owned);
                rem = tail;
            },
            None => {
                proof {
                    lemma_line_segments_whole(rem@);
                }
                let owned = rem.to_owned();
                proof {
                    assert(v@.push(owned).map_values(|x: String| x@) =~= v@.map_values(
                        |x: String| x@,
                    ).push(rem@));
                    assert(v@.map_values(|x: String| x@).push(rem@) =~= v@.map_values(
                        |x: String| x@,
                    ) + line_segments(rem@));
                }
                v.push(owned);
                return v;
            },
        }
    }
}

} // verus!
