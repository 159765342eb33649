use vstd::prelude::*;

use crate::utils::texts;

verus! {

/// The index of the first line feed of `text` at or after `from`, or the
/// length of `text` where there is none.
pub open spec fn line_end(text: Seq<char>, from: int) -> int
    decreases text.len() - from,
{
    if from >= text.len() {
        text.len() as int
    } else if text[from] == '\n' {
        from
    } else {
        line_end(text, from + 1)
    }
}

/// The line that occupies `text[from..end]`. A line that a line feed ends
/// loses one carriage return in front of that line feed; the last line of
/// a text that does not end in a line feed is taken as it stands.
pub open spec fn line_at(text: Seq<char>, from: int, end: int) -> Seq<char> {
    if end < text.len() && from < end && text[end - 1] == '\r' {
        text.subrange(from, end - 1)
    } else {
        text.subrange(from, end)
    }
}

/// The category names that `text` holds from index `from` on: its lines
/// in order, without the empty ones.
pub open spec fn labels_from(text: Seq<char>, from: int) -> Seq<Seq<char>>
    decreases text.len() + 1 - from,
    via labels_from_terminates
{
    if from < 0 || from >= text.len() {
        Seq::empty()
    } else {
        let end = line_end(text, from);
        let line = line_at(text, from, end);
        let rest = labels_from(text, end + 1);
        if line.len() > 0 {
            seq![line] + rest
        } else {
            rest
        }
    }
}

#[via_fn]
proof fn labels_from_terminates(text: Seq<char>, from: int) {
    if 0 <= from < text.len() {
        lemma_line_end(text, from);
    }
}

/// The category names of a label file: one per line, blank lines ignored.
pub open spec fn parse_labels(text: Seq<char>) -> Seq<Seq<char>> {
    labels_from(text, 0)
}

/// `line_end` finds a line feed or the end, not before `from`, and passes
/// over no line feed.
pub proof fn lemma_line_end(text: Seq<char>, from: int)
    requires
        0 <= from <= text.len(),
    ensures
        from <= line_end(text, from) <= text.len(),
        line_end(text, from) < text.len() ==> text[line_end(text, from)] == '\n',
        forall|k: int| from <= k < line_end(text, from) ==> text[k] != '\n',
    decreases text.len() - from,
{
    if from < text.len() && text[from] != '\n' {
        lemma_line_end(text, from + 1);
    }
}

/// Where no line feed lies in `text[from..at]`, the line that starts at
/// `from` ends where the one that starts at `at` ends.
pub proof fn lemma_line_end_skip(text: Seq<char>, from: int, at: int)
    requires
        0 <= from <= at <= text.len(),
        forall|k: int| from <= k < at ==> text[k] != '\n',
    ensures
        line_end(text, from) == line_end(text, at),
    decreases at - from,
{
    if from < at {
        lemma_line_end_skip(text, from + 1, at);
    }
}

/// Reads the category names of a label file: one per line, blank lines
/// ignored.
pub fn read_labels(text: &str) -> (labels: Vec<String>)
    ensures
        texts(labels@) == parse_labels(text@),
{
    let n = text.unicode_len();
    let mut labels: Vec<String> = Vec::new();
    let mut start: usize = 0;
    let mut i: usize = 0;
    let mut after_cr = false;
    assert(texts(labels@) + labels_from(text@, 0) =~= parse_labels(text@));
    while i < n
        invariant
            n == text@.len(),
            start <= i <= n,
            forall|k: int| start <= k < i ==> text@[k] != '\n',
            after_cr == (start < i && text@[i - 1] == '\r'),
            texts(labels@) + labels_from(text@, start as int) == parse_labels(text@),
        decreases n - i,
    {
        let c = text.get_char(i);
        if c == '\n' {
            let end = if after_cr {
                i - 1
            } else {
                i
            };
            proof {
                lemma_line_end_skip(text@, start as int, i as int);
                assert(line_end(text@, start as int) == i);
                assert(line_at(text@, start as int, i as int) == text@.subrange(
                    start as int,
                    end as int,
                ));
            }
            let ghost before = texts(labels@);
            if end > start {
                labels.push(text.substring_char(start, end).to_owned());
                assert(texts(labels@) =~= before + seq![text@.subrange(start as int, end as int)]);
            }
            assert(texts(labels@) + labels_from(text@, i + 1) =~= before + labels_from(
                text@,
                start as int,
            ));
            start = i + 1;
            after_cr = false;
        } else {
            after_cr = c == '\r';
        }
        i = i + 1;
    }
    proof {
        lemma_line_end_skip(text@, start as int, n as int);
    }
    if start < n {
        let ghost before = texts(labels@);
        labels.push(text.substring_char(start, n).to_owned());
        assert(texts(labels@) =~= before + seq![text@.subrange(start as int, n as int)]);
        assert(labels_from(text@, n + 1) =~= Seq::<Seq<char>>::empty());
        assert(texts(labels@) =~= before + labels_from(text@, start as int));
    } else {
        assert(texts(labels@) + labels_from(text@, start as int) =~= texts(labels@));
    }
    labels
}

} // verus!
