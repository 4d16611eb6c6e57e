//! Line-text handling: the reserved blank-line marker, what the text feed
//! shows for a line, and splitting a submitted script into trimmed rows.

use vstd::prelude::*;
use vstd::string::StrSliceExecFns;
use crate::types::{FormSong, LineComp, LineCompView};

verus! {

/// The reserved marker for a line that occupies a slot in the sequence but
/// displays as blank.
pub open spec fn sentinel_text() -> Seq<char> {
    "---"@
}

/// What the text feed shows for a line: its literal text, or nothing when
/// the line is the reserved blank marker.
pub open spec fn displayed_text(line: Seq<char>) -> Seq<char> {
    if line == sentinel_text() {
        Seq::empty()
    } else {
        line
    }
}

/// Whether `s` is the reserved blank-line marker.
pub fn is_sentinel(s: &str) -> (r: bool)
    ensures
        r == (s@ == sentinel_text()),
{
    proof {
        reveal_strlit("---");
    }
    let n = s.unicode_len();
    if n != 3 {
        return false;
    }
    let r = s.get_char(0) == '-' && s.get_char(1) == '-' && s.get_char(2) == '-';
    proof {
        if r {
            assert(s@ =~= sentinel_text());
        }
    }
    r
}

/// Index of the first newline in `s`, or `s.len()` when there is none.
pub open spec fn first_newline(s: Seq<char>) -> nat
    decreases s.len(),
{
    if s.len() == 0 {
        0
    } else if s[0] == '\n' {
        0
    } else {
        (1 + first_newline(s.drop_first())) as nat
    }
}

/// The rows of `s`: the maximal newline-free pieces between its newlines.
/// A text with `k` newlines has exactly `k + 1` rows; empty rows are kept.
pub open spec fn split_rows(s: Seq<char>) -> Seq<Seq<char>>
    decreases s.len(),
{
    let k = first_newline(s) as int;
    if k >= s.len() {
        seq![s]
    } else {
        seq![s.subrange(0, k)] + split_rows(s.subrange(k + 1, s.len() as int))
    }
}

/// `first_newline` points at the first newline: it is in bounds, finds a
/// newline when there is one, and nothing before it is a newline.
pub proof fn lemma_first_newline(s: Seq<char>)
    ensures
        first_newline(s) <= s.len(),
        first_newline(s) < s.len() ==> s[first_newline(s) as int] == '\n',
        forall|j: int| 0 <= j < first_newline(s) ==> s[j] != '\n',
    decreases s.len(),
{
    if s.len() > 0 && s[0] != '\n' {
        lemma_first_newline(s.drop_first());
        assert forall|j: int| 0 <= j < first_newline(s) implies s[j] != '\n' by {
            if j > 0 {
                assert(s.drop_first()[j - 1] == s[j]);
            }
        }
    }
}

/// A position with a newline and nothing but other characters before it is
/// exactly `first_newline`.
pub proof fn lemma_first_newline_at(s: Seq<char>, p: int)
    requires
        0 <= p < s.len(),
        s[p] == '\n',
        forall|j: int| 0 <= j < p ==> s[j] != '\n',
    ensures
        first_newline(s) == p,
    decreases p,
{
    if p > 0 {
        lemma_first_newline_at(s.drop_first(), p - 1);
    }
}

/// A text without any newline is one single row.
pub proof fn lemma_split_rows_single(s: Seq<char>)
    requires
        forall|j: int| 0 <= j < s.len() ==> s[j] != '\n',
    ensures
        split_rows(s) == seq![s],
{
    lemma_first_newline(s);
    if first_newline(s) < s.len() {
        assert(s[first_newline(s) as int] == '\n');
    }
}

/// Splitting at the first newline: the newline-free piece before position
/// `p` is the first row, and the rest of the text yields the others.
pub proof fn lemma_split_rows_step(s: Seq<char>, p: int)
    requires
        0 <= p < s.len(),
        s[p] == '\n',
        forall|j: int| 0 <= j < p ==> s[j] != '\n',
    ensures
        split_rows(s) == seq![s.subrange(0, p)] + split_rows(
            s.subrange(p + 1, s.len() as int),
        ),
{
    lemma_first_newline_at(s, p);
}

/// The text of a piece with surrounding whitespace removed, as
/// `str::trim` computes it; a function of the characters alone.
pub uninterp spec fn trimmed_of(s: Seq<char>) -> Seq<char>;

/// Relies on str::trim: it removes leading and trailing whitespace, so the
/// result is never longer than the input, an empty input stays empty, and
/// the outcome depends on the characters alone.
#[verifier::external_body]
fn trim_str(s: &str) -> (r: String)
    ensures
        r@ == trimmed_of(s@),
        r@.len() <= s@.len(),
        s@.len() == 0 ==> r@.len() == 0,
{
    s.trim().to_owned()
}

/// Split a submitted script into its rows and trim each: the rows of
/// [`split_rows`], each reduced by [`trimmed_of`], in order.
pub fn split_lines(s: &str) -> (r: Vec<String>)
    ensures
        r@.len() == split_rows(s@).len(),
        forall|i: int| 0 <= i < r@.len() ==> r@[i]@ == trimmed_of(split_rows(s@)[i]),
{
    let n = s.unicode_len();
    let mut out: Vec<String> = Vec::new();
    let mut start: usize = 0;
    let mut i: usize = 0;
    proof {
        assert(s@.subrange(0, n as int) =~= s@);
    }
    while i < n
        invariant
            n == s@.len(),
            start <= i <= n,
            forall|j: int| start <= j < i ==> s@[j] != '\n',
            out@.len() + split_rows(s@.subrange(start as int, n as int)).len() == split_rows(
                s@,
            ).len(),
            forall|j: int|
                0 <= j < split_rows(s@.subrange(start as int, n as int)).len() ==> split_rows(
                    s@.subrange(start as int, n as int),
                )[j] == split_rows(s@)[out@.len() + j],
            forall|j: int| 0 <= j < out@.len() ==> out@[j]@ == trimmed_of(split_rows(s@)[j]),
        decreases n - i,
    {
        if s.get_char(i) == '\n' {
            let ghost out0 = out@;
            let ghost rest = s@.subrange(start as int, n as int);
            let ghost p = i - start;
            let piece = s.substring_char(start, i);
            proof {
                assert(rest[p] == '\n');
                assert forall|j: int| 0 <= j < p implies rest[j] != '\n' by {
                    assert(rest[j] == s@[start + j]);
                }
                lemma_split_rows_step(rest, p);
                assert(rest.subrange(0, p) =~= s@.subrange(start as int, i as int));
                assert(rest.subrange(p + 1, rest.len() as int) =~= s@.subrange(
                    i + 1,
                    n as int,
                ));
                assert(split_rows(rest)[0] == rest.subrange(0, p));
                assert(split_rows(rest).len() == 1 + split_rows(
                    s@.subrange(i + 1, n as int),
                ).len());
                assert forall|j: int|
                    0 <= j < split_rows(s@.subrange(i + 1, n as int)).len() implies #[trigger] split_rows(
                    s@.subrange(i + 1, n as int),
                )[j] == split_rows(s@)[out0.len() + 1 + j] by {
                    assert(split_rows(rest)[j + 1] == split_rows(
                        s@.subrange(i + 1, n as int),
                    )[j]);
                }
                assert(split_rows(s@)[out0.len() as int] == rest.subrange(0, p));
            }
            out.push(trim_str(piece));
            start = i + 1;
        }
        i += 1;
    }
    let ghost out0 = out@;
    let ghost rest = s@.subrange(start as int, n as int);
    let piece = s.substring_char(start, n);
    proof {
        assert forall|j: int| 0 <= j < rest.len() implies rest[j] != '\n' by {
            assert(rest[j] == s@[start + j]);
        }
        lemma_split_rows_single(rest);
        assert(split_rows(s@.subrange(start as int, n as int))[0] == rest);
        assert(split_rows(s@)[out0.len() as int] == rest);
    }
    out.push(trim_str(piece));
    out
}

impl FormSong {
    /// The script rows of the submitted text as bare lines: split at
    /// newlines, trimmed, in order, holding only their text.
    pub fn line_comps(&self) -> (r: Vec<LineComp>)
        ensures
            r@.len() == split_rows(self.lines@).len(),
            forall|i: int|
                0 <= i < r@.len() ==> r@[i]@ == (LineCompView {
                    id: 0,
                    line: trimmed_of(split_rows(self.lines@)[i]),
                    keep_n_last: 0,
                    color: None,
                }),
    {
        let rows = split_lines(self.lines.as_str());
        crate::types::lines_to_comps(rows)
    }
}

} // verus!
