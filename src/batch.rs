//! Batch files: one workshop item identifier per line.
//!
//! Lines are separated by `\n`. Trailing whitespace (a `\r` among it) is
//! ignored, a line that holds nothing else is skipped, and every other line
//! must be a positive decimal number that fits in a `u64`. The first line
//! that is not stops the whole batch before any item is handed out.

use vstd::prelude::*;
use crate::text::{
    copy_range, decimal_u64, parse_decimal, trim_end, trimmed_end,
};

verus! {

/// The lines of `s`, split at each `\n`. There is always one line more
/// than there are newlines; the last one is empty when `s` ends in one.
pub open spec fn split_lines(s: Seq<u8>) -> Seq<Seq<u8>>
    decreases s.len(),
{
    if s.len() == 0 {
        seq![Seq::<u8>::empty()]
    } else if s.last() == 10 {
        split_lines(s.drop_last()).push(Seq::<u8>::empty())
    } else {
        let p = split_lines(s.drop_last());
        p.update(p.len() - 1, p.last().push(s.last()))
    }
}

pub proof fn lemma_split_lines_nonempty(s: Seq<u8>)
    ensures
        split_lines(s).len() >= 1,
    decreases s.len(),
{
    if s.len() > 0 {
        lemma_split_lines_nonempty(s.drop_last());
    }
}

/// The lines that a prefix of `s` has completed are the first lines of `s`.
pub proof fn lemma_split_prefix(s: Seq<u8>, k: nat)
    requires
        k <= s.len(),
    ensures
        split_lines(s.subrange(0, k as int)).len() <= split_lines(s).len(),
        split_lines(s).subrange(0, split_lines(s.subrange(0, k as int)).len() - 1)
            =~= split_lines(s.subrange(0, k as int)).drop_last(),
    decreases s.len(),
{
    lemma_split_lines_nonempty(s);
    lemma_split_lines_nonempty(s.subrange(0, k as int));
    if k == s.len() {
        assert(s.subrange(0, k as int) =~= s);
    } else {
        let t = s.drop_last();
        assert(t.subrange(0, k as int) =~= s.subrange(0, k as int));
        lemma_split_prefix(t, k);
        lemma_split_lines_nonempty(t);
    }
}

/// A line that holds nothing but whitespace.
pub open spec fn is_blank(line: Seq<u8>) -> bool {
    trim_end(line).len() == 0
}

/// The item identifier that a line names: a positive decimal number,
/// possibly followed by whitespace.
pub open spec fn line_item_id(line: Seq<u8>) -> Option<u64> {
    match decimal_u64(trim_end(line)) {
        Some(n) => if n > 0 { Some(n) } else { None },
        None => None,
    }
}

/// What reading `lines` gives: the identifiers of the non-blank lines in
/// order, or the 1-based number and the text of the first line that is
/// neither blank nor an identifier.
pub open spec fn read_lines(lines: Seq<Seq<u8>>) -> Result<Seq<u64>, (int, Seq<u8>)>
    decreases lines.len(),
{
    if lines.len() == 0 {
        Ok(Seq::empty())
    } else {
        match read_lines(lines.drop_last()) {
            Err(e) => Err(e),
            Ok(ids) => {
                let line = lines.last();
                if is_blank(line) {
                    Ok(ids)
                } else {
                    match line_item_id(line) {
                        Some(n) => Ok(ids.push(n)),
                        None => Err((lines.len() as int, line)),
                    }
                }
            },
        }
    }
}

/// Once a prefix of the lines is refused, so are all of them.
proof fn lemma_error_sticks(lines: Seq<Seq<u8>>, m: nat)
    requires
        m <= lines.len(),
        read_lines(lines.subrange(0, m as int)) is Err,
    ensures
        read_lines(lines) == read_lines(lines.subrange(0, m as int)),
    decreases lines.len(),
{
    if m == lines.len() {
        assert(lines.subrange(0, m as int) =~= lines);
    } else {
        assert(lines.drop_last().subrange(0, m as int) =~= lines.subrange(0, m as int));
        lemma_error_sticks(lines.drop_last(), m);
    }
}

proof fn lemma_good_prefix(lines: Seq<Seq<u8>>, m: nat)
    requires
        m <= lines.len(),
        forall|j: int|
            0 <= j < m ==> is_blank(#[trigger] lines[j]) || line_item_id(lines[j]) is Some,
    ensures
        read_lines(lines.take(m as int)) is Ok,
    decreases m,
{
    if m > 0 {
        lemma_good_prefix(lines, (m - 1) as nat);
        assert(lines.take(m as int).drop_last() =~= lines.take(m - 1));
        assert(lines.take(m as int).last() == lines[m - 1]);
    }
}

/// What reading a batch file gives.
pub open spec fn read_batch(contents: Seq<u8>) -> Result<Seq<u64>, (int, Seq<u8>)> {
    read_lines(split_lines(contents))
}

/// Why a batch file was refused.
#[derive(Debug, Clone, PartialEq, Eq)]
pub enum BatchError {
    /// The line with this 1-based number, whose text is `content`, is
    /// neither blank nor a positive item identifier.
    InvalidEntry { line: usize, content: Vec<u8> },
}

impl BatchError {
    pub open spec fn view(&self) -> (int, Seq<u8>) {
        match self {
            BatchError::InvalidEntry { line, content } => (*line as int, content@),
        }
    }
}

/// The result of `parse_batch` over spec values.
pub open spec fn batch_outcome(r: Result<Vec<u64>, BatchError>) -> Result<
    Seq<u64>,
    (int, Seq<u8>),
> {
    match r {
        Ok(v) => Ok(v@),
        Err(e) => Err(e.view()),
    }
}

/// A batch file whose line number `k + 1` is the first line that is neither
/// blank nor a positive item identifier is refused as a whole, and the
/// refusal names that line by its 1-based number and its text, whatever
/// follows it.
pub proof fn lemma_first_bad_line_refuses_batch(contents: Seq<u8>, k: nat)
    requires
        k < split_lines(contents).len(),
        !is_blank(split_lines(contents)[k as int]),
        line_item_id(split_lines(contents)[k as int]) is None,
        forall|j: int|
            0 <= j < k ==> is_blank(#[trigger] split_lines(contents)[j]) || line_item_id(
                split_lines(contents)[j],
            ) is Some,
    ensures
        read_batch(contents) == Err::<Seq<u64>, (int, Seq<u8>)>(
            ((k + 1) as int, split_lines(contents)[k as int]),
        ),
{
    let lines = split_lines(contents);
    lemma_good_prefix(lines, k);
    let upto = lines.take(k as int + 1);
    assert(upto.drop_last() =~= lines.take(k as int));
    assert(upto.last() == lines[k as int]);
    assert(lines.subrange(0, k as int + 1) =~= upto);
    lemma_error_sticks(lines, (k + 1) as nat);
}

/// The item identifier on `s[lo..hi]`, or `None` where the range is blank.
fn line_id(s: &[u8], lo: usize, hi: usize) -> (r: Result<Option<u64>, ()>)
    requires
        lo <= hi <= s@.len(),
    ensures
        ({
            let line = s@.subrange(lo as int, hi as int);
            match r {
                Ok(None) => is_blank(line),
                Ok(Some(n)) => !is_blank(line) && line_item_id(line) == Some(n),
                Err(_) => !is_blank(line) && line_item_id(line) is None,
            }
        }),
{
    let end = trimmed_end(s, lo, hi);
    if end == lo {
        return Ok(None);
    }
    match parse_decimal(s, lo, end) {
        Some(n) => if n > 0 {
            Ok(Some(n))
        } else {
            Err(())
        },
        None => Err(()),
    }
}

/// Reads a batch file: the item identifiers of its non-blank lines, in file
/// order, or the first line that is not one.
pub fn parse_batch(contents: &[u8]) -> (r: Result<Vec<u64>, BatchError>)
    ensures
        batch_outcome(r) == read_batch(contents@),
{
    let n = contents.len();
    let mut ids: Vec<u64> = Vec::new();
    let mut lo: usize = 0;
    let mut line_no: usize = 0;
    let mut i: usize = 0;
    while i < n
        invariant
            n == contents@.len(),
            line_no <= lo <= i <= n,
            split_lines(contents@.subrange(0, i as int)).len() == line_no + 1,
            split_lines(contents@.subrange(0, i as int)).last() =~= contents@.subrange(
                lo as int,
                i as int,
            ),
            read_lines(split_lines(contents@.subrange(0, i as int)).drop_last()) == Ok::<
                Seq<u64>,
                (int, Seq<u8>),
            >(ids@),
        decreases n - i,
    {
        let ghost before = contents@.subrange(0, i as int);
        let ghost after = contents@.subrange(0, i + 1);
        assert(after.drop_last() =~= before);
        if contents[i] == 10 {
            let ghost lines = split_lines(before);
            assert(split_lines(after) == lines.push(Seq::<u8>::empty()));
            assert(split_lines(after).drop_last() =~= lines);
            assert(lines.drop_last().push(lines.last()) =~= lines);
            match line_id(contents, lo, i) {
                Ok(None) => {},
                Ok(Some(id)) => {
                    ids.push(id);
                },
                Err(_) => {
                    let content = copy_range(contents, lo, i);
                    proof {
                        assert(read_lines(split_lines(after)) == read_lines(lines));
                        lemma_split_prefix(contents@, (i + 1) as nat);
                        lemma_error_sticks(split_lines(contents@), (line_no + 1) as nat);
                    }
                    return Err(BatchError::InvalidEntry { line: line_no + 1, content });
                },
            }
            lo = i + 1;
            line_no = line_no + 1;
        } else {
            let ghost lines = split_lines(before);
            proof {
                lemma_split_lines_nonempty(before);
            }
            assert(split_lines(after).drop_last() =~= lines.drop_last());
        }
        i = i + 1;
    }
    assert(contents@.subrange(0, n as int) =~= contents@);
    let ghost lines = split_lines(contents@);
    proof {
        lemma_split_lines_nonempty(contents@);
    }
    assert(lines.drop_last().push(lines.last()) =~= lines);
    match line_id(contents, lo, n) {
        Ok(None) => Ok(ids),
        Ok(Some(id)) => {
            ids.push(id);
            Ok(ids)
        },
        Err(_) => {
            let content = copy_range(contents, lo, n);
            Err(BatchError::InvalidEntry { line: line_no + 1, content })
        },
    }
}

} // verus!
