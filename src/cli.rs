//! What a run of the command does, decided from its flags before any
//! network or subprocess call, and what the tool lookup printed.

use vstd::prelude::*;
use crate::batch::{lemma_split_prefix, split_lines};
use crate::text::copy_range;

verus! {

/// The exit status of a run that was given nothing to do.
pub const USAGE_EXIT_CODE: i32 = 2;

/// What a run does.
#[derive(Debug, Clone, Copy, PartialEq, Eq)]
pub enum Mode {
    /// Download the one item that `--download` names.
    Download,
    /// Download every item of the file that `--batch` names.
    Batch,
    /// Neither was given: print the usage and exit with `USAGE_EXIT_CODE`.
    Usage,
}

/// The mode that the flags ask for; `--download` wins over `--batch`.
pub fn choose_mode(download: &Option<String>, batch: &Option<String>) -> (r: Mode)
    ensures
        download is Some ==> r == Mode::Download,
        download is None && batch is Some ==> r == Mode::Batch,
        download is None && batch is None ==> r == Mode::Usage,
{
    if download.is_some() {
        Mode::Download
    } else if batch.is_some() {
        Mode::Batch
    } else {
        Mode::Usage
    }
}

/// The exit status of a run in `mode` that did nothing else: non-zero
/// exactly for a run given nothing to do.
pub fn idle_exit_code(mode: Mode) -> (r: i32)
    ensures
        r != 0 <==> mode == Mode::Usage,
        mode == Mode::Usage ==> r == USAGE_EXIT_CODE,
{
    match mode {
        Mode::Usage => USAGE_EXIT_CODE,
        _ => 0,
    }
}

/// The first line of what a `which`/`where` lookup printed, without its
/// line ending (`\n`, or `\r\n`).
pub open spec fn first_line(output: Seq<u8>) -> Seq<u8> {
    let line = split_lines(output)[0];
    if split_lines(output).len() > 1 && line.len() > 0 && line.last() == 13 {
        line.drop_last()
    } else {
        line
    }
}

/// The tool's path in what the lookup printed: its first line, where that
/// is not empty.
pub open spec fn first_path_spec(output: Seq<u8>) -> Option<Seq<u8>> {
    if first_line(output).len() > 0 {
        Some(first_line(output))
    } else {
        None
    }
}

proof fn lemma_single_line(s: Seq<u8>)
    requires
        forall|i: int| 0 <= i < s.len() ==> s[i] != 10,
    ensures
        split_lines(s) =~= seq![s],
    decreases s.len(),
{
    if s.len() > 0 {
        let t = s.drop_last();
        assert(s[s.len() - 1] != 10);
        assert forall|i: int| 0 <= i < t.len() implies t[i] != 10 by {
            assert(t[i] == s[i]);
        }
        lemma_single_line(t);
        assert(t.push(s.last()) =~= s);
    } else {
        assert(s =~= Seq::<u8>::empty());
    }
}

proof fn lemma_first_line(s: Seq<u8>, j: nat)
    requires
        j <= s.len(),
        forall|i: int| 0 <= i < j ==> s[i] != 10,
        j < s.len() ==> s[j as int] == 10,
    ensures
        split_lines(s)[0] == s.subrange(0, j as int),
        (j < s.len()) == (split_lines(s).len() > 1),
{
    let head = s.subrange(0, j as int);
    assert forall|i: int| 0 <= i < head.len() implies head[i] != 10 by {
        assert(head[i] == s[i]);
    }
    lemma_single_line(head);
    if j == s.len() {
        assert(head =~= s);
    } else {
        let k = (j + 1) as nat;
        let pre = s.subrange(0, k as int);
        assert(pre.drop_last() =~= head);
        assert(split_lines(pre) == split_lines(head).push(Seq::<u8>::empty()));
        lemma_split_prefix(s, k);
        assert(split_lines(s).subrange(0, 1)[0] == split_lines(s)[0]);
    }
}

/// The tool's path in what the lookup printed, or `None` where it printed
/// no path.
pub fn first_path(output: &[u8]) -> (r: Option<Vec<u8>>)
    ensures
        match first_path_spec(output@) {
            Some(p) => r matches Some(v) && v@ == p,
            None => r is None,
        },
{
    let n = output.len();
    let mut j: usize = 0;
    while j < n && output[j] != 10
        invariant
            j <= n == output@.len(),
            forall|i: int| 0 <= i < j ==> output@[i] != 10,
        decreases n - j,
    {
        j = j + 1;
    }
    proof {
        lemma_first_line(output@, j as nat);
    }
    let end: usize = if j < n && j > 0 && output[j - 1] == 13 {
        j - 1
    } else {
        j
    };
    assert(first_line(output@) =~= output@.subrange(0, end as int));
    if end == 0 {
        None
    } else {
        Some(copy_range(output, 0, end))
    }
}

} // verus!
