//! Stepping through a batch: items are handed out one at a time, in file
//! order, and the outcome of each download is tallied. The caller resolves
//! and downloads each item between two steps; nothing runs concurrently.

use vstd::prelude::*;
use crate::batch::{is_blank, parse_batch, read_batch, read_lines, split_lines, BatchError};
use crate::invoke::DownloadError;

verus! {

/// One step from position `pos`: the next item and the position after it,
/// or no item once every item was handed out.
pub open spec fn step(ids: Seq<u64>, pos: nat) -> (nat, Option<u64>) {
    if pos < ids.len() {
        ((pos + 1) as nat, Some(ids[pos as int]))
    } else {
        (pos, None)
    }
}

/// The position after `k` steps from the start, and the items handed out
/// on the way.
pub open spec fn run_steps(ids: Seq<u64>, k: nat) -> (nat, Seq<u64>)
    decreases k,
{
    if k == 0 {
        (0, Seq::empty())
    } else {
        let (pos, out) = run_steps(ids, (k - 1) as nat);
        let (next, item) = step(ids, pos);
        match item {
            Some(id) => (next, out.push(id)),
            None => (next, out),
        }
    }
}

/// How many of the lines are not blank.
pub open spec fn count_entries(lines: Seq<Seq<u8>>) -> nat
    decreases lines.len(),
{
    if lines.len() == 0 {
        0
    } else if is_blank(lines.last()) {
        count_entries(lines.drop_last())
    } else {
        count_entries(lines.drop_last()) + 1
    }
}

/// What a batch has counted so far.
#[derive(Debug, Clone, Copy, PartialEq, Eq)]
pub struct Summary {
    pub downloaded: usize,
    pub unresolved: usize,
    pub failed: usize,
}

/// A batch in progress.
#[derive(Debug)]
pub struct BatchRun {
    ids: Vec<u64>,
    next: usize,
    downloaded: usize,
    unresolved: usize,
    failed: usize,
    failures: Vec<DownloadError>,
}

impl BatchRun {
    /// The items of the batch, in file order.
    pub closed spec fn items(&self) -> Seq<u64> {
        self.ids@
    }

    /// How many items were handed out.
    pub closed spec fn position(&self) -> nat {
        self.next as nat
    }

    pub closed spec fn tally(&self) -> (nat, nat, nat) {
        (self.downloaded as nat, self.unresolved as nat, self.failed as nat)
    }

    /// Every item that was not downloaded, with the reason, in the order
    /// they were recorded.
    pub closed spec fn failure_log(&self) -> Seq<DownloadError> {
        self.failures@
    }

    pub open spec fn recorded(&self) -> nat {
        self.tally().0 + self.tally().1 + self.tally().2
    }

    pub closed spec fn wf(&self) -> bool {
        &&& self.next <= self.ids.len()
        &&& self.downloaded + self.unresolved + self.failed <= self.next
        &&& self.failures.len() == self.unresolved + self.failed
    }

    /// A batch of `ids` that has handed out nothing yet.
    pub fn new(ids: Vec<u64>) -> (r: BatchRun)
        ensures
            r.wf(),
            r.items() == ids@,
            r.position() == 0,
            r.tally() == (0nat, 0nat, 0nat),
            r.failure_log() == Seq::<DownloadError>::empty(),
    {
        BatchRun { ids, next: 0, downloaded: 0, unresolved: 0, failed: 0, failures: Vec::new() }
    }

    /// The batch that a batch file describes; a file with a line that is
    /// not an item identifier gives no batch, so no item of it is handed out.
    pub fn from_contents(contents: &[u8]) -> (r: Result<BatchRun, BatchError>)
        ensures
            match read_batch(contents@) {
                Ok(ids) => r matches Ok(run) && run.wf() && run.items() == ids
                    && run.position() == 0 && run.tally() == (0nat, 0nat, 0nat)
                    && run.failure_log() == Seq::<DownloadError>::empty(),
                Err(e) => r matches Err(err) && err.view() == e,
            },
    {
        match parse_batch(contents) {
            Ok(ids) => Ok(BatchRun::new(ids)),
            Err(e) => Err(e),
        }
    }

    /// Hands out the next item, in file order, and advances the progress by
    /// one; `None` once all were handed out. Items go out one at a time: the
    /// outcome of the last one is recorded first.
    pub fn next_item(&mut self) -> (r: Option<u64>)
        requires
            old(self).wf(),
            old(self).recorded() == old(self).position(),
        ensures
            final(self).wf(),
            final(self).items() == old(self).items(),
            final(self).tally() == old(self).tally(),
            final(self).failure_log() == old(self).failure_log(),
            (final(self).position(), r) == step(old(self).items(), old(self).position()),
    {
        if self.next < self.ids.len() {
            let id = self.ids[self.next];
            self.next = self.next + 1;
            Some(id)
        } else {
            None
        }
    }

    /// Counts the outcome of the download of the last item handed out.
    pub fn record(&mut self, outcome: Result<(), DownloadError>)
        requires
            old(self).wf(),
            old(self).recorded() < old(self).position(),
        ensures
            final(self).wf(),
            final(self).items() == old(self).items(),
            final(self).position() == old(self).position(),
            final(self).failure_log() == match outcome {
                Ok(()) => old(self).failure_log(),
                Err(e) => old(self).failure_log().push(e),
            },
            final(self).tally() == match outcome {
                Ok(()) => (old(self).tally().0 + 1, old(self).tally().1, old(self).tally().2),
                Err(DownloadError::ResolutionFailed { .. }) => (
                    old(self).tally().0,
                    old(self).tally().1 + 1,
                    old(self).tally().2,
                ),
                Err(DownloadError::ToolFailed { .. }) => (
                    old(self).tally().0,
                    old(self).tally().1,
                    old(self).tally().2 + 1,
                ),
            },
    {
        match outcome {
            Ok(()) => self.downloaded = self.downloaded + 1,
            Err(e) => {
                match e {
                    DownloadError::ResolutionFailed { .. } => self.unresolved = self.unresolved + 1,
                    DownloadError::ToolFailed { .. } => self.failed = self.failed + 1,
                }
                self.failures.push(e);
            },
        }
    }

    /// Every item that was not downloaded, with the stage that failed and
    /// the tool's exit code, in the order they were recorded.
    pub fn failures(&self) -> (r: &Vec<DownloadError>)
        ensures
            r@ == self.failure_log(),
    {
        &self.failures
    }

    /// How many items were handed out: the progress of the batch.
    pub fn progress(&self) -> (r: usize)
        ensures
            r == self.position(),
    {
        self.next
    }

    /// How many items the batch holds.
    pub fn total(&self) -> (r: usize)
        ensures
            r == self.items().len(),
    {
        self.ids.len()
    }

    /// Whether every item was handed out.
    pub fn is_finished(&self) -> (r: bool)
        requires
            self.wf(),
        ensures
            r == (self.position() == self.items().len()),
    {
        self.next == self.ids.len()
    }

    /// The outcomes counted so far.
    pub fn summary(&self) -> (r: Summary)
        ensures
            (r.downloaded as nat, r.unresolved as nat, r.failed as nat) == self.tally(),
    {
        Summary { downloaded: self.downloaded, unresolved: self.unresolved, failed: self.failed }
    }
}

proof fn lemma_run_steps(ids: Seq<u64>, k: nat)
    ensures
        k <= ids.len() ==> run_steps(ids, k) == (k, ids.take(k as int)),
        k > ids.len() ==> run_steps(ids, k) == (ids.len(), ids),
    decreases k,
{
    if k > 0 {
        lemma_run_steps(ids, (k - 1) as nat);
        if k <= ids.len() {
            assert(ids.take(k - 1).push(ids[k - 1]) =~= ids.take(k as int));
        } else if k == ids.len() + 1 {
            assert(ids.take(ids.len() as int) =~= ids);
        }
    }
}

proof fn lemma_entries_counted(lines: Seq<Seq<u8>>)
    requires
        read_lines(lines) is Ok,
    ensures
        read_lines(lines)->Ok_0.len() == count_entries(lines),
    decreases lines.len(),
{
    if lines.len() > 0 {
        lemma_entries_counted(lines.drop_last());
    }
}

/// A batch read from a file with `n` item lines (lines that are not blank)
/// hands out those `n` identifiers, each once and in file order: after `k`
/// steps it has handed out the first `k` of them (all `n` once `k >= n`),
/// and its progress is the number handed out.
pub proof fn lemma_batch_in_file_order(contents: Seq<u8>, k: nat)
    requires
        read_batch(contents) is Ok,
    ensures
        ({
            let ids = read_batch(contents)->Ok_0;
            let n = count_entries(split_lines(contents));
            &&& ids.len() == n
            &&& k <= n ==> run_steps(ids, k) == (k, ids.take(k as int))
            &&& k >= n ==> run_steps(ids, k) == (n, ids)
        }),
{
    let ids = read_batch(contents)->Ok_0;
    lemma_entries_counted(split_lines(contents));
    lemma_run_steps(ids, k);
    if k == ids.len() {
        assert(ids.take(k as int) =~= ids);
    }
}

} // verus!
