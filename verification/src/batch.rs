//! Progress of a batch: one event per completed item, numbered in the order
//! in which the items complete.

use vstd::prelude::*;
use vstd::string::*;
use crate::report::ProcessResult;

verus! {

/// What a listener is told when an item completes.
#[derive(Debug, Clone, PartialEq, Eq)]
pub struct ProgressPayload {
    /// How many items have completed, this one included.
    pub completed: usize,
    /// How many items the batch has.
    pub total: usize,
    pub current_file: Option<String>,
    pub result: Option<ProcessResult>,
}

/// The count of completed items of a batch. The size of the batch is fixed
/// when the batch is dispatched.
#[derive(Debug)]
pub struct Progress {
    pub completed: usize,
    pub total: usize,
}

/// Whether `event` announces the completion of the item at `path` with
/// `result` as number `completed` of `total`.
pub open spec fn announces(
    event: ProgressPayload,
    completed: int,
    total: int,
    path: Seq<char>,
    result: ProcessResult,
) -> bool {
    &&& event.completed == completed
    &&& event.total == total
    &&& event.current_file matches Some(file) && file@ == path
    &&& event.result == Some(result)
}

impl ProcessResult {
    /// A copy of this result.
    pub fn duplicate(&self) -> (copy: ProcessResult)
        ensures
            copy == *self,
    {
        ProcessResult {
            success: self.success,
            original_size: self.original_size,
            result_size: self.result_size,
            output_path: self.output_path.clone(),
            message: self.message.clone(),
        }
    }
}

impl Progress {
    /// No more items have completed than the batch has.
    pub open spec fn wf(&self) -> bool {
        self.completed <= self.total
    }

    /// The progress of a batch of `total` items of which none has completed.
    pub fn new(total: usize) -> (progress: Progress)
        ensures
            progress.wf(),
            progress.completed == 0,
            progress.total == total,
    {
        Progress { completed: 0, total }
    }

    /// Whether every item has completed, so that the end of the batch is due
    /// to be signalled.
    pub fn is_complete(&self) -> (complete: bool)
        ensures
            complete == (self.completed >= self.total),
    {
        self.completed >= self.total
    }

    /// Counts one more completed item, whether it succeeded or failed, and
    /// makes its event.
    pub fn record(&mut self, path: &str, result: ProcessResult) -> (event: ProgressPayload)
        requires
            old(self).wf(),
            old(self).completed < old(self).total,
        ensures
            final(self).wf(),
            final(self).total == old(self).total,
            final(self).completed == old(self).completed + 1,
            announces(event, old(self).completed + 1, old(self).total as int, path@, result),
    {
        self.completed = self.completed + 1;
        ProgressPayload {
            completed: self.completed,
            total: self.total,
            current_file: Some(String::from_str(path)),
            result: Some(result),
        }
    }
}

/// The events of a whole batch whose items completed in the given order: as
/// many events as items, numbered from one to the size of the batch without a
/// gap, each with the path and the result of its item.
pub fn announce(paths: &Vec<String>, results: &Vec<ProcessResult>) -> (events: Vec<ProgressPayload>)
    requires
        paths@.len() == results@.len(),
    ensures
        events@.len() == paths@.len(),
        forall|i: int|
            0 <= i < events@.len() ==> announces(
                #[trigger] events@[i],
                i + 1,
                paths@.len() as int,
                paths@[i]@,
                results@[i],
            ),
{
    let mut progress = Progress::new(paths.len());
    let mut events: Vec<ProgressPayload> = Vec::new();
    let mut i: usize = 0;
    while i < paths.len()
        invariant
            i <= paths@.len(),
            paths@.len() == results@.len(),
            progress.wf(),
            progress.total == paths@.len(),
            progress.completed == i,
            events@.len() == i,
            forall|k: int|
                0 <= k < i ==> announces(
                    #[trigger] events@[k],
                    k + 1,
                    paths@.len() as int,
                    paths@[k]@,
                    results@[k],
                ),
        decreases paths@.len() - i,
    {
        let event = progress.record(paths[i].as_str(), results[i].duplicate());
        events.push(event);
        i = i + 1;
    }
    events
}

} // verus!
