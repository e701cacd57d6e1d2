//! One item on its way through an operation.
//!
//! The library does not touch the file system. A caller probes the source and
//! starts a job with what it found; each [`Step`] then names the one thing the
//! caller has to do next, and the method to call with its outcome.

use vstd::prelude::*;
use vstd::string::*;
use crate::failure::{failure_text, reported_size, Failure, Fault, Operation};
use crate::operations::{
    is_optimize_outcome, optimize_source, process_settles, process_single_image, quantize_image,
    quantize_settles, resize_image, resize_settles, unread_text,
};
use crate::options::{extension, extension_of, ProcessOptions, QuantOptions, ResizeOptions};
use crate::paths::{destination, destination_of, is_png, names_png, path_extension_of};
use crate::pipeline::{source_image, Encoded};
use crate::report::{is_failure, ProcessResult};

verus! {

/// What is to be done with an item.
#[derive(Debug, Clone)]
pub enum Task {
    /// The multi-stage pipeline.
    Process(ProcessOptions),
    /// Lossless recompression to PNG.
    Optimize,
    /// Resize to PNG.
    Resize(ResizeOptions),
    /// Palette compression to PNG.
    Quantize(QuantOptions),
}

/// An item whose source exists.
#[derive(Debug, Clone)]
pub struct Job {
    pub task: Task,
    /// The source path, as the caller gave it.
    pub path: String,
    /// The byte length of the source file.
    pub original_size: u64,
}

/// An item whose output is ready to be written.
#[derive(Debug, Clone)]
pub struct Pending {
    /// The result of the item if the write succeeds.
    pub success: ProcessResult,
    pub operation: Operation,
    /// The source path, as the caller gave it.
    pub source: String,
    /// What stands before the writer's words in the detail of a failed write.
    pub write_detail_head: String,
}

/// What the caller has to do next.
#[derive(Debug, Clone)]
pub enum Step {
    /// Make sure that the directory exists, creating it and its parents where
    /// it does not; then call [`Job::prepared`].
    Prepare { dir: String, job: Job },
    /// Read the source file; then call [`Job::loaded`].
    Read { job: Job },
    /// Write `data` to `path`; then call [`Pending::written`].
    Write { path: String, data: Vec<u8>, pending: Pending },
    /// Nothing: the item is done.
    Done { result: ProcessResult },
}

impl Task {
    /// The operation of a task.
    pub open spec fn operation(self) -> Operation {
        match self {
            Task::Process(_) => Operation::Process,
            Task::Optimize => Operation::Optimize,
            Task::Resize(_) => Operation::Resize,
            Task::Quantize(_) => Operation::Quantize,
        }
    }

    /// What follows the source's stem in the name of the output file.
    pub open spec fn suffix(self) -> Seq<char> {
        match self {
            Task::Process(options) => "_processed."@ + extension_of(options.output_format),
            Task::Optimize => "_optimized.png"@,
            Task::Resize(_) => "_resized.png"@,
            Task::Quantize(_) => "_quantized.png"@,
        }
    }

    /// The directory that the task asks its outputs to be put in, if any.
    pub open spec fn requested_dir(self) -> Option<Seq<char>> {
        match self {
            Task::Process(options) => match options.output_dir {
                Some(dir) => Some(dir@),
                None => None,
            },
            _ => None,
        }
    }

    /// Whether the source at `path` is recompressed as the PNG stream it is
    /// taken to be, without being decoded.
    pub open spec fn takes_as_png(self, path: Seq<char>) -> bool {
        self is Optimize && names_png(path_extension_of(path))
    }

    /// Where the output of the source at `path` goes.
    pub open spec fn destination(self, path: Seq<char>) -> Seq<char> {
        destination_of(path, self.requested_dir(), self.suffix())
    }

    /// Whether `r` is what the work of the task makes of the source at `path`,
    /// once it is known to exist: see the operation's own predicate.
    pub open spec fn settles(
        self,
        path: Seq<char>,
        content: Result<Vec<u8>, String>,
        original_size: u64,
        r: Result<Encoded, Failure>,
    ) -> bool {
        match self {
            Task::Process(options) => process_settles(r, path, content, original_size, options),
            Task::Optimize => is_optimize_outcome(
                r,
                self.takes_as_png(path),
                path,
                content,
                original_size,
            ),
            Task::Resize(options) => resize_settles(r, path, content, options),
            Task::Quantize(options) => quantize_settles(r, path, content, original_size, options),
        }
    }

    /// Returns the operation of a task.
    pub fn kind(&self) -> (operation: Operation)
        ensures
            operation == self.operation(),
    {
        match self {
            Task::Process(_) => Operation::Process,
            Task::Optimize => Operation::Optimize,
            Task::Resize(_) => Operation::Resize,
            Task::Quantize(_) => Operation::Quantize,
        }
    }

    /// Builds what follows the source's stem in the name of the output file.
    pub fn file_suffix(&self) -> (suffix: String)
        ensures
            suffix@ == self.suffix(),
    {
        match self {
            Task::Process(options) => {
                let mut suffix = String::from_str("_processed.");
                suffix.append(extension(options.output_format));
                suffix
            },
            Task::Optimize => String::from_str("_optimized.png"),
            Task::Resize(_) => String::from_str("_resized.png"),
            Task::Quantize(_) => String::from_str("_quantized.png"),
        }
    }
}

/// The stage at which an item fails whose source could not be read.
pub open spec fn unread_fault(task: Task, path: Seq<char>) -> Fault {
    if task.takes_as_png(path) {
        Fault::Recompress
    } else {
        Fault::Decode
    }
}

/// The detail of the failure of an item whose source could not be read, for
/// the reader's words `error`.
pub open spec fn unread_detail(task: Task, path: Seq<char>, error: Seq<char>) -> Seq<char> {
    if task.takes_as_png(path) {
        unread_text(path, error)
    } else {
        error
    }
}

/// What stands before the writer's words where a recompressed PNG source could
/// not be written to `path`.
pub open spec fn unwritten_head(path: Seq<char>) -> Seq<char> {
    "Failed to write to "@ + path + ": "@
}

/// Whether `result` reports the failure of `task` on the source at `path` at
/// the stage `fault`, with some detail.
pub open spec fn reports_fault(
    result: ProcessResult,
    task: Task,
    path: Seq<char>,
    original_size: u64,
    fault: Fault,
) -> bool {
    exists|detail: Seq<char>|
        is_failure(
            result,
            reported_size(task.operation(), fault, original_size),
            #[trigger] failure_text(task.operation(), fault, path, detail),
        )
}

/// Starts the work on one item. `found` is the byte length of the source file,
/// or `None` where no such file exists.
///
/// A missing source ends the item at once. Otherwise the next step is to
/// prepare the requested output directory, if the task names one, and else to
/// read the source.
pub fn start(task: Task, path: &str, found: Option<u64>) -> (step: Step)
    ensures
        match found {
            None => step matches Step::Done { result } && is_failure(
                result,
                0,
                failure_text(task.operation(), Fault::NotFound, path@, Seq::<char>::empty()),
            ),
            Some(size) => match task.requested_dir() {
                Some(wanted) => step matches Step::Prepare { dir, job } && dir@ == wanted
                    && job.task == task && job.path@ == path@ && job.original_size == size,
                None => step matches Step::Read { job } && job.task == task && job.path@ == path@
                    && job.original_size == size,
            },
        },
{
    match found {
        None => {
            let failure = Failure::new(Fault::NotFound, String::new());
            Step::Done { result: failure.into_result(task.kind(), path, 0) }
        },
        Some(size) => {
            let requested = match &task {
                Task::Process(options) => match &options.output_dir {
                    Some(dir) => Some(dir.clone()),
                    None => None,
                },
                _ => None,
            };
            let job = Job { task, path: String::from_str(path), original_size: size };
            match requested {
                Some(dir) => Step::Prepare { dir, job },
                None => Step::Read { job },
            }
        },
    }
}

impl Job {
    /// Goes on after the output directory was prepared. `error` holds the
    /// words of the failure where the directory could not be created.
    pub fn prepared(self, error: Option<String>) -> (step: Step)
        ensures
            match error {
                Some(e) => step matches Step::Done { result } && is_failure(
                    result,
                    self.original_size,
                    failure_text(self.task.operation(), Fault::DirectoryCreate, self.path@, e@),
                ),
                None => step matches Step::Read { job } && job == self,
            },
    {
        match error {
            Some(e) => {
                let failure = Failure::new(Fault::DirectoryCreate, e);
                Step::Done {
                    result: failure.into_result(
                        self.task.kind(),
                        self.path.as_str(),
                        self.original_size,
                    ),
                }
            },
            None => Step::Read { job: self },
        }
    }

    /// Does the work of the task on the bytes of the source.
    fn work(&self, as_png: bool, content: &Result<Vec<u8>, String>) -> (r: Result<Encoded, Failure>)
        requires
            as_png == self.task.takes_as_png(self.path@),
        ensures
            self.task.settles(self.path@, *content, self.original_size, r),
    {
        match &self.task {
            Task::Process(options) => process_single_image(
                self.path.as_str(),
                content,
                self.original_size,
                options,
            ),
            Task::Optimize => optimize_source(
                as_png,
                self.path.as_str(),
                content,
                self.original_size,
            ),
            Task::Resize(options) => resize_image(self.path.as_str(), content, options),
            Task::Quantize(options) => quantize_image(
                self.path.as_str(),
                content,
                self.original_size,
                options,
            ),
        }
    }

    /// Goes on after the source was read. `content` holds the bytes of the
    /// file, or the words of the failure where it could not be read.
    ///
    /// The item ends with the failure that the work of the task came to, or
    /// its output is ready: then the next step is to write it to its
    /// destination, and the pending result is the success of the task for
    /// that output. A source that could not be read, or that is to be decoded
    /// and does not decode, always ends the item.
    pub fn loaded(self, content: Result<Vec<u8>, String>) -> (step: Step)
        ensures
            match step {
                Step::Done { result } => exists|f: Failure|
                    #[trigger] self.task.settles(
                        self.path@,
                        content,
                        self.original_size,
                        Err::<Encoded, Failure>(f),
                    ) && is_failure(
                        result,
                        reported_size(self.task.operation(), f.fault, self.original_size),
                        failure_text(self.task.operation(), f.fault, self.path@, f.detail@),
                    ),
                Step::Write { path, data, pending } => {
                    &&& self.task.settles(
                        self.path@,
                        content,
                        self.original_size,
                        Ok::<Encoded, Failure>(
                            (Encoded { data, message: pending.success.message }),
                        ),
                    )
                    &&& path@ == self.task.destination(self.path@)
                    &&& pending.operation == self.task.operation()
                    &&& pending.source@ == self.path@
                    &&& pending.success.success
                    &&& pending.success.original_size == self.original_size
                    &&& pending.success.result_size == data@.len()
                    &&& pending.success.output_path@ == path@
                    &&& pending.write_detail_head@ == if self.task.takes_as_png(self.path@) {
                        unwritten_head(path@)
                    } else {
                        Seq::<char>::empty()
                    }
                },
                _ => false,
            },
            content matches Err(e) ==> (step matches Step::Done { result } && is_failure(
                result,
                reported_size(self.task.operation(), unread_fault(self.task, self.path@), self.original_size),
                failure_text(
                    self.task.operation(),
                    unread_fault(self.task, self.path@),
                    self.path@,
                    unread_detail(self.task, self.path@, e@),
                ),
            )),
            content matches Ok(data) ==> (!self.task.takes_as_png(self.path@) && source_image(
                self.path@,
                data@,
            ) is None ==> (step matches Step::Done { result } && reports_fault(
                result,
                self.task,
                self.path@,
                self.original_size,
                Fault::Decode,
            ))),
    {
        let operation = self.task.kind();
        let as_png = match &self.task {
            Task::Optimize => is_png(self.path.as_str()),
            _ => false,
        };
        match self.work(as_png, &content) {
            Err(failure) => {
                let ghost cause = failure;
                let ghost fault = failure.fault;
                let ghost detail = failure.detail@;
                let result = failure.into_result(operation, self.path.as_str(), self.original_size);
                assert(is_failure(
                    result,
                    reported_size(operation, fault, self.original_size),
                    failure_text(operation, fault, self.path@, detail),
                ));
                let step = Step::Done { result };
                assert(self.task.settles(
                    self.path@,
                    content,
                    self.original_size,
                    Err::<Encoded, Failure>(cause),
                ));
                assert(reports_fault(
                    step->result,
                    self.task,
                    self.path@,
                    self.original_size,
                    fault,
                ));
                step
            },
            Ok(out) => {
                let suffix = self.task.file_suffix();
                let path = match &self.task {
                    Task::Process(options) => match &options.output_dir {
                        Some(dir) => destination(
                            self.path.as_str(),
                            Some(dir.as_str()),
                            suffix.as_str(),
                        ),
                        None => destination(self.path.as_str(), None, suffix.as_str()),
                    },
                    _ => destination(self.path.as_str(), None, suffix.as_str()),
                };
                let mut write_detail_head = String::new();
                if as_png {
                    write_detail_head.append("Failed to write to ");
                    write_detail_head.append(path.as_str());
                    write_detail_head.append(": ");
                    assert(write_detail_head@ =~= unwritten_head(path@));
                }
                let success = ProcessResult::success(
                    self.original_size,
                    out.data.len() as u64,
                    path.clone(),
                    out.message,
                );
                let ghost made = out;
                let pending = Pending { success, operation, source: self.path, write_detail_head };
                assert(made == (Encoded { data: made.data, message: pending.success.message }));
                Step::Write { path, data: out.data, pending }
            },
        }
    }
}

impl Pending {
    /// Ends the item after its output was written. `error` holds the words of
    /// the failure where the file could not be written.
    pub fn written(self, error: Option<String>) -> (result: ProcessResult)
        ensures
            match error {
                None => result == self.success,
                Some(e) => is_failure(
                    result,
                    self.success.original_size,
                    failure_text(
                        self.operation,
                        Fault::Write,
                        self.source@,
                        self.write_detail_head@ + e@,
                    ),
                ),
            },
    {
        match error {
            None => self.success,
            Some(e) => {
                let mut detail = self.write_detail_head;
                detail.append(e.as_str());
                let failure = Failure::new(Fault::Write, detail);
                failure.into_result(self.operation, self.source.as_str(), self.success.original_size)
            },
        }
    }
}

} // verus!
