//! One request, step by step. The handler resolves the request's path; the
//! caller queries the filesystem and reports each outcome; the handler says
//! what comes next, until there is a response.

use crate::path::{resolve, resolved};
use crate::response::{error_response, failure, ok_response, reply, Response, ResponseView};
use crate::status::Failure;
use std::io::ErrorKind;
use std::path::PathBuf;
use vstd::prelude::*;

verus! {

/// Serves the files under one directory.
pub struct StaticFileHandler {
    root: PathBuf,
}

/// A request that waits for the metadata of the file it stands for.
#[derive(Debug, PartialEq, Eq)]
pub struct MetadataQuery {
    /// The path whose metadata is to be queried.
    pub path: PathBuf,
}

/// A request that waits for the contents of the file it stands for.
#[derive(Debug, PartialEq, Eq)]
pub struct FileRead {
    /// The path that is to be opened and read to its end.
    pub path: PathBuf,
    /// The length that the metadata gave, as a hint for the size of the
    /// buffer to read into. The file may turn out longer or shorter.
    pub capacity: usize,
}

/// What a request needs next, once its metadata query has come back.
#[derive(Debug, PartialEq, Eq)]
pub enum Step {
    /// The file is to be read.
    Read(FileRead),
    /// The request is answered; the file is not to be opened.
    Reply(Response),
}

/// A step as a mathematical value.
pub enum StepView {
    Read(FileRead),
    Reply(ResponseView),
}

impl View for Step {
    type V = StepView;

    open spec fn view(&self) -> StepView {
        match self {
            Step::Read(read) => StepView::Read(*read),
            Step::Reply(response) => StepView::Reply(response@),
        }
    }
}

/// The step that follows a metadata query for `path` which came back with
/// `outcome`: the length of the file, or the kind of the I/O error.
pub open spec fn after_metadata(path: PathBuf, outcome: Result<u64, ErrorKind>) -> StepView {
    match outcome {
        Ok(len) => StepView::Read(FileRead { path, capacity: len as usize }),
        Err(kind) => StepView::Reply(failure(Failure::classify(kind))),
    }
}

/// The outcome of reading a file, with the bytes as a sequence.
pub open spec fn read_view(outcome: Result<Vec<u8>, ErrorKind>) -> Result<Seq<u8>, ErrorKind> {
    match outcome {
        Ok(contents) => Ok(contents@),
        Err(kind) => Err(kind),
    }
}

impl StaticFileHandler {
    /// The directory that is served.
    pub closed spec fn root(&self) -> PathBuf {
        self.root
    }

    /// A handler that serves the files under `root`.
    pub fn new(root: PathBuf) -> (handler: StaticFileHandler)
        ensures
            handler.root() == root,
    {
        StaticFileHandler { root }
    }

    /// Takes up a request for `segments`, the components of the request's
    /// path in order: the file it stands for lies at the root with each
    /// segment joined on, and its metadata is what has to be asked for first.
    pub fn static_page(&self, segments: &[String]) -> (query: MetadataQuery)
        ensures
            query.path == resolved(self.root(), segments.deep_view()),
    {
        MetadataQuery { path: resolve(&self.root, segments) }
    }
}

impl MetadataQuery {
    /// Takes the outcome of the metadata query: the file's length, or the
    /// kind of the I/O error. A failure is answered at once. Otherwise the
    /// same path is to be read, with the length as the capacity hint, cut to
    /// the machine's word where it does not fit.
    pub fn on_metadata(self, outcome: Result<u64, ErrorKind>) -> (step: Step)
        ensures
            step@ == after_metadata(self.path, outcome),
    {
        match outcome {
            Ok(len) => {
                let capacity = #[verifier::truncate] (len as usize);
                Step::Read(FileRead { path: self.path, capacity })
            },
            Err(kind) => Step::Reply(error_response(kind)),
        }
    }
}

impl FileRead {
    /// Takes the outcome of opening the file and reading it to its end: the
    /// bytes read, however many, or the kind of the I/O error.
    pub fn on_contents(self, outcome: Result<Vec<u8>, ErrorKind>) -> (response: Response)
        ensures
            response@ == reply(read_view(outcome)),
    {
        match outcome {
            Ok(contents) => ok_response(contents),
            Err(kind) => error_response(kind),
        }
    }
}

} // verus!
