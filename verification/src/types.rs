//! Metadata of dump versions, jobs and files, as the dumps server reports it
//! for jobs that are done (every file has a size and a URL).

use vstd::prelude::*;
use crate::order::{entries_are_keyed, entries_keyed};

pub use crate::dump::types::Version;

verus! {

/// The status of one version of a dump: its jobs, by name.
#[derive(Clone, Debug)]
pub struct DumpVersionStatus {
    /// The jobs of this version with their status, in order of job name.
    pub jobs: Vec<(String, JobStatus)>,
    pub version: String,
}

impl DumpVersionStatus {
    /// The invariant of a status, as the maps the server sends have it:
    /// jobs in strictly increasing order of name, and each job's files in
    /// strictly increasing order of name, so no name occurs twice.
    pub open spec fn wf(&self) -> bool {
        &&& entries_keyed(self.jobs@)
        &&& forall|i: int| 0 <= i < self.jobs@.len() ==> entries_keyed(#[trigger] self.jobs@[i].1.files@)
    }

    /// Whether the status keeps its invariant (see [`DumpVersionStatus::wf`]).
    pub fn is_keyed(&self) -> (r: bool)
        ensures
            r == self.wf(),
    {
        if !entries_are_keyed(&self.jobs) {
            return false;
        }
        let mut i: usize = 0;
        while i < self.jobs.len()
            invariant
                i <= self.jobs.len(),
                forall|j: int| 0 <= j < i ==> entries_keyed(#[trigger] self.jobs@[j].1.files@),
            decreases self.jobs.len() - i,
        {
            if !entries_are_keyed(&self.jobs[i].1.files) {
                return false;
            }
            i = i + 1;
        }
        true
    }
}

/// The status of one job of a dump version, with its files.
#[derive(Clone, Debug)]
pub struct JobStatus {
    pub status: String,
    pub updated: String,
    /// The job's files with their metadata, in order of file name.
    pub files: Vec<(String, FileMetadata)>,
}

/// Metadata about one file of a finished job.
#[derive(Clone, Debug)]
pub struct FileMetadata {
    /// File length in bytes.
    pub size: u64,
    /// File relative URL under the dumps root.
    pub url: String,
    /// Expected SHA1 hash of the file's data, formatted as a hex string.
    pub sha1: Option<String>,
    pub md5: Option<String>,
}

/// The name of a dump, e.g. `enwiki`.
#[derive(Clone, Debug, PartialEq, Eq, PartialOrd, Ord)]
pub struct Dump(pub String);

} // verus!
