//! Data types used in Wikimedia data dumps and their metadata.

use vstd::prelude::*;
use crate::order::{entries_are_keyed, entries_keyed};
use crate::error::WikiError;
use crate::patterns::{regex_compiles, regex_is_match, regex_error_message, Pattern};
use crate::slug::{slug_of, title_to_slug};
use crate::text::{str_eq, chars_of, string_from_chars};
use crate::util::fmt::{sha1_digest, Sha1Hash};

verus! {

/// The status of one version of a dump: its jobs, by name.
#[derive(Clone, Debug)]
pub struct DumpVersionStatus {
    /// The jobs of this version with their status, in order of job name.
    pub jobs: Vec<(String, JobStatus)>,
    pub version: String,
}

/// Whether `k` is the first entry of the job named `name`.
pub open spec fn is_first_job(jobs: Seq<(String, JobStatus)>, name: Seq<char>, k: int) -> bool {
    &&& 0 <= k < jobs.len()
    &&& jobs[k].0@ == name
    &&& forall|j: int| 0 <= j < k ==> jobs[j].0@ != name
}

/// The entry of the job named `name`: the first with that name, if any.
pub open spec fn job_index(jobs: Seq<(String, JobStatus)>, name: Seq<char>) -> Option<int> {
    if exists|k: int| is_first_job(jobs, name, k) {
        Some(choose|k: int| is_first_job(jobs, name, k))
    } else {
        None
    }
}

impl DumpVersionStatus {
    /// The jobs asked for: the one named, which the version must have, or
    /// all of them, in order, when none is named.
    pub fn select_jobs(self, job_name: Option<&str>) -> (r: Result<Vec<(String, JobStatus)>, WikiError>)
        ensures
            match job_name {
                None => r matches Ok(v) && v@ == self.jobs@,
                Some(n) => match job_index(self.jobs@, n@) {
                    Some(i) => r matches Ok(v) && v@ == seq![self.jobs@[i]],
                    None => r matches Err(WikiError::JobNotFound { job }) && job@ == n@,
                },
            },
    {
        let n = match job_name {
            None => {
                return Ok(self.jobs);
            },
            Some(n) => n,
        };
        assert(job_name == Some(n));
        let ghost jobs0 = self.jobs@;
        let mut jobs = self.jobs;
        let mut i: usize = 0;
        while i < jobs.len()
            invariant
                jobs@ == jobs0,
                jobs0 == self.jobs@,
                job_name == Some(n),
                i <= jobs.len(),
                forall|j: int| 0 <= j < i ==> jobs0[j].0@ != n@,
            decreases jobs.len() - i,
        {
            if str_eq(jobs[i].0.as_str(), n) {
                assert(job_index(jobs0, n@) == Some(i as int)) by {
                    assert(is_first_job(jobs0, n@, i as int));
                    let k = choose|k: int| is_first_job(jobs0, n@, k);
                    if k < i {
                    } else if k > i {
                        assert(jobs0[i as int].0@ == n@);
                    }
                }
                let e = jobs.remove(i);
                let mut out: Vec<(String, JobStatus)> = Vec::new();
                out.push(e);
                assert(out@ =~= seq![jobs0[i as int]]);
                return Ok(out);
            }
            i = i + 1;
        }
        assert(job_index(jobs0, n@) is None);
        Err(WikiError::JobNotFound { job: n.to_string() })
    }
}

impl DumpVersionStatus {
    /// The invariant of a status, as the maps the server sends have it:
    /// jobs in strictly increasing order of name, and each job's files in
    /// strictly increasing order of name, so no name occurs twice.
    pub open spec fn wf(&self) -> bool {
        &&& entries_keyed(self.jobs@)
        &&& forall|i: int| 0 <= i < self.jobs@.len() ==> entries_keyed(#[trigger] self.jobs@[i].1.files@)
    }

    /// Whether the status keeps its invariant (see [`DumpVersionStatus::wf`]).
    pub fn is_keyed(&self) -> (r: bool)
        ensures
            r == self.wf(),
    {
        if !entries_are_keyed(&self.jobs) {
            return false;
        }
        let mut i: usize = 0;
        while i < self.jobs.len()
            invariant
                i <= self.jobs.len(),
                forall|j: int| 0 <= j < i ==> entries_keyed(#[trigger] self.jobs@[j].1.files@),
            decreases self.jobs.len() - i,
        {
            if !entries_are_keyed(&self.jobs[i].1.files) {
                return false;
            }
            i = i + 1;
        }
        true
    }
}

/// The status of one job of a dump version, with its files.
#[derive(Clone, Debug)]
pub struct JobStatus {
    pub status: String,
    pub updated: String,
    /// The job's files with their metadata, in order of file name.
    pub files: Vec<(String, FileMetadata)>,
}

/// Metadata about one file of a job.
#[derive(Clone, Debug)]
pub struct FileMetadata {
    /// File length in bytes. Missing for jobs with status "waiting".
    pub size: Option<u64>,
    /// File relative URL under the dumps root. Missing for jobs with status "waiting".
    pub url: Option<String>,
    /// Expected SHA1 hash of the file's data, formatted as a lowercase hex string.
    pub sha1: Option<String>,
    pub md5: Option<String>,
}

/// A job's status with totals over its files.
#[derive(Clone, Debug)]
pub struct JobOutput {
    pub name: String,
    /// Sum of the sizes of each file.
    pub files_size: u64,
    /// Count of files.
    pub files_count: usize,
    pub status: JobStatus,
}

/// A file's name with its metadata.
#[derive(Clone, Debug)]
pub struct FileInfoOutput {
    pub name: String,
    pub metadata: FileMetadata,
}

/// The name of a dump, e.g. `enwiki`.
#[derive(Clone, Debug, PartialEq, Eq, PartialOrd, Ord)]
pub struct DumpName(pub String);

/// A dump version: 8 digits, e.g. `20230301`.
#[derive(Clone, Debug, PartialEq, Eq, PartialOrd, Ord)]
pub struct Version(pub String);

/// Which version of a dump to use.
#[derive(Clone, Debug)]
pub enum VersionSpec {
    /// The most recent version.
    Latest,
    /// This version.
    Version(Version),
}

/// The name of a dump job, e.g. `articlesdump`.
#[derive(Clone, Debug, PartialEq, Eq, PartialOrd, Ord)]
pub struct JobName(pub String);

/// A page from a dump.
#[derive(Clone, Debug)]
pub struct Page {
    pub ns_id: u64,
    pub id: u64,
    pub title: String,
    pub revision: Option<Revision>,
}

/// The revision of a page in a dump.
#[derive(Clone, Debug)]
pub struct Revision {
    pub id: u64,
    pub parent_id: Option<u64>,
    pub timestamp: Option<Timestamp>,
    pub text: Option<String>,
    pub categories: Vec<CategoryName>,
    pub sha1: Option<Sha1Hash>,
}

/// What checking a revision's text against its SHA1 hash finds.
#[derive(Clone, Copy, Debug)]
pub enum Sha1Check {
    /// The revision has no text or no hash: nothing to check.
    NotChecked,
    /// The text's hash is the one given.
    Matches,
    /// The text's hash differs from the one given.
    Mismatch { expected: Sha1Hash, calculated: Sha1Hash },
}

/// Whether two hashes hold the same bytes.
fn sha1_bytes_eq(a: &Sha1Hash, b: &Sha1Hash) -> (r: bool)
    ensures
        r == (a.0@ == b.0@),
{
    let mut i: usize = 0;
    while i < 20
        invariant
            i <= 20,
            forall|j: int| 0 <= j < i ==> a.0@[j] == b.0@[j],
        decreases 20 - i,
    {
        if a.0[i] != b.0[i] {
            return false;
        }
        i = i + 1;
    }
    assert(a.0@ =~= b.0@);
    true
}

impl Revision {
    /// Checks the revision's text against its SHA1 hash, if it has both:
    /// the SHA1 of the text's UTF-8 bytes must be the hash given.
    pub fn check_sha1(&self) -> (r: Sha1Check)
        ensures
            match (self.text, self.sha1) {
                (Some(t), Some(h)) => {
                    let calculated = sha1_digest(vstd::utf8::encode_utf8(t@));
                    if h.0@ == calculated {
                        r is Matches
                    } else {
                        r matches Sha1Check::Mismatch { expected, calculated: c } && expected == h
                            && c.0@ == calculated
                    }
                },
                _ => r is NotChecked,
            },
    {
        match (&self.text, &self.sha1) {
            (Some(t), Some(h)) => {
                let calculated = Sha1Hash::calculate_from_bytes(t.as_str().as_bytes());
                if sha1_bytes_eq(h, &calculated) {
                    Sha1Check::Matches
                } else {
                    Sha1Check::Mismatch { expected: *h, calculated }
                }
            },
            _ => Sha1Check::NotChecked,
        }
    }
}

/// An instant with the UTC offset it was written with: seconds since the
/// Unix epoch, nanoseconds within the second, and the offset in seconds.
#[derive(Clone, Copy, Debug, PartialEq, Eq, Structural)]
pub struct Timestamp {
    pub secs: i64,
    pub nanos: u32,
    pub offset_secs: i32,
}

/// What `chrono::DateTime::<FixedOffset>::parse_from_rfc3339` gives for a
/// text, as (seconds since the epoch, nanoseconds, UTC offset in seconds);
/// `None` where the text is not an RFC 3339 date and time.
pub uninterp spec fn rfc3339_instant(s: Seq<char>) -> Option<(i64, u32, i32)>;

/// The timestamp that a named RFC 3339 result stands for.
pub open spec fn timestamp_of(t: Option<(i64, u32, i32)>) -> Option<Timestamp> {
    match t {
        Some((secs, nanos, offset_secs)) => Some(Timestamp { secs, nanos, offset_secs }),
        None => None,
    }
}

/// Calls `chrono::DateTime::<FixedOffset>::parse_from_rfc3339` and reads
/// the instant and offset of the result; named by [`rfc3339_instant`].
#[verifier::external_body]
fn parse_rfc3339(s: &str) -> (r: Option<Timestamp>)
    ensures
        r == timestamp_of(rfc3339_instant(s@)),
{
    match chrono::DateTime::<chrono::FixedOffset>::parse_from_rfc3339(s) {
        Ok(dt) => Some(Timestamp {
            secs: dt.timestamp(),
            nanos: dt.timestamp_subsec_nanos(),
            offset_secs: dt.offset().local_minus_utc(),
        }),
        Err(_) => None,
    }
}

impl Timestamp {
    /// Parses an RFC 3339 date and time, such as a revision's timestamp in
    /// a dump (`2017-06-04T21:45:26Z`).
    pub fn parse_rfc3339(s: &str) -> (r: Option<Timestamp>)
        ensures
            r == timestamp_of(rfc3339_instant(s@)),
    {
        parse_rfc3339(s)
    }
}

/// The name of a category, without the `Category:` prefix.
#[derive(Clone, Debug, PartialEq, Eq, PartialOrd, Ord)]
pub struct CategoryName(pub String);

/// The slug of a category name.
#[derive(Clone, Debug, PartialEq, Eq, PartialOrd, Ord)]
pub struct CategorySlug(pub String);

/// The pattern that a dump version must match: 8 numerical digits.
pub const VERSION_PATTERN: &'static str = "^\\d{8}$";

/// What parsing a dump version gives: the version if it matches
/// [`VERSION_PATTERN`].
pub open spec fn version_parse_ok(s: Seq<char>) -> bool {
    regex_compiles(VERSION_PATTERN@) && regex_is_match(VERSION_PATTERN@, s)
}

impl CategoryName {
    /// The category's slug: its name with spaces turned into underscores.
    pub fn to_slug(&self) -> (r: CategorySlug)
        ensures
            r.0@ == slug_of(self.0@),
    {
        CategorySlug(title_to_slug(self.0.as_str()))
    }

    /// The category as a page title: `Category:` followed by its name.
    pub fn to_display_string(&self) -> (r: String)
        ensures
            r@ == "Category:"@ + self.0@,
    {
        let mut v = chars_of("Category:");
        let mut name = chars_of(self.0.as_str());
        v.append(&mut name);
        string_from_chars(&v)
    }
}

impl Page {
    /// The text of the page's revision, if it has a revision with text.
    pub fn revision_text(&self) -> (r: Option<&str>)
        ensures
            match self.revision {
                Some(rev) => match rev.text {
                    Some(t) => r matches Some(s) && s@ == t@,
                    None => r is None,
                },
                None => r is None,
            },
    {
        match &self.revision {
            Some(rev) => match &rev.text {
                Some(t) => Some(t.as_str()),
                None => None,
            },
            None => None,
        }
    }
}

impl DumpName {
    /// A dump name; any string is accepted.
    pub fn parse(s: &str) -> (r: DumpName)
        ensures
            r.0@ == s@,
    {
        DumpName(s.to_owned())
    }
}

impl JobName {
    /// A job name; any string is accepted.
    pub fn parse(s: &str) -> (r: JobName)
        ensures
            r.0@ == s@,
    {
        JobName(s.to_owned())
    }
}

fn pattern_error(e: &::regex::Error) -> (r: WikiError)
    ensures
        r is Pattern,
{
    WikiError::Pattern { message: regex_error_message(e) }
}

impl Version {
    /// A dump version, which must be 8 numerical digits (as the `regex`
    /// crate's `\d` reads them).
    pub fn parse(s: &str) -> (r: Result<Version, WikiError>)
        ensures
            match r {
                Ok(v) => version_parse_ok(s@) && v.0@ == s@,
                Err(e) => !version_parse_ok(s@) && (if regex_compiles(VERSION_PATTERN@) {
                    e is InvalidVersion
                } else {
                    e is Pattern
                }),
            },
    {
        let re = match Pattern::new(VERSION_PATTERN) {
            Ok(re) => re,
            Err(e) => {
                return Err(pattern_error(&e));
            },
        };
        if re.is_match(s) {
            Ok(Version(s.to_owned()))
        } else {
            Err(WikiError::InvalidVersion)
        }
    }
}

impl VersionSpec {
    /// A version specifier: `latest`, or a dump version of 8 numerical
    /// digits.
    pub fn parse(s: &str) -> (r: Result<VersionSpec, WikiError>)
        ensures
            s@ == "latest"@ ==> r matches Ok(VersionSpec::Latest),
            s@ != "latest"@ ==> match r {
                Ok(VersionSpec::Version(v)) => version_parse_ok(s@) && v.0@ == s@,
                Ok(VersionSpec::Latest) => false,
                Err(e) => !version_parse_ok(s@) && (if regex_compiles(VERSION_PATTERN@) {
                    e is InvalidVersionSpec
                } else {
                    e is Pattern
                }),
            },
    {
        if str_eq(s, "latest") {
            return Ok(VersionSpec::Latest);
        }
        match Version::parse(s) {
            Ok(v) => Ok(VersionSpec::Version(v)),
            Err(WikiError::InvalidVersion) => Err(WikiError::InvalidVersionSpec),
            Err(e) => Err(e),
        }
    }
}

/// The total of the sizes of a job's files, counting a missing size as 0.
pub open spec fn files_size_total(files: Seq<(String, FileMetadata)>) -> nat
    decreases files.len(),
{
    if files.len() == 0 {
        0
    } else {
        files_size_total(files.drop_last()) + match files.last().1.size {
            Some(n) => n as nat,
            None => 0,
        }
    }
}

impl JobOutput {
    /// A job's output record: the job's name and status with the total size
    /// and count of its files. `None` when the total size exceeds a `u64`.
    pub fn from_status(name: String, status: JobStatus) -> (r: Option<JobOutput>)
        ensures
            match r {
                Some(o) => {
                    &&& o.name == name
                    &&& o.files_size as nat == files_size_total(status.files@)
                    &&& o.files_count == status.files.len()
                    &&& o.status == status
                },
                None => files_size_total(status.files@) > u64::MAX,
            },
    {
        let mut total: u64 = 0;
        let mut i: usize = 0;
        while i < status.files.len()
            invariant
                i <= status.files.len(),
                total as nat == files_size_total(status.files@.take(i as int)),
            decreases status.files.len() - i,
        {
            assert(status.files@.take((i + 1) as int).drop_last() =~= status.files@.take(i as int));
            let size: u64 = match status.files[i].1.size {
                Some(n) => n,
                None => 0,
            };
            match total.checked_add(size) {
                Some(t) => {
                    total = t;
                },
                None => {
                    proof {
                        lemma_files_size_total_prefix_le(status.files@, (i + 1) as int);
                    }
                    return None;
                },
            }
            i = i + 1;
        }
        assert(status.files@.take(status.files.len() as int) =~= status.files@);
        let count = status.files.len();
        Some(JobOutput { name, files_size: total, files_count: count, status })
    }
}

proof fn lemma_files_size_total_prefix_le(files: Seq<(String, FileMetadata)>, k: int)
    requires
        0 <= k <= files.len(),
    ensures
        files_size_total(files.take(k)) <= files_size_total(files),
    decreases files.len() - k,
{
    if k < files.len() {
        lemma_files_size_total_prefix_le(files, k + 1);
        assert(files.take(k + 1).drop_last() =~= files.take(k));
    } else {
        assert(files.take(k) =~= files);
    }
}


impl std::str::FromStr for DumpName {
    type Err = WikiError;

    fn from_str(s: &str) -> (r: Result<DumpName, WikiError>)
        ensures
            r matches Ok(d) && d.0@ == s@,
    {
        Ok(DumpName::parse(s))
    }
}

impl std::str::FromStr for JobName {
    type Err = WikiError;

    fn from_str(s: &str) -> (r: Result<JobName, WikiError>)
        ensures
            r matches Ok(j) && j.0@ == s@,
    {
        Ok(JobName::parse(s))
    }
}

impl std::str::FromStr for Version {
    type Err = WikiError;

    fn from_str(s: &str) -> (r: Result<Version, WikiError>)
        ensures
            match r {
                Ok(v) => version_parse_ok(s@) && v.0@ == s@,
                Err(e) => !version_parse_ok(s@) && (if regex_compiles(VERSION_PATTERN@) {
                    e is InvalidVersion
                } else {
                    e is Pattern
                }),
            },
    {
        Version::parse(s)
    }
}

impl std::str::FromStr for VersionSpec {
    type Err = WikiError;

    fn from_str(s: &str) -> (r: Result<VersionSpec, WikiError>)
        ensures
            s@ == "latest"@ ==> r matches Ok(VersionSpec::Latest),
            s@ != "latest"@ ==> match r {
                Ok(VersionSpec::Version(v)) => version_parse_ok(s@) && v.0@ == s@,
                Ok(VersionSpec::Latest) => false,
                Err(e) => !version_parse_ok(s@) && (if regex_compiles(VERSION_PATTERN@) {
                    e is InvalidVersionSpec
                } else {
                    e is Pattern
                }),
            },
    {
        VersionSpec::parse(s)
    }
}

} // verus!
