//! The library's error type.

use vstd::prelude::*;

verus! {

/// What can go wrong in the library's operations.
#[derive(Clone, Debug)]
pub enum WikiError {
    /// No namespace has this key.
    NamespaceKeyNotFound { key: i64 },
    /// No namespace has this name.
    NamespaceNameNotFound { name: Option<String> },
    /// A dump version was not 8 numerical digits.
    InvalidVersion,
    /// A dump version specifier was neither 8 numerical digits nor `latest`.
    InvalidVersionSpec,
    /// A regular expression failed to compile; the message is the `regex`
    /// crate's.
    Pattern { message: String },
    /// A decimal integer did not parse as a `u64`.
    ParseInt,
    /// A store page ID was not two integers separated by a `.`.
    StorePageIdSegments,
    /// A store page ID in bytes was not 16 bytes long.
    StorePageIdLength,
    /// A file's relative URL was the empty string.
    UrlEmpty,
    /// A file's relative URL did not start with `/`.
    UrlMissingInitialSlash,
    /// A segment of a file's relative URL had a character other than ASCII
    /// letters, digits, `-`, `_` and `.`, or was empty.
    UrlSegmentMismatch { segment: String },
    /// A segment of a file's relative URL was `.` or `..`.
    UrlDotSegment { segment: String },
    /// A dump has no versions.
    NoVersions,
    /// A dump version has no status for this job.
    JobNotFound { job: String },
    /// A job's status is not `done`.
    JobNotDone { status: String },
    /// A downloaded file's size was not the expected size.
    WrongFileSize { expected: u64, actual: u64 },
    /// A downloaded file's SHA1 hash was not the expected hash.
    WrongSha1 { expected: String, actual: String },
    /// A temporary directory was used after it was cleaned up.
    TempDirCleanedUp,
    /// The text of an XML element was not valid UTF-8, or held a malformed
    /// or unknown entity reference.
    XmlText,
    /// A page of a dump had no `<title>`.
    PageTitleMissing,
    /// A page of a dump had no `<id>`.
    PageIdMissing,
    /// A page of a dump had no `<ns>`.
    PageNsMissing,
    /// A page revision of a dump had no `<id>`.
    RevisionIdMissing,
    /// Reading the metadata of an existing job file failed.
    ExistingFileMetadata,
    /// Something other than a file was where a job file is kept.
    ExistingNotAFile,
    /// A user's regex was longer than allowed; its length in bytes.
    RegexTooLong { len: usize },
    /// A compression name was none of the known ones.
    InvalidCompression { value: String },
    /// A job file's metadata had no URL.
    FileUrlMissing,
    /// Both a job file and a job directory were given.
    BothFileAndDir,
    /// Neither a job file, a job directory, nor a dump, version and job
    /// were given.
    MissingSource,
    /// An HTTP cache mode name was none of the known ones.
    InvalidHttpCacheMode { value: String },
    /// HTML output was asked for where more than one page might be
    /// returned.
    HtmlForManyPages,
    /// Opening the output in a browser was asked for without HTML output.
    OpenNeedsHtml,
    /// More than one argument selecting pages was given; their names.
    ManySelectors { given: Vec<&'static str> },
    /// A request named a dump other than that of the loaded store.
    WrongStoreDump { requested: String, loaded: String },
    /// A revision's timestamp was not an RFC 3339 date and time.
    Timestamp,
    /// A required option was not given; its name.
    MissingOption { field: &'static str },
    /// A page revision had no text where one was required.
    RevisionTextMissing,
    /// A SHA1 hash was not a base-36 number.
    Sha1Base36,
    /// A SHA1 hash written in base 36 needed more than 160 bits.
    Sha1TooLarge,
    /// pandoc exited with failure: its exit code, if it had one, and its
    /// output and error output as text.
    PandocFailed { code: Option<i32>, stdout: String, stderr: String },
    /// A CSS selector did not parse.
    InvalidSelector,
}

} // verus!
