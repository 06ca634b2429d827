//! Local copies of Wikimedia dump files: where they are kept, how they are
//! compressed, and which of a job's files hold its pages.

use vstd::prelude::*;
use crate::args::{DumpNameArg, JobNameArg};
use crate::dump::types::{DumpName, FileMetadata, JobName, Version};
use crate::error::WikiError;
use crate::paths::{join_path, last_piece, path_join, split_on};
use crate::patterns::{regex_compiles, regex_is_match, Pattern};
use crate::text::{chars_of, string_from_chars};
use crate::user_regex::UserRegex;

verus! {

/// The lowercase of an ASCII letter; other characters are unchanged.
pub open spec fn ascii_lower(c: char) -> char {
    if 'A' <= c && c <= 'Z' {
        ((c as u32) + 32) as char
    } else {
        c
    }
}

/// Whether two texts are equal but for the case of ASCII letters
/// (`str::eq_ignore_ascii_case`).
pub open spec fn eq_ignore_ascii_case(a: Seq<char>, b: Seq<char>) -> bool {
    a.len() == b.len() && forall|i: int| 0 <= i < a.len() ==> ascii_lower(a[i]) == ascii_lower(b[i])
}

fn lower_char(c: char) -> (r: char)
    ensures
        r == ascii_lower(c),
{
    if 'A' <= c && c <= 'Z' {
        ((c as u8) + 32) as char
    } else {
        c
    }
}

/// Whether two texts are equal but for the case of ASCII letters.
pub fn str_eq_ignore_ascii_case(a: &str, b: &str) -> (r: bool)
    ensures
        r == eq_ignore_ascii_case(a@, b@),
{
    let x = chars_of(a);
    let y = chars_of(b);
    if x.len() != y.len() {
        return false;
    }
    let mut i: usize = 0;
    while i < x.len()
        invariant
            i <= x.len(),
            x.len() == y.len(),
            x@ == a@,
            y@ == b@,
            forall|j: int| 0 <= j < i ==> ascii_lower(x@[j]) == ascii_lower(y@[j]),
        decreases x.len() - i,
    {
        if lower_char(x[i]) != lower_char(y[i]) {
            return false;
        }
        i = i + 1;
    }
    true
}

/// How a dump file is compressed.
#[derive(Clone, Copy, Debug, PartialEq, Eq, Structural)]
pub enum Compression {
    Bzip2,
    LZ4,
    Zstd,
    Uncompressed,
}

/// The compression that a name denotes, ignoring the case of ASCII
/// letters: `bzip2` (or its alias `bz2`), `lz4`, `zstd` or `none`.
pub open spec fn compression_named(s: Seq<char>) -> Option<Compression> {
    if eq_ignore_ascii_case(s, "bzip2"@) || eq_ignore_ascii_case(s, "bz2"@) {
        Some(Compression::Bzip2)
    } else if eq_ignore_ascii_case(s, "lz4"@) {
        Some(Compression::LZ4)
    } else if eq_ignore_ascii_case(s, "zstd"@) {
        Some(Compression::Zstd)
    } else if eq_ignore_ascii_case(s, "none"@) {
        Some(Compression::Uncompressed)
    } else {
        None
    }
}

/// The start of the pattern that names the files of a job holding its
/// pages.
pub const DUMP_FILE_PATTERN_PREFIX: &'static str = ".*pages.*articles(-multistream)?.*\\.xml.*";

/// The pattern of the names of bzip2-compressed page files.
pub const DUMP_FILE_PATTERN_BZIP2: &'static str = ".*pages.*articles(-multistream)?.*\\.xml.*\\.bz2$";

/// The pattern of the names of LZ4-compressed page files.
pub const DUMP_FILE_PATTERN_LZ4: &'static str = ".*pages.*articles(-multistream)?.*\\.xml.*\\.lz4$";

/// The pattern of the names of zstd-compressed page files.
pub const DUMP_FILE_PATTERN_ZSTD: &'static str = ".*pages.*articles(-multistream)?.*\\.xml.*\\.zstd$";

/// The pattern of the names of uncompressed page files.
pub const DUMP_FILE_PATTERN_NONE: &'static str = ".*pages.*articles(-multistream)?.*\\.xml.*$";

/// The pattern of the names of page files with a given compression.
pub open spec fn dump_file_pattern(c: Compression) -> Seq<char> {
    match c {
        Compression::Bzip2 => DUMP_FILE_PATTERN_BZIP2@,
        Compression::LZ4 => DUMP_FILE_PATTERN_LZ4@,
        Compression::Zstd => DUMP_FILE_PATTERN_ZSTD@,
        Compression::Uncompressed => DUMP_FILE_PATTERN_NONE@,
    }
}

impl Compression {
    /// All compressions, in the order names are tried.
    pub fn value_variants() -> (r: Vec<Compression>)
        ensures
            r@ == seq![Compression::Bzip2, Compression::LZ4, Compression::Zstd, Compression::Uncompressed],
    {
        let mut v = Vec::new();
        v.push(Compression::Bzip2);
        v.push(Compression::LZ4);
        v.push(Compression::Zstd);
        v.push(Compression::Uncompressed);
        v
    }

    /// The compression's name on the command line.
    pub fn name(&self) -> (r: &'static str)
        ensures
            r@ == match *self {
                Compression::Bzip2 => "bzip2"@,
                Compression::LZ4 => "lz4"@,
                Compression::Zstd => "zstd"@,
                Compression::Uncompressed => "none"@,
            },
    {
        match self {
            Compression::Bzip2 => "bzip2",
            Compression::LZ4 => "lz4",
            Compression::Zstd => "zstd",
            Compression::Uncompressed => "none",
        }
    }

    /// The compression as it is displayed: the variant's name.
    pub fn to_display_string(&self) -> (r: String)
        ensures
            r@ == match *self {
                Compression::Bzip2 => "Bzip2"@,
                Compression::LZ4 => "LZ4"@,
                Compression::Zstd => "Zstd"@,
                Compression::Uncompressed => "None"@,
            },
    {
        let s = match self {
            Compression::Bzip2 => "Bzip2",
            Compression::LZ4 => "LZ4",
            Compression::Zstd => "Zstd",
            Compression::Uncompressed => "None",
        };
        s.to_owned()
    }

    /// Parses a compression's name (see [`compression_named`]); the error
    /// holds the text.
    pub fn parse(s: &str) -> (r: Result<Compression, WikiError>)
        ensures
            match compression_named(s@) {
                Some(c) => r == Ok::<Compression, WikiError>(c),
                None => (r matches Err(WikiError::InvalidCompression { value }) && value@ == s@),
            },
    {
        if str_eq_ignore_ascii_case(s, "bzip2") || str_eq_ignore_ascii_case(s, "bz2") {
            Ok(Compression::Bzip2)
        } else if str_eq_ignore_ascii_case(s, "lz4") {
            Ok(Compression::LZ4)
        } else if str_eq_ignore_ascii_case(s, "zstd") {
            Ok(Compression::Zstd)
        } else if str_eq_ignore_ascii_case(s, "none") {
            Ok(Compression::Uncompressed)
        } else {
            Err(WikiError::InvalidCompression { value: s.to_owned() })
        }
    }

    /// The pattern of the names of page files with this compression.
    pub fn dump_file_pattern(&self) -> (r: &'static str)
        ensures
            r@ == dump_file_pattern(*self),
    {
        match self {
            Compression::Bzip2 => DUMP_FILE_PATTERN_BZIP2,
            Compression::LZ4 => DUMP_FILE_PATTERN_LZ4,
            Compression::Zstd => DUMP_FILE_PATTERN_ZSTD,
            Compression::Uncompressed => DUMP_FILE_PATTERN_NONE,
        }
    }
}

impl std::str::FromStr for Compression {
    type Err = WikiError;

    fn from_str(s: &str) -> (r: Result<Compression, WikiError>)
        ensures
            match compression_named(s@) {
                Some(c) => r == Ok::<Compression, WikiError>(c),
                None => (r matches Err(WikiError::InvalidCompression { value }) && value@ == s@),
            },
    {
        Compression::parse(s)
    }
}

/// Whether a file of a job directory holds pages to read: its name matches
/// the pattern of page files with the compression, and the user's regex if
/// one is given. Should the fixed pattern fail to compile, no file does.
pub fn is_dump_file_name(name: &str, compression: Compression, user_regex: Option<&UserRegex>) -> (r: bool)
    ensures
        r == (regex_compiles(dump_file_pattern(compression)) && regex_is_match(
            dump_file_pattern(compression),
            name@,
        ) && match user_regex {
            Some(re) => regex_is_match(re.0.source_view(), name@),
            None => true,
        }),
{
    let re = match Pattern::new(compression.dump_file_pattern()) {
        Ok(re) => re,
        Err(_) => {
            return false;
        },
    };
    if !re.is_match(name) {
        return false;
    }
    match user_regex {
        Some(u) => u.is_match(name),
        None => true,
    }
}

/// A job's directory relative to the dumps directory:
/// `{dump}/{version}/{job}`.
pub open spec fn job_rel_path(dump: Seq<char>, version: Seq<char>, job: Seq<char>) -> Seq<char> {
    dump + seq!['/'] + version + seq!['/'] + job
}

fn job_rel_path_string(dump: &str, version: &str, job: &str) -> (r: String)
    ensures
        r@ == job_rel_path(dump@, version@, job@),
{
    let mut v = chars_of(dump);
    v.push('/');
    let mut ver = chars_of(version);
    v.append(&mut ver);
    v.push('/');
    let mut j = chars_of(job);
    v.append(&mut j);
    string_from_chars(&v)
}

/// The directory of a job's files under the output directory:
/// `{out_dir}/dumps/{dump}/{version}/{job}`.
pub fn job_path(out_dir: &str, dump_name: &DumpNameArg, version: &Version, job_name: &JobNameArg) -> (r: String)
    ensures
        r@ == path_join(out_dir@, "dumps/"@ + job_rel_path(dump_name.value.0@, version.0@, job_name.value.0@)),
{
    let rel = job_rel_path_string(dump_name.value.0.as_str(), version.0.as_str(), job_name.value.0.as_str());
    let mut v = chars_of("dumps/");
    let mut r = chars_of(rel.as_str());
    v.append(&mut r);
    let p = string_from_chars(&v);
    join_path(out_dir, p.as_str())
}

/// Where a job file is kept: in the job's directory (see [`job_path`]),
/// under the last segment of its relative URL. A file without a URL has
/// no place.
pub fn job_file_path(
    out_dir: &str,
    dump_name: &DumpNameArg,
    version: &Version,
    job_name: &JobNameArg,
    file_meta: &FileMetadata,
) -> (r: Result<String, WikiError>)
    ensures
        match file_meta.url {
            None => r matches Err(WikiError::FileUrlMissing),
            Some(u) => (r matches Ok(p) && p@ == path_join(
                path_join(
                    out_dir@,
                    "dumps/"@ + job_rel_path(dump_name.value.0@, version.0@, job_name.value.0@),
                ),
                split_on(u@, '/').last(),
            )),
        },
{
    match &file_meta.url {
        None => Err(WikiError::FileUrlMissing),
        Some(u) => {
            let name = last_piece(u.as_str(), '/');
            let dir = job_path(out_dir, dump_name, version, job_name);
            Ok(join_path(dir.as_str(), name.as_str()))
        },
    }
}

/// One dump file to read.
pub struct FileSpec {
    pub compression: Compression,
    pub path: String,
    /// Where to start reading, in bytes.
    pub seek: Option<u64>,
}

/// A directory of dump files to read.
pub struct DirSpec {
    pub path: String,
    pub file_name_regex: Option<UserRegex>,
}

/// A job's dump files to read, in the dumps directory `out_dir`.
pub struct JobSpec {
    pub out_dir: String,
    pub dump: DumpName,
    pub version: Version,
    pub job: JobName,
    pub file_name_regex: Option<UserRegex>,
}

/// What to read pages from.
pub enum SourceSpec {
    Job(JobSpec),
    Dir(DirSpec),
    File(FileSpec),
}

/// Which dump files to read pages from, how they are compressed, and how
/// many pages to read at most.
pub struct OpenSpec {
    pub source: SourceSpec,
    pub limit: Option<u64>,
    pub compression: Compression,
}

impl JobSpec {
    /// The job's directory: `{out_dir}/{dump}/{version}/{job}`.
    pub fn dir(&self) -> (r: String)
        ensures
            r@ == path_join(self.out_dir@, job_rel_path(self.dump.0@, self.version.0@, self.job.0@)),
    {
        let rel = job_rel_path_string(self.dump.0.as_str(), self.version.0.as_str(), self.job.0.as_str());
        join_path(self.out_dir.as_str(), rel.as_str())
    }
}

impl OpenSpec {
    /// The directory whose page files are read, with the user's regex that
    /// filters them; `None` when a single file is read.
    pub fn source_dir(&self) -> (r: Option<(String, Option<&UserRegex>)>)
        ensures
            match self.source {
                SourceSpec::File(_) => r is None,
                SourceSpec::Dir(d) => (r matches Some((p, re)) && p@ == d.path@ && match d.file_name_regex {
                    Some(x) => re == Some(&x),
                    None => re is None,
                }),
                SourceSpec::Job(j) => (r matches Some((p, re)) && p@ == path_join(
                    j.out_dir@,
                    job_rel_path(j.dump.0@, j.version.0@, j.job.0@),
                ) && match j.file_name_regex {
                    Some(x) => re == Some(&x),
                    None => re is None,
                }),
            },
    {
        match &self.source {
            SourceSpec::File(_) => None,
            SourceSpec::Dir(d) => Some((d.path.clone(), d.file_name_regex.as_ref())),
            SourceSpec::Job(j) => Some((j.dir(), j.file_name_regex.as_ref())),
        }
    }
}

/// The sum of some lengths.
pub open spec fn sum_lens(lens: Seq<u64>) -> nat
    decreases lens.len(),
{
    if lens.len() == 0 {
        0
    } else {
        sum_lens(lens.drop_last()) + lens.last() as nat
    }
}

proof fn lemma_sum_lens_prefix_le(lens: Seq<u64>, k: int)
    requires
        0 <= k <= lens.len(),
    ensures
        sum_lens(lens.take(k)) <= sum_lens(lens),
    decreases lens.len() - k,
{
    if k < lens.len() {
        lemma_sum_lens_prefix_le(lens, k + 1);
        assert(lens.take(k + 1).drop_last() =~= lens.take(k));
    } else {
        assert(lens.take(k) =~= lens);
    }
}

/// The total length of the files to read, from their lengths.
pub fn files_total_len(lens: &Vec<u64>) -> (r: u64)
    requires
        sum_lens(lens@) <= u64::MAX,
    ensures
        r == sum_lens(lens@),
{
    let mut total: u64 = 0;
    let mut i: usize = 0;
    while i < lens.len()
        invariant
            i <= lens.len(),
            sum_lens(lens@) <= u64::MAX,
            total == sum_lens(lens@.take(i as int)),
        decreases lens.len() - i,
    {
        assert(lens@.take((i + 1) as int).drop_last() =~= lens@.take(i as int));
        proof {
            lemma_sum_lens_prefix_le(lens@, (i + 1) as int);
        }
        total = total + lens[i];
        i = i + 1;
    }
    assert(lens@.take(lens.len() as int) =~= lens@);
    total
}

/// Each compression's own name parses back to it.
pub proof fn lemma_compression_name_roundtrip(c: Compression)
    ensures
        compression_named(match c {
            Compression::Bzip2 => "bzip2"@,
            Compression::LZ4 => "lz4"@,
            Compression::Zstd => "zstd"@,
            Compression::Uncompressed => "none"@,
        }) == Some(c),
{
    reveal_strlit("bzip2");
    reveal_strlit("bz2");
    reveal_strlit("lz4");
    reveal_strlit("zstd");
    reveal_strlit("none");
    match c {
        Compression::Bzip2 => {
            assert(eq_ignore_ascii_case("bzip2"@, "bzip2"@));
        },
        Compression::LZ4 => {
            assert(!eq_ignore_ascii_case("lz4"@, "bzip2"@));
            assert(!eq_ignore_ascii_case("lz4"@, "bz2"@)) by {
                assert(ascii_lower("lz4"@[0]) != ascii_lower("bz2"@[0]));
            }
            assert(eq_ignore_ascii_case("lz4"@, "lz4"@));
        },
        Compression::Zstd => {
            assert(!eq_ignore_ascii_case("zstd"@, "bzip2"@));
            assert(!eq_ignore_ascii_case("zstd"@, "bz2"@));
            assert(!eq_ignore_ascii_case("zstd"@, "lz4"@));
            assert(eq_ignore_ascii_case("zstd"@, "zstd"@));
        },
        Compression::Uncompressed => {
            assert(!eq_ignore_ascii_case("none"@, "bzip2"@));
            assert(!eq_ignore_ascii_case("none"@, "bz2"@));
            assert(!eq_ignore_ascii_case("none"@, "lz4"@));
            assert(!eq_ignore_ascii_case("none"@, "zstd"@)) by {
                assert(ascii_lower("none"@[0]) != ascii_lower("zstd"@[0]));
            }
            assert(eq_ignore_ascii_case("none"@, "none"@));
        },
    }
}

/// Compression names are read regardless of the case of their letters.
pub proof fn lemma_compression_named_ignores_ascii_case(a: Seq<char>, b: Seq<char>)
    requires
        eq_ignore_ascii_case(a, b),
    ensures
        compression_named(a) == compression_named(b),
{
    assert forall|t: Seq<char>| eq_ignore_ascii_case(a, t) == eq_ignore_ascii_case(b, t) by {
        if eq_ignore_ascii_case(a, t) {
            assert forall|i: int| 0 <= i < b.len() implies ascii_lower(b[i]) == ascii_lower(t[i]) by {
                assert(ascii_lower(a[i]) == ascii_lower(b[i]));
            }
        }
        if eq_ignore_ascii_case(b, t) {
            assert forall|i: int| 0 <= i < a.len() implies ascii_lower(a[i]) == ascii_lower(t[i]) by {
                assert(ascii_lower(a[i]) == ascii_lower(b[i]));
            }
        }
    }
    assert(eq_ignore_ascii_case(a, "bzip2"@) == eq_ignore_ascii_case(b, "bzip2"@));
    assert(eq_ignore_ascii_case(a, "bz2"@) == eq_ignore_ascii_case(b, "bz2"@));
    assert(eq_ignore_ascii_case(a, "lz4"@) == eq_ignore_ascii_case(b, "lz4"@));
    assert(eq_ignore_ascii_case(a, "zstd"@) == eq_ignore_ascii_case(b, "zstd"@));
    assert(eq_ignore_ascii_case(a, "none"@) == eq_ignore_ascii_case(b, "none"@));
}

} // verus!
