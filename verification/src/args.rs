//! The command line's arguments as values, and the decisions made from
//! them: which dump files to read, and where output goes.

use vstd::prelude::*;
use crate::dump::local::{Compression, DirSpec, FileSpec, JobSpec, OpenSpec, SourceSpec};
use crate::dump::types::{DumpName, JobName, Version, VersionSpec};
use crate::error::WikiError;
use crate::paths::{join_path, path_join};
use crate::store::StoreOptions;
use crate::text::str_eq;
use crate::user_regex::UserRegex;

verus! {

/// How HTTP responses are cached (the modes of the `http-cache` crate).
#[derive(Clone, Copy, Debug, PartialEq, Eq, Structural)]
pub enum HttpCacheMode {
    Default,
    NoStore,
    Reload,
    NoCache,
    ForceCache,
    OnlyIfCached,
}

/// The cache mode that a name denotes: the mode's name exactly.
pub open spec fn http_cache_mode_named(s: Seq<char>) -> Option<HttpCacheMode> {
    if s == "Default"@ {
        Some(HttpCacheMode::Default)
    } else if s == "NoStore"@ {
        Some(HttpCacheMode::NoStore)
    } else if s == "Reload"@ {
        Some(HttpCacheMode::Reload)
    } else if s == "NoCache"@ {
        Some(HttpCacheMode::NoCache)
    } else if s == "ForceCache"@ {
        Some(HttpCacheMode::ForceCache)
    } else if s == "OnlyIfCached"@ {
        Some(HttpCacheMode::OnlyIfCached)
    } else {
        None
    }
}

/// Parses an HTTP cache mode from its name.
#[derive(Clone, Copy, Debug)]
pub struct HttpCacheModeParser;

impl HttpCacheModeParser {
    /// The mode named by `value` (see [`http_cache_mode_named`]); the error
    /// holds the text.
    pub fn parse_ref(&self, value: &str) -> (r: Result<HttpCacheMode, WikiError>)
        ensures
            match http_cache_mode_named(value@) {
                Some(m) => r == Ok::<HttpCacheMode, WikiError>(m),
                None => (r matches Err(WikiError::InvalidHttpCacheMode { value: v }) && v@ == value@),
            },
    {
        if str_eq(value, "Default") {
            Ok(HttpCacheMode::Default)
        } else if str_eq(value, "NoStore") {
            Ok(HttpCacheMode::NoStore)
        } else if str_eq(value, "Reload") {
            Ok(HttpCacheMode::Reload)
        } else if str_eq(value, "NoCache") {
            Ok(HttpCacheMode::NoCache)
        } else if str_eq(value, "ForceCache") {
            Ok(HttpCacheMode::ForceCache)
        } else if str_eq(value, "OnlyIfCached") {
            Ok(HttpCacheMode::OnlyIfCached)
        } else {
            Err(WikiError::InvalidHttpCacheMode { value: value.to_owned() })
        }
    }

    /// The names of the modes, sorted.
    pub fn possible_values(&self) -> (r: Vec<&'static str>)
        ensures
            r@.map_values(|s: &'static str| s@) == seq![
                "Default"@,
                "ForceCache"@,
                "NoCache"@,
                "NoStore"@,
                "OnlyIfCached"@,
                "Reload"@,
            ],
    {
        let mut v: Vec<&'static str> = Vec::new();
        v.push("Default");
        v.push("ForceCache");
        v.push("NoCache");
        v.push("NoStore");
        v.push("OnlyIfCached");
        v.push("Reload");
        assert(v@.map_values(|s: &'static str| s@) =~= seq![
            "Default"@,
            "ForceCache"@,
            "NoCache"@,
            "NoStore"@,
            "OnlyIfCached"@,
            "Reload"@,
        ]);
        v
    }
}

/// The name of the dump to use (`enwiki` by default).
#[derive(Clone, Debug)]
pub struct DumpNameArg {
    pub value: DumpName,
}

/// The dump version to use (`latest` by default).
#[derive(Clone, Debug)]
pub struct VersionSpecArg {
    pub value: VersionSpec,
}

/// The name of the job to use (`articlesdump` by default).
#[derive(Clone, Debug)]
pub struct JobNameArg {
    pub value: JobName,
}

/// Whether to print results as JSON.
#[derive(Clone, Copy, Debug)]
pub struct JsonOutputArg {
    pub value: bool,
}

/// A regex to filter the names of a job's files.
pub struct FileNameRegexArg {
    pub value: Option<UserRegex>,
}

/// Arguments common to the commands.
#[derive(Clone, Debug)]
pub struct CommonArgs {
    /// The dump whose store to use.
    pub store_dump_name: DumpName,
    /// The directory for the program's output, if given.
    pub out_dir: Option<String>,
    pub http_cache_mode: HttpCacheMode,
}

impl CommonArgs {
    /// The output directory: the one given, else the platform's data
    /// directory for the program, if there is one.
    pub fn out_dir(&self, platform_data_dir: Option<&str>) -> (r: Option<String>)
        ensures
            match self.out_dir {
                Some(d) => r matches Some(x) && x@ == d@,
                None => match platform_data_dir {
                    Some(d) => r matches Some(x) && x@ == d@,
                    None => r is None,
                },
            },
    {
        match &self.out_dir {
            Some(d) => Some(d.clone()),
            None => match platform_data_dir {
                Some(d) => Some(d.to_owned()),
                None => None,
            },
        }
    }

    /// The directory of downloaded dumps: `{out_dir}/dumps`.
    pub fn dumps_path(out_dir: &str) -> (r: String)
        ensures
            r@ == path_join(out_dir@, "dumps"@),
    {
        join_path(out_dir, "dumps")
    }

    /// The directory of the HTTP cache: `{out_dir}/http_cache`.
    pub fn http_cache_path(out_dir: &str) -> (r: String)
        ensures
            r@ == path_join(out_dir@, "http_cache"@),
    {
        join_path(out_dir, "http_cache")
    }

    /// The directory of the page store: `{out_dir}/stores/{store_dump}`.
    pub fn store_path(&self, out_dir: &str) -> (r: String)
        ensures
            r@ == path_join(path_join(out_dir@, "stores"@), self.store_dump_name.0@),
    {
        let stores = join_path(out_dir, "stores");
        join_path(stores.as_str(), self.store_dump_name.0.as_str())
    }
}

/// How HTTP requests for metadata are cached.
#[derive(Clone, Debug)]
pub struct HttpOptions {
    pub cache_path: String,
    pub cache_mode: HttpCacheMode,
}

impl CommonArgs {
    /// The HTTP options: the cache under the output directory, in the mode
    /// given.
    pub fn http_options(&self, out_dir: &str) -> (r: HttpOptions)
        ensures
            r.cache_path@ == path_join(out_dir@, "http_cache"@),
            r.cache_mode == self.http_cache_mode,
    {
        HttpOptions { cache_path: CommonArgs::http_cache_path(out_dir), cache_mode: self.http_cache_mode }
    }

    /// The options of the store of the store dump, under the output
    /// directory.
    pub fn store_options(&self, out_dir: &str) -> (r: StoreOptions)
        ensures
            r.dump_name matches Some(d) && d.0@ == self.store_dump_name.0@,
            r.path matches Some(p) && p@ == path_join(path_join(out_dir@, "stores"@), self.store_dump_name.0@),
            r.max_chunk_len is None,
    {
        StoreOptions {
            dump_name: Some(DumpName(self.store_dump_name.0.clone())),
            max_chunk_len: None,
            path: Some(self.store_path(out_dir)),
        }
    }
}

/// Arguments that say which dump files to read pages from.
pub struct OpenSpecArgs {
    pub dump_name: Option<DumpNameArg>,
    pub version: Option<Version>,
    pub job_name: Option<JobNameArg>,
    pub job_file: Option<String>,
    pub seek: Option<u64>,
    pub job_dir: Option<String>,
    pub compression: Compression,
    pub limit: Option<u64>,
    pub file_name_regex: FileNameRegexArg,
}

impl OpenSpecArgs {
    /// Which dump files to read: the job file if one is given, else the job
    /// directory, else the job of the dump version given, its directory
    /// under `dumps_dir`. Giving both a file and a directory, or none of the
    /// three, is an error.
    pub fn try_into_open_spec(self, dumps_dir: &str) -> (r: Result<OpenSpec, WikiError>)
        ensures
            match r {
                Ok(spec) => {
                    &&& spec.compression == self.compression
                    &&& spec.limit == self.limit
                    &&& match spec.source {
                        SourceSpec::File(f) => self.job_file == Some(f.path) && self.job_dir is None
                            && f.compression == self.compression && f.seek == self.seek,
                        SourceSpec::Dir(d) => self.job_file is None && self.job_dir == Some(d.path)
                            && d.file_name_regex == self.file_name_regex.value,
                        SourceSpec::Job(j) => {
                            &&& self.job_file is None
                            &&& self.job_dir is None
                            &&& j.out_dir@ == dumps_dir@
                            &&& self.dump_name matches Some(d) && d.value == j.dump
                            &&& self.version == Some(j.version)
                            &&& self.job_name matches Some(n) && n.value == j.job
                            &&& j.file_name_regex == self.file_name_regex.value
                        },
                    }
                },
                Err(e) => if self.job_file is Some && self.job_dir is Some {
                    e is BothFileAndDir
                } else {
                    &&& self.job_file is None
                    &&& self.job_dir is None
                    &&& (self.dump_name is None || self.version is None || self.job_name is None)
                    &&& e is MissingSource
                },
            },
    {
        let OpenSpecArgs {
            dump_name,
            version,
            job_name,
            job_file,
            seek,
            job_dir,
            compression,
            limit,
            file_name_regex,
        } = self;
        let source = match (job_file, job_dir) {
            (Some(_), Some(_)) => {
                return Err(WikiError::BothFileAndDir);
            },
            (Some(file), None) => SourceSpec::File(FileSpec { compression, path: file, seek }),
            (None, Some(dir)) => SourceSpec::Dir(DirSpec { path: dir, file_name_regex: file_name_regex.value }),
            (None, None) => match (dump_name, version, job_name) {
                (Some(dump), Some(version), Some(job)) => SourceSpec::Job(
                    JobSpec {
                        out_dir: dumps_dir.to_owned(),
                        dump: dump.value,
                        version,
                        job: job.value,
                        file_name_regex: file_name_regex.value,
                    },
                ),
                _ => {
                    return Err(WikiError::MissingSource);
                },
            },
        };
        Ok(OpenSpec { compression, source, limit })
    }
}

/// Every name that the parser lists parses to a mode.
pub proof fn lemma_http_cache_mode_possible_values_parse(name: Seq<char>)
    requires
        seq!["Default"@, "ForceCache"@, "NoCache"@, "NoStore"@, "OnlyIfCached"@, "Reload"@].contains(
            name,
        ),
    ensures
        http_cache_mode_named(name) is Some,
{
    let names = seq!["Default"@, "ForceCache"@, "NoCache"@, "NoStore"@, "OnlyIfCached"@, "Reload"@];
    let i = choose|i: int| 0 <= i < names.len() && names[i] == name;
    assert(names[i] == name);
}

} // verus!
