//! Pages of a Wikimedia article dump, as the article reader hands them out,
//! and where a job's files are kept.

use vstd::prelude::*;
use crate::args::{DumpNameArg, JobNameArg};
use crate::dump::local::job_rel_path;
use crate::dump::types;
use crate::error::WikiError;
use crate::paths::{join_path, last_piece, path_join, split_on};
use crate::patterns::opt_string_view;
use crate::text::{chars_of, string_from_chars};
use crate::types::{FileMetadata, Version};

verus! {

/// A page of an article dump.
#[derive(Clone, Debug)]
pub struct Page {
    pub ns_id: u64,
    pub id: u64,
    pub title: String,
    pub revision: Option<Revision>,
}

/// The revision of a page of an article dump.
#[derive(Clone, Debug)]
pub struct Revision {
    pub id: u64,
    pub text: Option<String>,
}

impl Page {
    /// The article page of a dump page: the same fields, without the
    /// revision's categories.
    pub fn from_dump_page(page: types::Page) -> (r: Page)
        ensures
            r.ns_id == page.ns_id,
            r.id == page.id,
            r.title == page.title,
            match page.revision {
                None => r.revision is None,
                Some(rev) => r.revision matches Some(rr) && rr.id == rev.id && rr.text == rev.text,
            },
    {
        let revision = match page.revision {
            None => None,
            Some(rev) => Some(Revision { id: rev.id, text: rev.text }),
        };
        Page { ns_id: page.ns_id, id: page.id, title: page.title, revision }
    }
}

/// The directory of a job's files under the output directory:
/// `{out_dir}/{dump}/{version}/{job}`.
pub fn job_path(out_dir: &str, dump_name: &DumpNameArg, version: &Version, job_name: &JobNameArg) -> (r: String)
    ensures
        r@ == path_join(out_dir@, job_rel_path(dump_name.value.0@, version.0@, job_name.value.0@)),
{
    let mut v = chars_of(dump_name.value.0.as_str());
    v.push('/');
    let mut ver = chars_of(version.0.as_str());
    v.append(&mut ver);
    v.push('/');
    let mut j = chars_of(job_name.value.0.as_str());
    v.append(&mut j);
    let rel = string_from_chars(&v);
    join_path(out_dir, rel.as_str())
}

/// Where a job file is kept: in the job's directory (see [`job_path`]),
/// under the last segment of its relative URL.
pub fn job_file_path(
    out_dir: &str,
    dump_name: &DumpNameArg,
    version: &Version,
    job_name: &JobNameArg,
    file_meta: &FileMetadata,
) -> (r: Result<String, WikiError>)
    ensures
        r matches Ok(p) && p@ == path_join(
            path_join(out_dir@, job_rel_path(dump_name.value.0@, version.0@, job_name.value.0@)),
            split_on(file_meta.url@, '/').last(),
        ),
{
    let name = last_piece(file_meta.url.as_str(), '/');
    let dir = job_path(out_dir, dump_name, version, job_name);
    Ok(join_path(dir.as_str(), name.as_str()))
}

} // verus!
