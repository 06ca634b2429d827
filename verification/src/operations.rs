//! The decisions behind fetching dump metadata and downloading job files:
//! reading the dumps index, picking a version and a job, validating file
//! URLs, and judging existing and downloaded files.

use vstd::prelude::*;
use crate::dump::types::Version;
use crate::error::WikiError;
use crate::order::{seq_lt, str_lt};
use crate::paths::{
    join_path, last_piece, lemma_split_on_first_piece, lemma_split_on_nonempty, path_join, split_chars,
    split_on,
};
use crate::patterns::{
    opt_string_view, regex_compiles, regex_error_message, regex_first_capture_group,
    regex_is_match, Pattern,
};
use crate::text::{chars_of, hex_bytes, str_eq, string_from_chars};
use crate::util::fmt::Sha1Hash;
use crate::types::{Dump, DumpVersionStatus, FileMetadata, JobStatus};
use crate::user_regex::UserRegex;

verus! {

broadcast use vstd::std_specs::vec::group_vec_axioms;

/// What was found where a job file is to be downloaded, and what was done
/// about it.
#[derive(Clone, Copy, Debug, PartialEq, Eq, Structural)]
pub enum ExistingFileStatus {
    NoFile,
    DeletedBecauseIncorrectSize,
    DeletedBecauseIncorrectSha1Hash,
    NoSha1HashToCheck,
    FileOk,
}

/// The pattern that each segment of a file's relative URL must match.
pub const URL_SEGMENT_PATTERN: &'static str = "^[-a-z_0-9A-Z.]+$";

/// Whether a segment of a file's relative URL is acceptable: it matches
/// [`URL_SEGMENT_PATTERN`] and is neither `.` nor `..`.
pub open spec fn url_segment_ok(segment: Seq<char>) -> bool {
    regex_is_match(URL_SEGMENT_PATTERN@, segment) && segment != "."@ && segment != ".."@
}

/// Whether a character may stand in a segment of a file's relative URL:
/// an ASCII letter or digit, `-`, `_` or `.` (the class of
/// [`URL_SEGMENT_PATTERN`]).
pub open spec fn url_char_ok(c: char) -> bool {
    ('a' <= c && c <= 'z') || ('A' <= c && c <= 'Z') || ('0' <= c && c <= '9') || c == '-' || c
        == '_' || c == '.'
}

/// Whether a segment is one or more characters that may stand in a URL
/// segment: what [`URL_SEGMENT_PATTERN`] describes.
pub open spec fn url_segment_chars_ok(segment: Seq<char>) -> bool {
    segment.len() > 0 && forall|i: int| 0 <= i < segment.len() ==> url_char_ok(#[trigger] segment[i])
}

/// Whether a file's relative URL is acceptable: non-empty, starting with
/// `/`, and every segment after the first `/` acceptable.
pub open spec fn relative_url_ok(url: Seq<char>) -> bool {
    &&& url.len() > 0
    &&& split_on(url, '/')[0].len() == 0
    &&& regex_compiles(URL_SEGMENT_PATTERN@)
    &&& forall|i: int| 1 <= i < split_on(url, '/').len() ==> url_segment_ok(#[trigger] split_on(url, '/')[i])
}

/// The character set of a file's relative URL: where the `regex` crate
/// compiles [`URL_SEGMENT_PATTERN`] and matches with it exactly the texts
/// its character class describes, a URL is accepted exactly when it starts
/// with `/` and every segment after that is one or more ASCII letters,
/// digits, `-`, `_` or `.`, and is neither `.` nor `..`.
pub proof fn lemma_relative_url_character_set(url: Seq<char>)
    requires
        regex_compiles(URL_SEGMENT_PATTERN@),
        forall|seg: Seq<char>| #[trigger] regex_is_match(URL_SEGMENT_PATTERN@, seg) == url_segment_chars_ok(seg),
    ensures
        relative_url_ok(url) == (url.len() > 0 && url[0] == '/' && forall|i: int|
            1 <= i < split_on(url, '/').len() ==> {
                let seg = #[trigger] split_on(url, '/')[i];
                url_segment_chars_ok(seg) && seg != "."@ && seg != ".."@
            }),
{
    lemma_split_on_first_piece(url, '/');
    lemma_split_on_nonempty(url, '/');
}

/// Checks that a file's relative URL from the dump status is a safe path
/// under the dumps root: it is not empty, it starts with `/`, and each
/// following segment is made of ASCII letters, digits, `-`, `_` and `.` and
/// is not `.` or `..`. The error names the first problem found.
pub fn validate_file_relative_url(url: &str) -> (r: Result<(), WikiError>)
    ensures
        (r is Ok) == relative_url_ok(url@),
        url@.len() == 0 ==> r matches Err(WikiError::UrlEmpty),
        url@.len() > 0 && split_on(url@, '/')[0].len() > 0 ==> r matches Err(
            WikiError::UrlMissingInitialSlash,
        ),
        r matches Err(WikiError::UrlSegmentMismatch { segment }) ==> exists|k: int|
            1 <= k < split_on(url@, '/').len() && split_on(url@, '/')[k] == segment@
                && !regex_is_match(URL_SEGMENT_PATTERN@, segment@) && forall|j: int|
                1 <= j < k ==> url_segment_ok(#[trigger] split_on(url@, '/')[j]),
        r matches Err(WikiError::UrlDotSegment { segment }) ==> exists|k: int|
            1 <= k < split_on(url@, '/').len() && split_on(url@, '/')[k] == segment@
                && regex_is_match(URL_SEGMENT_PATTERN@, segment@) && (segment@ == "."@
                || segment@ == ".."@) && forall|j: int|
                1 <= j < k ==> url_segment_ok(#[trigger] split_on(url@, '/')[j]),
        r matches Err(WikiError::Pattern { .. }) ==> !regex_compiles(URL_SEGMENT_PATTERN@),
        r matches Err(e) ==> (e is UrlEmpty || e is UrlMissingInitialSlash
            || e is UrlSegmentMismatch || e is UrlDotSegment || e is Pattern),
{
    if url.is_empty() {
        return Err(WikiError::UrlEmpty);
    }
    let segments = split_chars(url, '/');
    let ghost segs = split_on(url@, '/');
    proof {
        crate::paths::lemma_split_on_nonempty(url@, '/');
        assert(segments@.map_values(|p: Vec<char>| p@)[0] == segments@[0]@);
    }
    if segments[0].len() > 0 {
        return Err(WikiError::UrlMissingInitialSlash);
    }
    let re = match Pattern::new(URL_SEGMENT_PATTERN) {
        Ok(re) => re,
        Err(e) => {
            return Err(WikiError::Pattern { message: regex_error_message(&e) });
        },
    };
    let mut i: usize = 1;
    while i < segments.len()
        invariant
            1 <= i <= segments.len(),
            segs == split_on(url@, '/'),
            segments@.map_values(|p: Vec<char>| p@) == segs,
            re.source_view() == URL_SEGMENT_PATTERN@,
            segs[0].len() == 0,
            url@.len() > 0,
            regex_compiles(URL_SEGMENT_PATTERN@),
            forall|j: int| 1 <= j < i ==> url_segment_ok(#[trigger] segs[j]),
        decreases segments.len() - i,
    {
        assert(segments@.map_values(|p: Vec<char>| p@)[i as int] == segments@[i as int]@);
        let segment = string_from_chars(&segments[i]);
        if !re.is_match(segment.as_str()) {
            return Err(WikiError::UrlSegmentMismatch { segment });
        }
        if str_eq(segment.as_str(), ".") || str_eq(segment.as_str(), "..") {
            return Err(WikiError::UrlDotSegment { segment });
        }
        i = i + 1;
    }
    Ok(())
}

/// The pattern of a link in the dumps index: `{dump}/{date}`; group 1 is
/// the dump's name.
pub const DUMP_HREF_PATTERN: &'static str = "^(?P<dump>[-_a-zA-Z0-9]+)/(?P<date>\\d{8})$";

/// The pattern of a link in a dump's list of versions: `{date}/`; group 1
/// is the version.
pub const VERSION_HREF_PATTERN: &'static str = "^(?P<date>\\d{8})/$";

/// The text that the first match of `pattern` captures in group 1 of
/// `href`, if `href` is present, matches, and group 1 took part.
pub open spec fn href_group1(pattern: Seq<char>, href: Option<Seq<char>>) -> Option<Seq<char>> {
    match href {
        None => None,
        Some(h) => match regex_first_capture_group(pattern, h, 1) {
            Some(Some(g)) => Some(g),
            _ => None,
        },
    }
}

/// For each link, in order, the text captured by group 1 of `pattern`,
/// leaving out links without an `href` or that do not match.
pub open spec fn captured_from_hrefs(pattern: Seq<char>, hrefs: Seq<Option<Seq<char>>>) -> Seq<
    Seq<char>,
>
    decreases hrefs.len(),
{
    if hrefs.len() == 0 {
        Seq::empty()
    } else {
        let prev = captured_from_hrefs(pattern, hrefs.drop_last());
        match href_group1(pattern, hrefs.last()) {
            Some(g) => prev.push(g),
            None => prev,
        }
    }
}

/// The captures of two runs of links are those of the first followed by
/// those of the second: each link gives its capture in document order, and
/// none is lost or repeated. A single link gives its capture when its
/// `href` matches, and nothing otherwise.
pub proof fn lemma_captured_from_hrefs_concat(
    pattern: Seq<char>,
    a: Seq<Option<Seq<char>>>,
    b: Seq<Option<Seq<char>>>,
)
    ensures
        captured_from_hrefs(pattern, a + b) == captured_from_hrefs(pattern, a) + captured_from_hrefs(
            pattern,
            b,
        ),
        forall|h: Option<Seq<char>>| #[trigger] captured_from_hrefs(pattern, seq![h]) == match href_group1(
            pattern,
            h,
        ) {
            Some(g) => seq![g],
            None => Seq::<Seq<char>>::empty(),
        },
    decreases b.len(),
{
    assert forall|h: Option<Seq<char>>| #[trigger] captured_from_hrefs(pattern, seq![h]) == match href_group1(
        pattern,
        h,
    ) {
        Some(g) => seq![g],
        None => Seq::<Seq<char>>::empty(),
    } by {
        let hs = seq![h];
        assert(hs.drop_last() =~= Seq::<Option<Seq<char>>>::empty());
        assert(hs.last() == h);
        assert(captured_from_hrefs(pattern, hs.drop_last()) == Seq::<Seq<char>>::empty());
        if let Some(g) = href_group1(pattern, h) {
            assert(Seq::<Seq<char>>::empty().push(g) =~= seq![g]);
        }
    }
    if b.len() == 0 {
        assert(a + b =~= a);
        assert(captured_from_hrefs(pattern, a) + Seq::<Seq<char>>::empty() =~= captured_from_hrefs(
            pattern,
            a,
        ));
    } else {
        lemma_captured_from_hrefs_concat(pattern, a, b.drop_last());
        assert((a + b).drop_last() =~= a + b.drop_last());
        assert((a + b).last() == b.last());
        let ca = captured_from_hrefs(pattern, a);
        let cb = captured_from_hrefs(pattern, b.drop_last());
        if let Some(g) = href_group1(pattern, b.last()) {
            assert((ca + cb).push(g) =~= ca + cb.push(g));
        }
    }
}

fn captures_from_hrefs(pattern: &str, hrefs: &Vec<Option<String>>) -> (r: Result<Vec<String>, WikiError>)
    ensures
        match r {
            Ok(v) => regex_compiles(pattern@) && v@.map_values(|s: String| s@) == captured_from_hrefs(
                pattern@,
                hrefs@.map_values(|o: Option<String>| opt_string_view(o)),
            ),
            Err(e) => !regex_compiles(pattern@) && e is Pattern,
        },
{
    let re = match Pattern::new(pattern) {
        Ok(re) => re,
        Err(e) => {
            return Err(WikiError::Pattern { message: regex_error_message(&e) });
        },
    };
    let ghost hv = hrefs@.map_values(|o: Option<String>| opt_string_view(o));
    let mut out: Vec<String> = Vec::new();
    let mut i: usize = 0;
    while i < hrefs.len()
        invariant
            i <= hrefs.len(),
            re.source_view() == pattern@,
            hv == hrefs@.map_values(|o: Option<String>| opt_string_view(o)),
            out@.map_values(|s: String| s@) == captured_from_hrefs(pattern@, hv.take(i as int)),
        decreases hrefs.len() - i,
    {
        assert(hv.take((i + 1) as int).drop_last() =~= hv.take(i as int));
        assert(hv.take((i + 1) as int).last() == opt_string_view(hrefs@[i as int]));
        let ghost prev = out@.map_values(|s: String| s@);
        match &hrefs[i] {
            None => {},
            Some(h) => {
                match re.first_capture_group(h.as_str(), 1) {
                    Some(Some(g)) => {
                        let ghost gv = g@;
                        out.push(g);
                        assert(out@.map_values(|s: String| s@) =~= prev.push(gv));
                    },
                    _ => {},
                }
            },
        }
        i = i + 1;
    }
    assert(hv.take(hrefs.len() as int) =~= hv);
    Ok(out)
}

/// The dumps listed in the dumps index, read from the `href` of each link
/// (`None` for a link without one): each link `{dump}/{date}` gives the dump
/// `{dump}`, in order; other links are skipped.
pub fn dumps_from_index_hrefs(hrefs: &Vec<Option<String>>) -> (r: Result<Vec<Dump>, WikiError>)
    ensures
        match r {
            Ok(v) => regex_compiles(DUMP_HREF_PATTERN@) && v@.map_values(|d: Dump| d.0@)
                == captured_from_hrefs(
                DUMP_HREF_PATTERN@,
                hrefs@.map_values(|o: Option<String>| opt_string_view(o)),
            ),
            Err(e) => !regex_compiles(DUMP_HREF_PATTERN@) && e is Pattern,
        },
{
    let names = captures_from_hrefs(DUMP_HREF_PATTERN, hrefs)?;
    let mut out: Vec<Dump> = Vec::new();
    for name in it: names.into_iter()
        invariant
            out@.map_values(|d: Dump| d.0@) == it.seq().take(it.index() as int).map_values(|s: String| s@),
    {
        let ghost prev = out@.map_values(|d: Dump| d.0@);
        let ghost nv = name@;
        out.push(Dump(name));
        assert(out@.map_values(|d: Dump| d.0@) =~= prev.push(nv));
        assert(it.seq().take(it.index() + 1).map_values(|s: String| s@) =~= it.seq().take(it.index() as int).map_values(|s: String| s@).push(nv));
    }
    Ok(out)
}

/// The value of the attribute `attr` of each element of an HTML document
/// that the CSS selector `selector` selects, in document order (`None` for
/// an element without the attribute), as the `scraper` crate parses the
/// document; `None` when the selector does not parse.
pub uninterp spec fn html_attr_values(html: Seq<char>, selector: Seq<char>, attr: Seq<char>) -> Option<
    Seq<Option<Seq<char>>>,
>;

/// Parses an HTML document with `scraper::Html::parse_document`, parses a
/// selector with `scraper::Selector::parse`, and reads an attribute of
/// each element it selects with `Element::attr`; named by
/// [`html_attr_values`].
#[verifier::external_body]
fn select_attr_values(html: &str, selector: &str, attr: &str) -> (r: Option<Vec<Option<String>>>)
    ensures
        match r {
            Some(v) => html_attr_values(html@, selector@, attr@) == Some(
                v@.map_values(|o: Option<String>| opt_string_view(o)),
            ),
            None => html_attr_values(html@, selector@, attr@) is None,
        },
{
    let doc = scraper::Html::parse_document(html);
    match scraper::Selector::parse(selector) {
        Ok(sel) => Some(doc.select(&sel).map(|e| e.value().attr(attr).map(|h| h.to_string())).collect()),
        Err(_) => None,
    }
}

/// The elements that are links: `a`.
pub const LINK_SELECTOR: &'static str = "a";

/// The attribute that holds a link's target: `href`.
pub const LINK_TARGET_ATTR: &'static str = "href";

/// The `href` of each link (`<a>` element) of an HTML document (see
/// [`html_attr_values`]).
pub open spec fn html_link_hrefs(html: Seq<char>) -> Option<Seq<Option<Seq<char>>>> {
    html_attr_values(html, LINK_SELECTOR@, LINK_TARGET_ATTR@)
}

/// The dumps index and a dump's version listing are read from every link
/// of the page: the elements that the CSS type selector `a` selects, which
/// are all `<a>` elements at any depth (in list items, in `<pre>`, ...), in
/// document order, each with its `href`.
pub proof fn lemma_index_links_are_every_a_element(html: Seq<char>)
    ensures
        html_link_hrefs(html) == html_attr_values(html, "a"@, "href"@),
{
}

/// The dumps listed in the HTML of the dumps index: those that
/// [`dumps_from_index_hrefs`] reads from the `href`s of its links.
pub fn dumps_from_index_html(html: &str) -> (r: Result<Vec<Dump>, WikiError>)
    ensures
        match html_link_hrefs(html@) {
            None => r matches Err(WikiError::InvalidSelector),
            Some(hrefs) => match r {
                Ok(v) => regex_compiles(DUMP_HREF_PATTERN@) && v@.map_values(|d: Dump| d.0@)
                    == captured_from_hrefs(DUMP_HREF_PATTERN@, hrefs),
                Err(e) => !regex_compiles(DUMP_HREF_PATTERN@) && e is Pattern,
            },
        },
{
    match select_attr_values(html, LINK_SELECTOR, LINK_TARGET_ATTR) {
        Some(hrefs) => dumps_from_index_hrefs(&hrefs),
        None => Err(WikiError::InvalidSelector),
    }
}

/// The versions listed in the HTML of a dump's index: those that
/// [`versions_from_index_hrefs`] reads from the `href`s of its links.
pub fn versions_from_index_html(html: &str) -> (r: Result<Vec<Version>, WikiError>)
    ensures
        match html_link_hrefs(html@) {
            None => r matches Err(WikiError::InvalidSelector),
            Some(hrefs) => match r {
                Ok(v) => regex_compiles(VERSION_HREF_PATTERN@) && v@.map_values(|d: Version| d.0@)
                    == captured_from_hrefs(VERSION_HREF_PATTERN@, hrefs),
                Err(e) => !regex_compiles(VERSION_HREF_PATTERN@) && e is Pattern,
            },
        },
{
    match select_attr_values(html, LINK_SELECTOR, LINK_TARGET_ATTR) {
        Some(hrefs) => versions_from_index_hrefs(&hrefs),
        None => Err(WikiError::InvalidSelector),
    }
}

/// The versions listed for a dump, read from the `href` of each link: each
/// link `{date}/` gives the version `{date}`, in order; other links are
/// skipped.
pub fn versions_from_index_hrefs(hrefs: &Vec<Option<String>>) -> (r: Result<Vec<Version>, WikiError>)
    ensures
        match r {
            Ok(v) => regex_compiles(VERSION_HREF_PATTERN@) && v@.map_values(|d: Version| d.0@)
                == captured_from_hrefs(
                VERSION_HREF_PATTERN@,
                hrefs@.map_values(|o: Option<String>| opt_string_view(o)),
            ),
            Err(e) => !regex_compiles(VERSION_HREF_PATTERN@) && e is Pattern,
        },
{
    let names = captures_from_hrefs(VERSION_HREF_PATTERN, hrefs)?;
    let mut out: Vec<Version> = Vec::new();
    for name in it: names.into_iter()
        invariant
            out@.map_values(|d: Version| d.0@) == it.seq().take(it.index() as int).map_values(
                |s: String| s@,
            ),
    {
        let ghost prev = out@.map_values(|d: Version| d.0@);
        let ghost nv = name@;
        out.push(Version(name));
        assert(out@.map_values(|d: Version| d.0@) =~= prev.push(nv));
        assert(it.seq().take(it.index() + 1).map_values(|s: String| s@) =~= it.seq().take(
            it.index() as int,
        ).map_values(|s: String| s@).push(nv));
    }
    Ok(out)
}

/// The latest of a dump's versions: the greatest in string order, which for
/// 8-digit dates is the most recent.
pub fn latest_version(versions: Vec<Version>) -> (r: Result<Version, WikiError>)
    ensures
        versions@.len() == 0 ==> (r matches Err(WikiError::NoVersions)),
        versions@.len() > 0 ==> (r matches Ok(v) && (exists|i: int|
            0 <= i < versions@.len() && versions@[i] == v) && forall|i: int|
            0 <= i < versions@.len() ==> !seq_lt(v.0@, #[trigger] versions@[i].0@)),
{
    let mut versions = versions;
    let ghost all = versions@;
    if versions.len() == 0 {
        return Err(WikiError::NoVersions);
    }
    let mut best: usize = 0;
    let mut i: usize = 1;
    proof {
        crate::order::lemma_seq_lt_irreflexive(all[0].0@);
    }
    while i < versions.len()
        invariant
            versions@ == all,
            best < i <= versions.len(),
            forall|j: int| 0 <= j < i ==> !seq_lt(all[best as int].0@, #[trigger] all[j].0@),
        decreases versions.len() - i,
    {
        if str_lt(versions[best].0.as_str(), versions[i].0.as_str()) {
            proof {
                assert forall|j: int| 0 <= j < i + 1 implies !seq_lt(all[i as int].0@, #[trigger] all[j].0@) by {
                    if j < i {
                        if seq_lt(all[i as int].0@, all[j].0@) {
                            crate::order::lemma_seq_lt_transitive(all[best as int].0@, all[i as int].0@, all[j].0@);
                        }
                    } else {
                        crate::order::lemma_seq_lt_irreflexive(all[i as int].0@);
                    }
                }
            }
            best = i;
        }
        i = i + 1;
    }
    let v = versions.remove(best);
    Ok(v)
}

/// Whether entry `k` is the first entry of a dump version's status that
/// names the job.
pub open spec fn is_first_job_entry(jobs: Seq<(String, JobStatus)>, job_name: Seq<char>, k: int) -> bool {
    &&& 0 <= k < jobs.len()
    &&& jobs[k].0@ == job_name
    &&& forall|j: int| 0 <= j < k ==> jobs[j].0@ != job_name
}

/// The status of a job, from the entries of a dump version's status: the
/// first entry with the job's name.
pub open spec fn job_entry_index(jobs: Seq<(String, JobStatus)>, job_name: Seq<char>) -> Option<int> {
    if exists|k: int| is_first_job_entry(jobs, job_name, k) {
        Some(choose|k: int| is_first_job_entry(jobs, job_name, k))
    } else {
        None
    }
}

/// The status of a job of a dump version, which must be `done`. The error
/// says when the version has no such job, or when the job is not done yet.
pub fn job_status_of(ver_status: DumpVersionStatus, job_name: &str) -> (r: Result<JobStatus, WikiError>)
    ensures
        match job_entry_index(ver_status.jobs@, job_name@) {
            None => r matches Err(WikiError::JobNotFound { job }) && job@ == job_name@,
            Some(i) => if ver_status.jobs@[i].1.status@ == "done"@ {
                r == Ok::<JobStatus, WikiError>(ver_status.jobs@[i].1)
            } else {
                r matches Err(WikiError::JobNotDone { status }) && status@
                    == ver_status.jobs@[i].1.status@
            },
        },
{
    let ghost jobs0 = ver_status.jobs@;
    let mut jobs = ver_status.jobs;
    let mut i: usize = 0;
    while i < jobs.len()
        invariant
            jobs@ == jobs0,
            jobs0 == ver_status.jobs@,
            i <= jobs.len(),
            forall|j: int| 0 <= j < i ==> jobs0[j].0@ != job_name@,
        decreases jobs.len() - i,
    {
        if str_eq(jobs[i].0.as_str(), job_name) {
            assert(job_entry_index(jobs0, job_name@) == Some(i as int)) by {
                assert(is_first_job_entry(jobs0, job_name@, i as int));
                let k = choose|k: int| is_first_job_entry(jobs0, job_name@, k);
                if k < i {
                    assert(jobs0[k].0@ != job_name@);
                } else if k > i {
                    assert(jobs0[i as int].0@ == job_name@);
                }
            }
            let (_name, status) = jobs.remove(i);
            if str_eq(status.status.as_str(), "done") {
                return Ok(status);
            } else {
                return Err(WikiError::JobNotDone { status: status.status });
            }
        }
        i = i + 1;
    }
    assert(job_entry_index(jobs0, job_name@) is None) by {
        if exists|k: int| is_first_job_entry(jobs0, job_name@, k) {
            let k = choose|k: int| is_first_job_entry(jobs0, job_name@, k);
            assert(jobs0[k].0@ == job_name@);
        }
    }
    Err(WikiError::JobNotFound { job: job_name.to_owned() })
}

/// The files of a job whose names the pattern matches, in order; all of
/// them when there is no pattern.
pub fn filter_files(files: Vec<(String, FileMetadata)>, file_name_regex: Option<&UserRegex>) -> (r: Vec<
    (String, FileMetadata),
>)
    ensures
        r@ == files@.filter(
            |kv: (String, FileMetadata)|
                match file_name_regex {
                    None => true,
                    Some(re) => regex_is_match(re.0.source_view(), kv.0@),
                },
        ),
{
    let ghost keep = |kv: (String, FileMetadata)|
        match file_name_regex {
            None => true,
            Some(re) => regex_is_match(re.0.source_view(), kv.0@),
        };
    let ghost all = files@;
    let mut out: Vec<(String, FileMetadata)> = Vec::new();
    for kv in it: files.into_iter()
        invariant
            it.seq() == all,
            forall|e: (String, FileMetadata)| #[trigger] keep(e) == match file_name_regex {
                None => true,
                Some(re) => regex_is_match(re.0.source_view(), e.0@),
            },
            out@ == all.take(it.index() as int).filter(keep),
    {
        let ghost idx = it.index();
        proof {
            assert(all.take(idx + 1) =~= all.take(idx as int).push(all[idx as int]));
            all.take(idx as int).lemma_filter_push(all[idx as int], keep);
        }
        let matched = match file_name_regex {
            None => true,
            Some(re) => re.is_match(kv.0.as_str()),
        };
        if matched {
            out.push(kv);
        }
    }
    proof {
        assert(all.take(all.len() as int) =~= all);
    }
    out
}

} // verus!

verus! {

/// What `str::to_lowercase` gives: the text in lowercase as Unicode
/// defines it, a character's lowercase depending on its context where
/// Unicode says so (a final capital sigma becomes `ς`).
pub uninterp spec fn unicode_lowercase(s: Seq<char>) -> Seq<char>;

/// Calls `str::to_lowercase`; its result is named by [`unicode_lowercase`].
#[verifier::external_body]
fn to_lowercase(s: &str) -> (r: String)
    ensures
        r@ == unicode_lowercase(s@),
{
    s.to_lowercase()
}

/// The path of a job file relative to the output directory:
/// `{dump}/{version}/{job}/{file}`.
pub open spec fn job_file_rel_path(
    dump: Seq<char>,
    version: Seq<char>,
    job: Seq<char>,
    file: Seq<char>,
) -> Seq<char> {
    dump + seq!['/'] + version + seq!['/'] + job + seq!['/'] + file
}

/// Where a job file comes from and where it goes.
#[derive(Clone, Debug)]
pub struct DownloadTarget {
    /// The URL to download: the mirror's URL followed by the file's
    /// relative URL.
    pub url: String,
    /// The file's name: the last segment of its relative URL.
    pub file_name: String,
    /// Where the file is kept: `{out_dir}/{dump}/{version}/{job}/{file}`.
    pub out_path: String,
}

/// Where a job file is downloaded from and kept, once its relative URL is
/// validated (see [`validate_file_relative_url`], whose errors it returns).
pub fn download_target(
    out_dir: &str,
    mirror_url: &str,
    dump_name: &str,
    version: &Version,
    job_name: &str,
    file_meta: &FileMetadata,
) -> (r: Result<DownloadTarget, WikiError>)
    ensures
        (r is Ok) == relative_url_ok(file_meta.url@),
        match r {
            Ok(t) => {
                &&& t.url@ == mirror_url@ + file_meta.url@
                &&& t.file_name@ == split_on(file_meta.url@, '/').last()
                &&& t.out_path@ == path_join(
                    out_dir@,
                    job_file_rel_path(dump_name@, version.0@, job_name@, t.file_name@),
                )
            },
            Err(e) => {
                &&& file_meta.url@.len() == 0 ==> e is UrlEmpty
                &&& file_meta.url@.len() > 0 && split_on(file_meta.url@, '/')[0].len() > 0
                    ==> e is UrlMissingInitialSlash
                &&& e is UrlEmpty || e is UrlMissingInitialSlash || e is UrlSegmentMismatch
                    || e is UrlDotSegment || e is Pattern
            },
        },
{
    match validate_file_relative_url(file_meta.url.as_str()) {
        Err(e) => {
            return Err(e);
        },
        Ok(()) => {},
    }
    let mut url = chars_of(mirror_url);
    let mut rel = chars_of(file_meta.url.as_str());
    url.append(&mut rel);
    let file_name = last_piece(file_meta.url.as_str(), '/');
    let mut p = chars_of(dump_name);
    p.push('/');
    let mut v = chars_of(version.0.as_str());
    p.append(&mut v);
    p.push('/');
    let mut j = chars_of(job_name);
    p.append(&mut j);
    p.push('/');
    let mut f = chars_of(file_name.as_str());
    p.append(&mut f);
    assert(p@ =~= job_file_rel_path(dump_name@, version.0@, job_name@, file_name@));
    let rel_path = string_from_chars(&p);
    let out_path = join_path(out_dir, rel_path.as_str());
    Ok(DownloadTarget { url: string_from_chars(&url), file_name, out_path })
}

/// What reading the metadata of the path of a job file found.
#[derive(Clone, Copy, Debug, PartialEq, Eq, Structural)]
pub enum FileProbe {
    /// Nothing is at the path.
    NotFound,
    /// Reading the metadata failed otherwise.
    Failed,
    /// Something is at the path: whether it is a file, and its length.
    Found { is_file: bool, len: u64 },
}

/// The next step in checking a job file that may already have been
/// downloaded.
#[derive(Clone, Debug)]
pub enum ExistingFileStep {
    /// The check is over.
    Done(ExistingFileStatus),
    /// Delete the file; the check is then over.
    DeleteThen(ExistingFileStatus),
    /// Compute the SHA1 hash of the file, and compare it with this one
    /// (see [`existing_file_hash_step`]).
    HashFile { expected_sha1: String },
    /// The check failed.
    Fail(WikiError),
}

/// A step of the check of an existing job file, as the contracts see it.
pub enum ExistingFileStepView {
    Done(ExistingFileStatus),
    DeleteThen(ExistingFileStatus),
    HashFile(Seq<char>),
    Fail(WikiError),
}

pub open spec fn existing_file_step_view(s: ExistingFileStep) -> ExistingFileStepView {
    match s {
        ExistingFileStep::Done(x) => ExistingFileStepView::Done(x),
        ExistingFileStep::DeleteThen(x) => ExistingFileStepView::DeleteThen(x),
        ExistingFileStep::HashFile { expected_sha1 } => ExistingFileStepView::HashFile(expected_sha1@),
        ExistingFileStep::Fail(e) => ExistingFileStepView::Fail(e),
    }
}

/// The first step of the check of what is at a job file's path (see
/// [`existing_file_step`]).
pub open spec fn first_file_check(probe: FileProbe, file_meta: FileMetadata) -> ExistingFileStepView {
    match probe {
        FileProbe::NotFound => ExistingFileStepView::Done(ExistingFileStatus::NoFile),
        FileProbe::Failed => ExistingFileStepView::Fail(WikiError::ExistingFileMetadata),
        FileProbe::Found { is_file, len } => if !is_file {
            ExistingFileStepView::Fail(WikiError::ExistingNotAFile)
        } else if len != file_meta.size {
            ExistingFileStepView::DeleteThen(ExistingFileStatus::DeletedBecauseIncorrectSize)
        } else {
            match file_meta.sha1 {
                None => ExistingFileStepView::Done(ExistingFileStatus::NoSha1HashToCheck),
                Some(s) => ExistingFileStepView::HashFile(unicode_lowercase(s@)),
            }
        },
    }
}

/// The last step of the check of an existing file (see
/// [`existing_file_hash_step`]).
pub open spec fn hash_file_check(expected: Seq<char>, actual: Seq<char>) -> ExistingFileStepView {
    if expected == actual {
        ExistingFileStepView::Done(ExistingFileStatus::FileOk)
    } else {
        ExistingFileStepView::DeleteThen(ExistingFileStatus::DeletedBecauseIncorrectSha1Hash)
    }
}

/// Whether a job file must still be downloaded after the check.
pub open spec fn needs_download_spec(status: ExistingFileStatus) -> bool {
    !(status is FileOk || status is NoSha1HashToCheck)
}

/// A job file already downloaded is checked, and kept when its size and
/// hash are the expected ones: it is not downloaded again.
pub proof fn lemma_verified_file_not_downloaded_again(file_meta: FileMetadata, sha1: String, actual: Seq<char>)
    requires
        file_meta.sha1 == Some(sha1),
        actual == unicode_lowercase(sha1@),
    ensures
        first_file_check(FileProbe::Found { is_file: true, len: file_meta.size }, file_meta)
            == ExistingFileStepView::HashFile(actual),
        hash_file_check(actual, actual) == ExistingFileStepView::Done(ExistingFileStatus::FileOk),
        !needs_download_spec(ExistingFileStatus::FileOk),
{
}

/// A job file already there with the wrong size, or the right size and
/// the wrong hash, is deleted and downloaded again.
pub proof fn lemma_bad_file_downloaded_again(file_meta: FileMetadata, len: u64, expected: Seq<char>, actual: Seq<char>)
    requires
        len != file_meta.size || expected != actual,
    ensures
        len != file_meta.size ==> first_file_check(FileProbe::Found { is_file: true, len }, file_meta)
            == ExistingFileStepView::DeleteThen(ExistingFileStatus::DeletedBecauseIncorrectSize)
            && needs_download_spec(ExistingFileStatus::DeletedBecauseIncorrectSize),
        expected != actual ==> hash_file_check(expected, actual) == ExistingFileStepView::DeleteThen(
            ExistingFileStatus::DeletedBecauseIncorrectSha1Hash,
        ) && needs_download_spec(ExistingFileStatus::DeletedBecauseIncorrectSha1Hash),
{
}

/// The first step in checking what is at the path of a job file: nothing
/// there needs a download; something that is not a file is an error; a file
/// of the wrong size is deleted; a file of the right size is kept when there
/// is no hash to check, else its hash is checked against the expected one,
/// lowercased.
pub fn existing_file_step(probe: FileProbe, file_meta: &FileMetadata) -> (r: ExistingFileStep)
    ensures
        existing_file_step_view(r) == first_file_check(probe, *file_meta),
        match probe {
            FileProbe::NotFound => r matches ExistingFileStep::Done(ExistingFileStatus::NoFile),
            FileProbe::Failed => r matches ExistingFileStep::Fail(WikiError::ExistingFileMetadata),
            FileProbe::Found { is_file, len } => if !is_file {
                r matches ExistingFileStep::Fail(WikiError::ExistingNotAFile)
            } else if len != file_meta.size {
                r matches ExistingFileStep::DeleteThen(ExistingFileStatus::DeletedBecauseIncorrectSize)
            } else {
                match file_meta.sha1 {
                    None => r matches ExistingFileStep::Done(ExistingFileStatus::NoSha1HashToCheck),
                    Some(s) => (r matches ExistingFileStep::HashFile { expected_sha1 }
                        && expected_sha1@ == unicode_lowercase(s@)),
                }
            },
        },
{
    match probe {
        FileProbe::NotFound => ExistingFileStep::Done(ExistingFileStatus::NoFile),
        FileProbe::Failed => ExistingFileStep::Fail(WikiError::ExistingFileMetadata),
        FileProbe::Found { is_file, len } => {
            if !is_file {
                ExistingFileStep::Fail(WikiError::ExistingNotAFile)
            } else if len != file_meta.size {
                ExistingFileStep::DeleteThen(ExistingFileStatus::DeletedBecauseIncorrectSize)
            } else {
                match &file_meta.sha1 {
                    None => ExistingFileStep::Done(ExistingFileStatus::NoSha1HashToCheck),
                    Some(s) => ExistingFileStep::HashFile { expected_sha1: to_lowercase(s.as_str()) },
                }
            }
        },
    }
}

/// The last step in checking an existing job file of the right size: it is
/// kept when the hash of its bytes, written in lowercase hex, is the
/// expected one, and deleted otherwise.
pub fn existing_file_hash_step(expected_sha1: &str, actual: &Sha1Hash) -> (r: ExistingFileStep)
    ensures
        existing_file_step_view(r) == hash_file_check(expected_sha1@, hex_bytes(actual.0@)),
        expected_sha1@ == hex_bytes(actual.0@) ==> r matches ExistingFileStep::Done(
            ExistingFileStatus::FileOk,
        ),
        expected_sha1@ != hex_bytes(actual.0@) ==> r matches ExistingFileStep::DeleteThen(
            ExistingFileStatus::DeletedBecauseIncorrectSha1Hash,
        ),
{
    let actual_hex = actual.to_display_string();
    if str_eq(expected_sha1, actual_hex.as_str()) {
        ExistingFileStep::Done(ExistingFileStatus::FileOk)
    } else {
        ExistingFileStep::DeleteThen(ExistingFileStatus::DeletedBecauseIncorrectSha1Hash)
    }
}

impl ExistingFileStatus {
    /// Whether the job file must still be downloaded: unless the existing
    /// file was kept.
    pub fn needs_download(&self) -> (r: bool)
        ensures
            r == needs_download_spec(*self),
    {
        match self {
            ExistingFileStatus::FileOk => false,
            ExistingFileStatus::NoSha1HashToCheck => false,
            _ => true,
        }
    }
}

/// Checks a downloaded job file against its metadata: its length must be
/// the expected size, and the hash of its bytes, written in lowercase hex,
/// the expected hash lowercased, when one is expected.
pub fn check_downloaded_file(file_meta: &FileMetadata, len: u64, sha1: &Sha1Hash) -> (r: Result<(), WikiError>)
    ensures
        len != file_meta.size ==> (r matches Err(WikiError::WrongFileSize { expected, actual })
            && expected == file_meta.size && actual == len),
        len == file_meta.size ==> match file_meta.sha1 {
            None => r is Ok,
            Some(s) => if unicode_lowercase(s@) == hex_bytes(sha1.0@) {
                r is Ok
            } else {
                (r matches Err(WikiError::WrongSha1 { expected, actual }) && expected@
                    == unicode_lowercase(s@) && actual@ == hex_bytes(sha1.0@))
            },
        },
{
    if len != file_meta.size {
        return Err(WikiError::WrongFileSize { expected: file_meta.size, actual: len });
    }
    match &file_meta.sha1 {
        None => Ok(()),
        Some(s) => {
            let expected = to_lowercase(s.as_str());
            let actual = sha1.to_display_string();
            if str_eq(expected.as_str(), actual.as_str()) {
                Ok(())
            } else {
                Err(WikiError::WrongSha1 { expected, actual })
            }
        },
    }
}

} // verus!

verus! {

/// The server of the Wikimedia dumps.
pub const DUMPS_WIKIMEDIA_SERVER: &'static str = "https://dumps.wikimedia.org";

/// The URL of the index of dumps: `{server}/backup-index-bydb.html`.
pub fn dumps_index_url() -> (r: String)
    ensures
        r@ == DUMPS_WIKIMEDIA_SERVER@ + "/backup-index-bydb.html"@,
{
    let mut v = chars_of(DUMPS_WIKIMEDIA_SERVER);
    let mut tail = chars_of("/backup-index-bydb.html");
    v.append(&mut tail);
    string_from_chars(&v)
}

/// The URL of the list of a dump's versions: `{server}/{dump}/`.
pub fn dump_versions_url(dump_name: &str) -> (r: String)
    ensures
        r@ == DUMPS_WIKIMEDIA_SERVER@ + seq!['/'] + dump_name@ + seq!['/'],
{
    let mut v = chars_of(DUMPS_WIKIMEDIA_SERVER);
    v.push('/');
    let mut d = chars_of(dump_name);
    v.append(&mut d);
    v.push('/');
    string_from_chars(&v)
}

/// The URL of the status of a dump version:
/// `{server}/{dump}/{version}/dumpstatus.json`.
pub fn dump_version_status_url(dump_name: &str, version: &Version) -> (r: String)
    ensures
        r@ == DUMPS_WIKIMEDIA_SERVER@ + seq!['/'] + dump_name@ + seq!['/'] + version.0@
            + "/dumpstatus.json"@,
{
    let mut v = chars_of(DUMPS_WIKIMEDIA_SERVER);
    v.push('/');
    let mut d = chars_of(dump_name);
    v.append(&mut d);
    v.push('/');
    let mut ver = chars_of(version.0.as_str());
    v.append(&mut ver);
    let mut tail = chars_of("/dumpstatus.json");
    v.append(&mut tail);
    string_from_chars(&v)
}

} // verus!
