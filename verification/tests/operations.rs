use wikimedia::error::WikiError;
use wikimedia::operations::{
    check_downloaded_file, download_target, dump_version_status_url, dump_versions_url,
    dumps_from_index_hrefs, dumps_from_index_html, dumps_index_url, existing_file_hash_step, existing_file_step,
    filter_files, job_status_of, latest_version, validate_file_relative_url,
    versions_from_index_hrefs, versions_from_index_html, ExistingFileStatus, ExistingFileStep, FileProbe,
};
use wikimedia::types::{DumpVersionStatus, FileMetadata, JobStatus, Version};
use wikimedia::user_regex::UserRegex;
use wikimedia::util::fmt::{Sha1Hash, Sha1Stream};

#[test]
fn test_validate_file_relative_url() {
    let cases: &[(&str, Result<(), ()>)] = &[
        ("/enwiki/20230301/enwiki-20230301-abstract17.xml.gz", Ok(())),
        ("", Err(())),
        ("/", Err(())),
        ("a", Err(())),
        ("a/", Err(())),
        ("/a", Ok(())),
        ("/abc123ABC.-_", Ok(())),
        ("//", Err(())),
        ("//a", Err(())),
        ("/abc/123", Ok(())),
        ("/abc/123/", Err(())),
        ("/abc/123/..", Err(())),
        ("/abc/123/.", Err(())),
        ("/abc/../123", Err(())),
        ("/abc/./123", Err(())),
    ];

    let mut failures: usize = 0;

    for (input, expected) in cases.iter() {
        let output = validate_file_relative_url(input);
        println!(r#"case input="{input}" expected={expected:?} output={output:?}"#);
        if expected.is_ok() != output.is_ok() {
            println!("  Case failed!\n");
            failures += 1;
        } else {
            println!("  Case OK!\n");
        }
    }

    assert!(failures == 0);
}

#[test]
fn relative_url_errors_name_the_problem() {
    assert!(matches!(validate_file_relative_url(""), Err(WikiError::UrlEmpty)));
    assert!(matches!(validate_file_relative_url("a/b"), Err(WikiError::UrlMissingInitialSlash)));
    match validate_file_relative_url("/ok/b%d/c") {
        Err(WikiError::UrlSegmentMismatch { segment }) => assert_eq!(segment, "b%d"),
        other => panic!("unexpected {other:?}"),
    }
    match validate_file_relative_url("/ok/../c") {
        Err(WikiError::UrlDotSegment { segment }) => assert_eq!(segment, ".."),
        other => panic!("unexpected {other:?}"),
    }
}

fn meta(size: u64, url: &str, sha1: Option<&str>) -> FileMetadata {
    FileMetadata {
        size,
        url: url.to_string(),
        sha1: sha1.map(|s| s.to_string()),
        md5: None,
    }
}

#[test]
fn download_target_builds_url_and_path() {
    let m = meta(10, "/enwiki/20230301/enwiki-20230301-pages-articles1.xml.bz2", None);
    let t = download_target("/out/dumps", "https://mirror.example", "enwiki",
                            &Version("20230301".to_string()), "articlesdump", &m)
        .expect("valid URL");
    assert_eq!(t.url, "https://mirror.example/enwiki/20230301/enwiki-20230301-pages-articles1.xml.bz2");
    assert_eq!(t.file_name, "enwiki-20230301-pages-articles1.xml.bz2");
    assert_eq!(t.out_path,
               "/out/dumps/enwiki/20230301/articlesdump/enwiki-20230301-pages-articles1.xml.bz2");
}

#[test]
fn download_target_refuses_bad_url() {
    let m = meta(10, "/enwiki/../etc/passwd", None);
    let r = download_target("/out", "https://m", "enwiki", &Version("20230301".to_string()),
                            "articlesdump", &m);
    assert!(matches!(r, Err(WikiError::UrlDotSegment { .. })));
}

#[test]
fn existing_file_steps() {
    let m = meta(10, "/a", Some("ABCDEF"));
    assert!(matches!(existing_file_step(FileProbe::NotFound, &m),
                     ExistingFileStep::Done(ExistingFileStatus::NoFile)));
    assert!(matches!(existing_file_step(FileProbe::Failed, &m),
                     ExistingFileStep::Fail(WikiError::ExistingFileMetadata)));
    assert!(matches!(existing_file_step(FileProbe::Found { is_file: false, len: 10 }, &m),
                     ExistingFileStep::Fail(WikiError::ExistingNotAFile)));
    assert!(matches!(existing_file_step(FileProbe::Found { is_file: true, len: 9 }, &m),
                     ExistingFileStep::DeleteThen(ExistingFileStatus::DeletedBecauseIncorrectSize)));
    match existing_file_step(FileProbe::Found { is_file: true, len: 10 }, &m) {
        ExistingFileStep::HashFile { expected_sha1 } => assert_eq!(expected_sha1, "abcdef"),
        other => panic!("unexpected {other:?}"),
    }
    let no_hash = meta(10, "/a", None);
    assert!(matches!(existing_file_step(FileProbe::Found { is_file: true, len: 10 }, &no_hash),
                     ExistingFileStep::Done(ExistingFileStatus::NoSha1HashToCheck)));
}

/// The SHA1 of `abc`, fed in two pieces.
fn abc_hash() -> Sha1Hash {
    let mut h = Sha1Stream::new();
    h.update(b"ab");
    h.update(b"c");
    h.finalize()
}

const ABC_SHA1: &str = "a9993e364706816aba3e25717850c26c9cd0d89d";

#[test]
fn existing_file_hash_steps() {
    assert!(matches!(existing_file_hash_step(ABC_SHA1, &abc_hash()),
                     ExistingFileStep::Done(ExistingFileStatus::FileOk)));
    assert!(matches!(existing_file_hash_step(ABC_SHA1, &Sha1Hash::calculate_from_bytes(b"abd")),
                     ExistingFileStep::DeleteThen(ExistingFileStatus::DeletedBecauseIncorrectSha1Hash)));
}

#[test]
fn sha1_stream_equals_hash_at_once() {
    assert_eq!(abc_hash(), Sha1Hash::calculate_from_bytes(b"abc"));
    assert_eq!(abc_hash().to_display_string(), ABC_SHA1);
    assert_eq!(Sha1Stream::new().finalize().to_display_string(), "da39a3ee5e6b4b0d3255bfef95601890afd80709");
}

#[test]
fn kept_files_need_no_download() {
    assert!(!ExistingFileStatus::FileOk.needs_download());
    assert!(!ExistingFileStatus::NoSha1HashToCheck.needs_download());
    assert!(ExistingFileStatus::NoFile.needs_download());
    assert!(ExistingFileStatus::DeletedBecauseIncorrectSize.needs_download());
    assert!(ExistingFileStatus::DeletedBecauseIncorrectSha1Hash.needs_download());
}

#[test]
fn downloaded_file_checks() {
    let upper = ABC_SHA1.to_uppercase();
    let m = meta(3, "/a", Some(upper.as_str()));
    assert!(check_downloaded_file(&m, 3, &abc_hash()).is_ok());
    match check_downloaded_file(&m, 4, &abc_hash()) {
        Err(WikiError::WrongFileSize { expected, actual }) => {
            assert_eq!(expected, 3);
            assert_eq!(actual, 4);
        },
        other => panic!("unexpected {other:?}"),
    }
    let abd = Sha1Hash::calculate_from_bytes(b"abd");
    match check_downloaded_file(&m, 3, &abd) {
        Err(WikiError::WrongSha1 { expected, actual }) => {
            assert_eq!(expected, ABC_SHA1);
            assert_eq!(actual, abd.to_display_string());
        },
        other => panic!("unexpected {other:?}"),
    }
    assert!(check_downloaded_file(&meta(3, "/a", None), 3, &abd).is_ok());
}

#[test]
fn dumps_index_links() {
    let hrefs = vec![
        Some("enwiki/20230301".to_string()),
        None,
        Some("other.html".to_string()),
        Some("simplewiki/20230320".to_string()),
        Some("bad/2023".to_string()),
    ];
    let dumps = dumps_from_index_hrefs(&hrefs).expect("pattern compiles");
    let names: Vec<String> = dumps.into_iter().map(|d| d.0).collect();
    assert_eq!(names, vec!["enwiki".to_string(), "simplewiki".to_string()]);
}

#[test]
fn dump_versions_links() {
    let hrefs = vec![
        Some("20230301/".to_string()),
        Some("../".to_string()),
        Some("20230320/".to_string()),
        Some("latest/".to_string()),
    ];
    let vers = versions_from_index_hrefs(&hrefs).expect("pattern compiles");
    let names: Vec<String> = vers.into_iter().map(|v| v.0).collect();
    assert_eq!(names, vec!["20230301".to_string(), "20230320".to_string()]);
}

#[test]
fn latest_version_is_greatest() {
    let vers = vec![
        Version("20230301".to_string()),
        Version("20230401".to_string()),
        Version("20230320".to_string()),
    ];
    assert_eq!(latest_version(vers).expect("non-empty").0, "20230401");
    assert!(matches!(latest_version(vec![]), Err(WikiError::NoVersions)));
}

fn job(status: &str) -> JobStatus {
    JobStatus {
        status: status.to_string(),
        updated: "2023-03-01 00:00:00".to_string(),
        files: vec![("a.xml".to_string(), meta(1, "/a.xml", None))],
    }
}

#[test]
fn job_status_lookup() {
    let status = || DumpVersionStatus {
        jobs: vec![
            ("abstractsdump".to_string(), job("waiting")),
            ("articlesdump".to_string(), job("done")),
        ],
        version: "20230301".to_string(),
    };
    let j = job_status_of(status(), "articlesdump").expect("done");
    assert_eq!(j.status, "done");
    match job_status_of(status(), "abstractsdump") {
        Err(WikiError::JobNotDone { status }) => assert_eq!(status, "waiting"),
        other => panic!("unexpected {other:?}"),
    }
    match job_status_of(status(), "missing") {
        Err(WikiError::JobNotFound { job }) => assert_eq!(job, "missing"),
        other => panic!("unexpected {other:?}"),
    }
}

#[test]
fn file_filter_by_regex() {
    let files = || vec![
        ("enwiki-pages-articles1.xml.bz2".to_string(), meta(1, "/1", None)),
        ("enwiki-abstract.xml.gz".to_string(), meta(2, "/2", None)),
        ("enwiki-pages-articles2.xml.bz2".to_string(), meta(3, "/3", None)),
    ];
    assert_eq!(filter_files(files(), None).len(), 3);
    let re = UserRegex::parse("articles[0-9]").expect("valid regex");
    let kept: Vec<String> = filter_files(files(), Some(&re)).into_iter().map(|kv| kv.0).collect();
    assert_eq!(kept, vec!["enwiki-pages-articles1.xml.bz2".to_string(),
                          "enwiki-pages-articles2.xml.bz2".to_string()]);
}

#[test]
fn dumps_server_urls() {
    assert_eq!(dumps_index_url(), "https://dumps.wikimedia.org/backup-index-bydb.html");
    assert_eq!(dump_versions_url("enwiki"), "https://dumps.wikimedia.org/enwiki/");
    assert_eq!(dump_version_status_url("enwiki", &Version("20230301".to_string())),
               "https://dumps.wikimedia.org/enwiki/20230301/dumpstatus.json");
}

#[test]
fn dumps_and_versions_from_index_html() {
    let html = "<html><body><a href=\"../\">up</a><a>no href</a>\
                <a href=\"enwiki/20230301\">enwiki</a><a href=\"frwiki/20230320\">frwiki</a></body></html>";
    let dumps: Vec<String> = dumps_from_index_html(html).expect("pattern compiles").into_iter().map(|d| d.0).collect();
    assert_eq!(dumps, vec!["enwiki", "frwiki"]);
    let html = "<a href=\"../\">up</a><a href=\"20230301/\">1</a><a href=\"latest/\">l</a><a href=\"20230320/\">2</a>";
    let versions: Vec<String> =
        versions_from_index_html(html).expect("pattern compiles").into_iter().map(|v| v.0).collect();
    assert_eq!(versions, vec!["20230301", "20230320"]);
}
