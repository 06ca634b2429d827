use wikimedia::commands::get_store_page::{
    check_output_type_not_html, html_page_path, limit_reached, select_pages, GetStorePageArgs,
    OutputType, PageSelector,
};
use wikimedia::commands::get_page;
use wikimedia::dump::types::{DumpVersionStatus, FileMetadata, JobOutput, JobStatus, Page, Revision};
use wikimedia::error::WikiError;
use wikimedia::store::chunk::ChunkId;
use wikimedia::natural_order::sort_natural;
use wikimedia::temp_dir::{Cleanup, TempDir};
use wikimedia::text::{hex_encode, parse_hex_u64, parse_u64, u64_to_decimal};
use wikimedia::util::rand::rand_hex;

#[test]
fn rand_hex_is_lowercase_hex_of_the_length() {
    let s = rand_hex(8);
    assert_eq!(s.len(), 16);
    assert!(s.chars().all(|c| c.is_ascii_digit() || ('a'..='f').contains(&c)));
    assert_eq!(rand_hex(0), "");
    // The bytes are random: 16 zero bytes are all but impossible.
    assert_ne!(rand_hex(16), "0".repeat(32));
}

#[test]
fn temp_dir_lifecycle() {
    let p = TempDir::path_for("/out", "2023-03-01T00:00:00Z", "42", "abcd");
    assert_eq!(p, "/out/temp/2023-03-01T00:00:00Z_42_abcd");
    let mut t = TempDir::new(p.clone(), false);
    assert_eq!(t.path().unwrap(), p);
    assert_eq!(t.begin_cleanup(), Cleanup::Remove { keep: false });
    assert!(matches!(t.path(), Err(WikiError::TempDirCleanedUp)));
    assert_eq!(t.begin_cleanup(), Cleanup::Done);
    let mut kept = TempDir::new("/k".to_string(), true);
    assert_eq!(kept.begin_cleanup(), Cleanup::Remove { keep: true });
}

#[test]
fn numbers_as_text() {
    assert_eq!(u64_to_decimal(0), "0");
    assert_eq!(u64_to_decimal(18446744073709551615), "18446744073709551615");
    assert_eq!(parse_u64("+42"), Some(42));
    assert_eq!(parse_u64("18446744073709551616"), None);
    assert_eq!(parse_u64(""), None);
    assert_eq!(parse_u64("1a"), None);
    assert_eq!(hex_encode(&[0, 15, 255]), "000fff");
    assert_eq!(parse_hex_u64("00000000000000ff"), Some(255));
}

#[test]
fn job_output_totals() {
    let meta = |size: Option<u64>| FileMetadata { size, url: None, sha1: None, md5: None };
    let status = JobStatus {
        status: "done".to_string(),
        updated: "u".to_string(),
        files: vec![("a".to_string(), meta(Some(3))), ("b".to_string(), meta(None)),
                    ("c".to_string(), meta(Some(4)))],
    };
    let out = JobOutput::from_status("articlesdump".to_string(), status).expect("fits");
    assert_eq!(out.files_size, 7);
    assert_eq!(out.files_count, 3);

    let huge = JobStatus {
        status: "done".to_string(),
        updated: "u".to_string(),
        files: vec![("a".to_string(), meta(Some(u64::MAX))), ("b".to_string(), meta(Some(1)))],
    };
    assert!(JobOutput::from_status("x".to_string(), huge).is_none());
}

fn args() -> GetStorePageArgs {
    GetStorePageArgs {
        store_page_id: None,
        chunk_id: None,
        mediawiki_id: None,
        slug: None,
        out: OutputType::Json,
        limit: None,
        open: false,
    }
}

#[test]
fn store_page_selection() {
    assert!(matches!(select_pages(&args()), Ok(PageSelector::All)));
    let mut a = args();
    a.mediawiki_id = Some(12);
    assert!(matches!(select_pages(&a), Ok(PageSelector::ByMediawikiId(12))));
    a.slug = Some("X".to_string());
    match select_pages(&a) {
        Err(WikiError::ManySelectors { given }) => assert_eq!(given, vec!["--mediawiki-id", "--slug"]),
        other => panic!("unexpected {other:?}"),
    }
    let mut h = args();
    h.out = OutputType::Html;
    h.chunk_id = Some(ChunkId(1));
    assert!(matches!(select_pages(&h), Err(WikiError::HtmlForManyPages)));
    let mut o = args();
    o.open = true;
    assert!(matches!(select_pages(&o), Err(WikiError::OpenNeedsHtml)));
    assert!(check_output_type_not_html(OutputType::Json).is_ok());
    assert!(limit_reached(3, Some(3)));
    assert!(!limit_reached(2, Some(3)));
    assert!(!limit_reached(100, None));
    assert_eq!(html_page_path("/o", "Foo_bar", "ab12"), "/o/temp/pages/Foo_bar_ab12.html");
}

#[test]
fn get_page_needs_revision_text() {
    let rev = |text: Option<&str>| Revision {
        id: 9,
        parent_id: None,
        timestamp: None,
        text: text.map(|t| t.to_string()),
        categories: vec![],
        sha1: None,
    };
    let p = Page { ns_id: 0, id: 1, title: "T".to_string(), revision: Some(rev(Some("x"))) };
    let gp = get_page::Page::from_dump_page(p).unwrap();
    assert_eq!(gp.revision.unwrap().text, "x");
    let p = Page { ns_id: 0, id: 1, title: "T".to_string(), revision: Some(rev(None)) };
    assert!(matches!(get_page::Page::from_dump_page(p), Err(WikiError::RevisionTextMissing)));
    let p = Page { ns_id: 0, id: 1, title: "T".to_string(), revision: None };
    assert!(get_page::Page::from_dump_page(p).unwrap().revision.is_none());
}

#[test]
fn temp_dir_cleanup_twice_does_nothing() {
    let mut t = TempDir::new("/out/temp/x".to_string(), true);
    assert_eq!(t.path().unwrap(), "/out/temp/x");
    assert_eq!(t.begin_cleanup(), Cleanup::Remove { keep: true });
    assert_eq!(t.begin_cleanup(), Cleanup::Done);
    assert_eq!(t.begin_cleanup(), Cleanup::Done);
    assert!(matches!(t.path(), Err(WikiError::TempDirCleanedUp)));
}

#[test]
fn natural_order_of_file_names() {
    let v = vec!["rfc2086.txt".to_string(), "rfc822.txt".to_string(), "rfc1.txt".to_string()];
    assert_eq!(sort_natural(v), vec!["rfc1.txt", "rfc822.txt", "rfc2086.txt"]);
    let v = vec![
        "enwiki-pages-articles10.xml.bz2".to_string(),
        "enwiki-pages-articles2.xml.bz2".to_string(),
        "enwiki-pages-articles1.xml.bz2".to_string(),
    ];
    assert_eq!(
        sort_natural(v),
        vec!["enwiki-pages-articles1.xml.bz2", "enwiki-pages-articles2.xml.bz2", "enwiki-pages-articles10.xml.bz2"]
    );
    assert_eq!(sort_natural(vec![]), Vec::<String>::new());
}

fn job(status: &str) -> JobStatus {
    JobStatus { status: status.to_string(), updated: "2023-03-02".to_string(), files: vec![] }
}

#[test]
fn select_jobs_one_or_all() {
    let status = DumpVersionStatus {
        jobs: vec![("a".to_string(), job("done")), ("b".to_string(), job("waiting"))],
        version: "20230301".to_string(),
    };
    let all = status.clone().select_jobs(None).expect("all jobs");
    assert_eq!(all.iter().map(|(n, _)| n.as_str()).collect::<Vec<&str>>(), vec!["a", "b"]);
    let one = status.clone().select_jobs(Some("b")).expect("known job");
    assert_eq!(one.len(), 1);
    assert_eq!(one[0].0, "b");
    assert_eq!(one[0].1.status, "waiting");
    match status.select_jobs(Some("c")) {
        Err(WikiError::JobNotFound { job }) => assert_eq!(job, "c"),
        _ => panic!("unknown job"),
    }
}

#[test]
fn version_status_keyed_by_name() {
    let ok = DumpVersionStatus {
        jobs: vec![("a".to_string(), job("done")), ("b".to_string(), job("done"))],
        version: "20230301".to_string(),
    };
    assert!(ok.is_keyed());
    let twice = DumpVersionStatus {
        jobs: vec![("a".to_string(), job("done")), ("a".to_string(), job("done"))],
        version: "20230301".to_string(),
    };
    assert!(!twice.is_keyed());
    let unsorted = DumpVersionStatus {
        jobs: vec![("b".to_string(), job("done")), ("a".to_string(), job("done"))],
        version: "20230301".to_string(),
    };
    assert!(!unsorted.is_keyed());
}
