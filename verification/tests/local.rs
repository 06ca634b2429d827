use wikimedia::args::{
    CommonArgs, DumpNameArg, FileNameRegexArg, HttpCacheMode, HttpCacheModeParser, JobNameArg,
    OpenSpecArgs,
};
use wikimedia::article_dump;
use wikimedia::dump::local::{
    is_dump_file_name, job_file_path, job_path, Compression, OpenSpec, SourceSpec,
};
use wikimedia::dump::types::{self, DumpName, JobName, Version, VersionSpec};
use wikimedia::error::WikiError;
use wikimedia::user_regex::UserRegex;

fn dump_arg(s: &str) -> DumpNameArg {
    DumpNameArg { value: DumpName(s.to_string()) }
}

fn job_arg(s: &str) -> JobNameArg {
    JobNameArg { value: JobName(s.to_string()) }
}

#[test]
fn compression_names() {
    assert_eq!(Compression::parse("bzip2").unwrap(), Compression::Bzip2);
    assert_eq!(Compression::parse("BZ2").unwrap(), Compression::Bzip2);
    assert_eq!(Compression::parse("Lz4").unwrap(), Compression::LZ4);
    assert_eq!(Compression::parse("zstd").unwrap(), Compression::Zstd);
    assert_eq!(Compression::parse("NONE").unwrap(), Compression::Uncompressed);
    match Compression::parse("gzip") {
        Err(WikiError::InvalidCompression { value }) => assert_eq!(value, "gzip"),
        other => panic!("unexpected {other:?}"),
    }
    for c in Compression::value_variants() {
        assert_eq!(Compression::parse(c.name()).unwrap(), c);
    }
    assert_eq!(Compression::LZ4.to_display_string(), "LZ4");
    let parsed: Compression = "zstd".parse().unwrap();
    assert_eq!(parsed, Compression::Zstd);
}

#[test]
fn dump_file_names() {
    let name = "enwiki-20230301-pages-articles-multistream1.xml-p1p41242.bz2";
    assert!(is_dump_file_name(name, Compression::Bzip2, None));
    assert!(!is_dump_file_name(name, Compression::LZ4, None));
    assert!(!is_dump_file_name("enwiki-20230301-abstract.xml.gz", Compression::Bzip2, None));
    let re = UserRegex::parse("p1p").unwrap();
    assert!(is_dump_file_name(name, Compression::Bzip2, Some(&re)));
    let other = UserRegex::parse("p2p").unwrap();
    assert!(!is_dump_file_name(name, Compression::Bzip2, Some(&other)));
}

#[test]
fn local_job_paths() {
    let v = Version("20230301".to_string());
    assert_eq!(job_path("/out", &dump_arg("enwiki"), &v, &job_arg("articlesdump")),
               "/out/dumps/enwiki/20230301/articlesdump");
    let meta = types::FileMetadata {
        size: Some(1),
        url: Some("/enwiki/20230301/file.xml.bz2".to_string()),
        sha1: None,
        md5: None,
    };
    assert_eq!(job_file_path("/out", &dump_arg("enwiki"), &v, &job_arg("articlesdump"), &meta).unwrap(),
               "/out/dumps/enwiki/20230301/articlesdump/file.xml.bz2");
    let no_url = types::FileMetadata { size: None, url: None, sha1: None, md5: None };
    assert!(matches!(job_file_path("/out", &dump_arg("enwiki"), &v, &job_arg("articlesdump"), &no_url),
                     Err(WikiError::FileUrlMissing)));
}

#[test]
fn article_dump_job_paths() {
    let v = Version("20230301".to_string());
    assert_eq!(article_dump::job_path("out", &dump_arg("enwiki"), &v, &job_arg("articlesdump")),
               "out/enwiki/20230301/articlesdump");
    let meta = wikimedia::types::FileMetadata {
        size: 1,
        url: "/enwiki/20230301/f.bz2".to_string(),
        sha1: None,
        md5: None,
    };
    assert_eq!(article_dump::job_file_path("out", &dump_arg("enwiki"), &v, &job_arg("articlesdump"), &meta)
                   .unwrap(),
               "out/enwiki/20230301/articlesdump/f.bz2");
}

fn open_args() -> OpenSpecArgs {
    OpenSpecArgs {
        dump_name: None,
        version: None,
        job_name: None,
        job_file: None,
        seek: None,
        job_dir: None,
        compression: Compression::Bzip2,
        limit: Some(10),
        file_name_regex: FileNameRegexArg { value: None },
    }
}

#[test]
fn open_spec_from_args() {
    let mut a = open_args();
    a.job_file = Some("/x/file.bz2".to_string());
    a.seek = Some(5);
    let spec: OpenSpec = a.try_into_open_spec("/dumps").unwrap();
    match spec.source {
        SourceSpec::File(f) => {
            assert_eq!(f.path, "/x/file.bz2");
            assert_eq!(f.seek, Some(5));
        },
        _ => panic!("expected a file"),
    }
    assert_eq!(spec.limit, Some(10));

    let mut a = open_args();
    a.job_dir = Some("/x/dir".to_string());
    let spec = a.try_into_open_spec("/dumps").unwrap();
    assert_eq!(spec.source_dir().unwrap().0, "/x/dir");

    let mut a = open_args();
    a.dump_name = Some(dump_arg("enwiki"));
    a.version = Some(Version("20230301".to_string()));
    a.job_name = Some(job_arg("articlesdump"));
    let spec = a.try_into_open_spec("/dumps").unwrap();
    assert_eq!(spec.source_dir().unwrap().0, "/dumps/enwiki/20230301/articlesdump");

    let mut a = open_args();
    a.job_file = Some("f".to_string());
    a.job_dir = Some("d".to_string());
    assert!(matches!(a.try_into_open_spec("/dumps"), Err(WikiError::BothFileAndDir)));

    let mut a = open_args();
    a.dump_name = Some(dump_arg("enwiki"));
    assert!(matches!(a.try_into_open_spec("/dumps"), Err(WikiError::MissingSource)));
}

#[test]
fn common_args_paths() {
    let c = CommonArgs {
        store_dump_name: DumpName("enwiki".to_string()),
        out_dir: None,
        http_cache_mode: HttpCacheMode::Default,
    };
    assert_eq!(c.out_dir(Some("/data")).as_deref(), Some("/data"));
    assert_eq!(c.out_dir(None), None);
    let given = CommonArgs { out_dir: Some("/mine".to_string()), ..c.clone() };
    assert_eq!(given.out_dir(Some("/data")).as_deref(), Some("/mine"));
    assert_eq!(CommonArgs::dumps_path("/o"), "/o/dumps");
    assert_eq!(CommonArgs::http_cache_path("/o/"), "/o/http_cache");
    assert_eq!(c.store_path("/o"), "/o/stores/enwiki");
}

#[test]
fn http_cache_modes() {
    let p = HttpCacheModeParser;
    for name in p.possible_values() {
        assert!(p.parse_ref(name).is_ok());
    }
    assert_eq!(p.parse_ref("NoStore").unwrap(), HttpCacheMode::NoStore);
    match p.parse_ref("nostore") {
        Err(WikiError::InvalidHttpCacheMode { value }) => assert_eq!(value, "nostore"),
        other => panic!("unexpected {other:?}"),
    }
}

#[test]
fn versions_and_specs() {
    assert_eq!(Version::parse("20230301").unwrap().0, "20230301");
    assert!(matches!(Version::parse("2023030"), Err(WikiError::InvalidVersion)));
    assert!(matches!(VersionSpec::parse("latest"), Ok(VersionSpec::Latest)));
    assert!(matches!(VersionSpec::parse("20230301"), Ok(VersionSpec::Version(_))));
    assert!(matches!(VersionSpec::parse("yesterday"), Err(WikiError::InvalidVersionSpec)));
}

#[test]
fn user_regex_limits() {
    let long = "a".repeat(101);
    assert!(matches!(UserRegex::parse(&long), Err(WikiError::RegexTooLong { len: 101 })));
    assert!(UserRegex::parse(&"a".repeat(100)).is_ok());
    assert!(matches!(UserRegex::parse("("), Err(WikiError::Pattern { .. })));
    assert_eq!(UserRegex::parse("ab+").unwrap().as_str(), "ab+");
}
