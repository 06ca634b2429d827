use wikimedia::args::{CommonArgs, HttpCacheMode};
use wikimedia::dump::local::files_total_len;
use wikimedia::dump::types::{CategorySlug, DumpName, Page, Revision, Timestamp};
use wikimedia::error::WikiError;
use wikimedia::http::{decode_body, response_text};
use wikimedia::render::{
    page_html_from_pandoc, page_html_policy, page_links_lua_filter, pandoc_args, pandoc_input,
    pandoc_result,
};
use wikimedia::store::chunk::{ChunkId, ChunkMeta, StorePageId, PageChunkIndex, MAX_LEN_DEFAULT};
use wikimedia::store::index::Page as IndexPage;
use wikimedia::store::{import_limit_passed, ChunkImport, ImportTotals, StoreOptions};
use wikimedia::util::fmt::Bytes;
use wikimedia::web::{
    categories_show_more_href, category_pages_show_more_href, check_store_dump_name, page_debug_fields,
    page_html_fields, page_response, PageResponse,
};

#[test]
fn response_text_uses_the_charset() {
    assert_eq!(response_text(Some("text/html; charset=utf-8"), "héllo".as_bytes()), "héllo");
    assert_eq!(response_text(Some("text/plain; charset=ISO-8859-1"), &[0x68, 0xe9]), "hé");
    assert_eq!(response_text(None, "abc".as_bytes()), "abc");
    assert_eq!(response_text(Some("not a mime type"), "abc".as_bytes()), "abc");
    assert_eq!(decode_body(Some("no-such-charset"), "x".as_bytes()), "x");
    assert_eq!(decode_body(None, &[0x61, 0xff]), "a\u{fffd}");
}

#[test]
fn lua_filter_points_links_at_the_dump() {
    let f = page_links_lua_filter("enwiki");
    assert!(f.contains("target = \"/enwiki/category/by-name/\" .. name"));
    assert!(f.contains("target = \"/enwiki/page/by-title/\" .. el.target"));
    assert!(f.contains("string.find(target, \"^http\")"));
}

#[test]
fn pandoc_arguments() {
    let a = pandoc_args("/t/template.html", "/t/filter.lua");
    assert_eq!(a.len(), 16);
    assert_eq!(a[0], "--from");
    assert_eq!(a[7], "/t/template.html");
    assert_eq!(a[15], "/t/filter.lua");
}

#[test]
fn pandoc_input_escapes_templates() {
    let page = Page {
        ns_id: 0,
        id: 1,
        title: "T".to_string(),
        revision: Some(Revision {
            id: 2,
            parent_id: None,
            timestamp: None,
            text: Some("a {{b}} c".to_string()),
            categories: vec![],
            sha1: None,
        }),
    };
    assert_eq!(pandoc_input(&page), "a <pre>{{b}}</pre> c");
    let empty = Page { ns_id: 0, id: 1, title: "T".to_string(), revision: None };
    assert_eq!(pandoc_input(&empty), "");
}

#[test]
fn pandoc_output_is_sanitised() {
    let html = page_html_from_pandoc(b"<h2 id=\"x\">Hi</h2><script>alert(1)</script><a href=\"javascript:x\">l</a>");
    assert!(html.contains("<h2 id=\"x\">Hi</h2>"));
    assert!(!html.contains("script"));
    assert!(!html.contains("javascript"));
}

#[test]
fn pandoc_output_keeps_allowed_links_only() {
    let html = page_html_from_pandoc(
        b"<a href=\"https://e.org/\" id=\"l\">a</a><a href=\"ftp://e.org/\">b</a><li id=\"i\">c</li>",
    );
    assert!(html.contains("href=\"https://e.org/\""));
    assert!(html.contains("rel=\"noopener noreferrer nofollow\""));
    assert!(html.contains("id=\"l\""));
    assert!(html.contains("<li id=\"i\">"));
    assert!(!html.contains("ftp:"));
}

#[test]
fn page_policy_values() {
    let p = page_html_policy();
    assert_eq!(p.url_schemes, vec!["http", "https", "mailto"]);
    assert_eq!(p.link_rel, "noopener noreferrer nofollow");
    assert_eq!(p.kept_attr_tags, vec!["a", "h1", "h2", "h3", "h4", "h5", "h6", "li"]);
    assert_eq!(p.kept_attr, "id");
}

#[test]
fn pandoc_failure_is_an_error() {
    match pandoc_result(false, Some(2), b"out", b"bad \xff") {
        Err(WikiError::PandocFailed { code, stdout, stderr }) => {
            assert_eq!(code, Some(2));
            assert_eq!(stdout, "out");
            assert_eq!(stderr, "bad \u{fffd}");
        }
        _ => panic!("a failed run is an error"),
    }
    assert_eq!(pandoc_result(true, Some(0), b"<p>x</p>", b"").expect("success"), "<p>x</p>");
}

fn page(id: u64, title: &str) -> Page {
    Page { ns_id: 0, id, title: title.to_string(), revision: None }
}

#[test]
fn chunk_import_keeps_index_rows_in_step() {
    let mut ci = ChunkImport::new(ChunkId(7), 6, 2);
    assert!(!ci.push(page(10, "Ab c")));
    assert!(ci.push(page(11, "Defg")));
    let (pages, batches) = ci.finish();
    assert_eq!(pages.len(), 2);
    let rows: Vec<_> = batches.pages.into_iter().flatten().collect();
    assert_eq!(rows.len(), 2);
    assert_eq!(rows[1].mediawiki_id, 11);
    assert_eq!(rows[1].store_id, StorePageId::new(ChunkId(7), PageChunkIndex(1)).to_bytes());
    assert_eq!(rows[0].slug, "Ab_c");
}

#[test]
fn import_totals_and_limits() {
    let mut t = ImportTotals::new();
    let meta = ChunkMeta { bytes_len: Bytes(100), id: ChunkId(0), pages_len: 3, path: "p".to_string() };
    t.add_chunk(&meta);
    t.add_chunk(&meta);
    assert_eq!((t.chunk_bytes_total, t.chunks_len, t.pages_total), (200, 2, 6));
    assert!(import_limit_passed(11, Some(10)));
    assert!(!import_limit_passed(10, Some(10)));
    assert!(!import_limit_passed(1_000, None));
    assert_eq!(files_total_len(&vec![1, 2, 3]), 6);
}

#[test]
fn store_options_are_completed() {
    let mut o = StoreOptions::new();
    assert!(matches!(o.build_config(), Err(WikiError::MissingOption { field: "path" })));
    o.path = Some("/s".to_string());
    assert!(matches!(o.build_config(), Err(WikiError::MissingOption { field: "dump_name" })));
    o.dump_name = Some(DumpName("enwiki".to_string()));
    let c = o.build_config().unwrap();
    assert_eq!(c.max_chunk_len, MAX_LEN_DEFAULT);
    assert_eq!(c.index_path, "/s/index");
    assert_eq!(c.chunks_path, "/s/chunks");

    let common = CommonArgs {
        store_dump_name: DumpName("simplewiki".to_string()),
        out_dir: None,
        http_cache_mode: HttpCacheMode::NoCache,
    };
    let so = common.store_options("/o");
    assert_eq!(so.path.as_deref(), Some("/o/stores/simplewiki"));
    let h = common.http_options("/o");
    assert_eq!(h.cache_path, "/o/http_cache");
    assert_eq!(h.cache_mode, HttpCacheMode::NoCache);
}

#[test]
fn web_show_more_links() {
    let cats: Vec<CategorySlug> = (0..100).map(|i| CategorySlug(format!("c{i:03}"))).collect();
    assert_eq!(categories_show_more_href("enwiki", None, &cats).as_deref(),
               Some("/enwiki/category?slug_lower_bound=c099"));
    assert_eq!(categories_show_more_href("enwiki", Some(5), &cats[..5].to_vec()).as_deref(),
               Some("/enwiki/category?slug_lower_bound=c004&limit=5"));
    assert_eq!(categories_show_more_href("enwiki", Some(5), &cats[..3].to_vec()), None);
    assert_eq!(categories_show_more_href("enwiki", None, &vec![]), None);

    let pages = vec![
        IndexPage { mediawiki_id: 3, store_id: StorePageId::new(ChunkId(0), PageChunkIndex(0)), slug: "A".to_string() },
        IndexPage { mediawiki_id: 8, store_id: StorePageId::new(ChunkId(0), PageChunkIndex(1)), slug: "B".to_string() },
    ];
    assert_eq!(category_pages_show_more_href("enwiki", "Cats", Some(2), &pages).as_deref(),
               Some("/enwiki/category/by-name/Cats?page_mediawiki_id_lower_bound=8&limit=2"));
    assert_eq!(category_pages_show_more_href("enwiki", "Cats", Some(3), &pages), None);

    assert!(check_store_dump_name("enwiki", "enwiki").is_ok());
    assert!(matches!(check_store_dump_name("dewiki", "enwiki"), Err(WikiError::WrongStoreDump { .. })));
}

#[test]
fn timestamps_parse() {
    let t = Timestamp::parse_rfc3339("2023-03-01T12:00:00+01:00").unwrap();
    assert_eq!(t.offset_secs, 3600);
    assert_eq!(t.secs, 1677668400);
    assert!(Timestamp::parse_rfc3339("2023-03-01").is_none());
}

#[test]
fn web_page_views() {
    assert_eq!(page_response(false, Some(true)), PageResponse::NotFound);
    assert_eq!(page_response(true, Some(true)), PageResponse::Debug);
    assert_eq!(page_response(true, Some(false)), PageResponse::Rendered);
    assert_eq!(page_response(true, None), PageResponse::Rendered);

    let p = Page {
        ns_id: 0,
        id: 30007,
        title: "The Matrix".to_string(),
        revision: Some(Revision {
            id: 1,
            parent_id: None,
            timestamp: None,
            text: Some("''The Matrix''".to_string()),
            categories: vec![],
            sha1: None,
        }),
    };
    let id = StorePageId::new(ChunkId(1), PageChunkIndex(2));
    let d = page_debug_fields(&p, id, &DumpName("enwiki".to_string()));
    assert_eq!(d.slug, "The_Matrix");
    assert_eq!(d.wikitext, "''The Matrix''");
    assert_eq!(d.wikimedia_url_base.as_deref(), Some("https://en.wikipedia.org/wiki"));
    let h = page_html_fields(&p, "<p>x</p>".to_string(), &DumpName("dewiki".to_string()));
    assert_eq!(h.slug, "The_Matrix");
    assert_eq!(h.wikimedia_url_base, None);
}

#[test]
fn success_status_codes() {
    assert!(wikimedia::http::response_succeeded(200));
    assert!(wikimedia::http::response_succeeded(299));
    assert!(!wikimedia::http::response_succeeded(199));
    assert!(!wikimedia::http::response_succeeded(300));
    assert!(!wikimedia::http::response_succeeded(404));
}
