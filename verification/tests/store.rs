use wikimedia::dump::types::{CategoryName, Page, Revision};
use wikimedia::error::WikiError;
use wikimedia::page_store::convert_store_page_to_article_dump_page_without_body;
use wikimedia::store::chunk::{
    chunk_file_name, chunk_id_from_file_name, chunk_path, convert_store_page_to_dump_page_without_body,
    chunk_ids_from_file_names, next_chunk_id, sort_chunk_ids, ChunkBuilder, ChunkId, PageChunkIndex, StorePageId, StoredPage, StoredRevision,
};
use wikimedia::store::chunk::{ChunkIdCounter, ChunkMeta};
use wikimedia::store::import::{ImportAction, ImportEvent, ImportRun};
use wikimedia::store::index::{page_from_row, query_limit, BatchInsert, ImportBatchBuilder, MAX_LIMIT};
use wikimedia::util::fmt::Bytes;

#[test]
fn store_page_id_bytes_roundtrip() {
    let id = StorePageId::new(ChunkId(0x0102030405060708), PageChunkIndex(42));
    let b = id.to_bytes();
    assert_eq!(b, [1, 2, 3, 4, 5, 6, 7, 8, 0, 0, 0, 0, 0, 0, 0, 42]);
    assert_eq!(StorePageId::try_from_bytes(&b).expect("16 bytes"), id);
    assert!(matches!(StorePageId::try_from_bytes(&b[..15]), Err(WikiError::StorePageIdLength)));
}

#[test]
fn store_page_id_text_roundtrip() {
    let id = StorePageId::new(ChunkId(12), PageChunkIndex(345));
    assert_eq!(id.to_display_string(), "12.345");
    assert_eq!(StorePageId::parse("12.345").expect("parses"), id);
    assert!(matches!(StorePageId::parse("12"), Err(WikiError::StorePageIdSegments)));
    assert!(matches!(StorePageId::parse("1.2.3"), Err(WikiError::StorePageIdSegments)));
    assert!(matches!(StorePageId::parse("a.2"), Err(WikiError::ParseInt)));
    assert_eq!(ChunkId::parse("77").expect("parses"), ChunkId(77));
}

#[test]
fn chunk_file_names() {
    assert_eq!(chunk_file_name(ChunkId(255)), "articles-00000000000000ff.cap");
    assert_eq!(chunk_path("/store/chunks", ChunkId(1)), "/store/chunks/articles-0000000000000001.cap");
    assert_eq!(chunk_id_from_file_name("articles-00000000000000ff.cap"), Some(ChunkId(255)));
    assert_eq!(chunk_id_from_file_name("articles-ff.cap"), None);
    assert_eq!(chunk_id_from_file_name("index"), None);
}

#[test]
fn next_chunk_id_after_existing() {
    assert_eq!(next_chunk_id(&vec![]), ChunkId(0));
    assert_eq!(next_chunk_id(&vec![ChunkId(3), ChunkId(9), ChunkId(1)]), ChunkId(10));
}

fn page(id: u64, title: &str, text: Option<&str>, cats: &[&str]) -> Page {
    Page {
        ns_id: 0,
        id,
        title: title.to_string(),
        revision: Some(Revision {
            id: id * 10,
            parent_id: None,
            timestamp: None,
            text: text.map(|t| t.to_string()),
            categories: cats.iter().map(|c| CategoryName(c.to_string())).collect(),
            sha1: None,
        }),
    }
}

#[test]
fn chunk_builder_assigns_ids_and_grows() {
    let mut b = ChunkBuilder::new(ChunkId(4), 10);
    let id0 = b.push(page(1, "Ab", Some("cde"), &[]));
    assert_eq!(id0, StorePageId::new(ChunkId(4), PageChunkIndex(0)));
    assert_eq!(b.curr_bytes_len(), 5);
    assert!(!b.is_full());
    let id1 = b.push(page(2, "é", Some("xyzw"), &[]));
    assert_eq!(id1.page_chunk_idx, PageChunkIndex(1));
    assert_eq!(b.curr_bytes_len(), 11);
    assert!(b.is_full());
    assert_eq!(b.chunk_id(), ChunkId(4));
    assert_eq!(b.into_pages().len(), 2);
}

#[test]
fn batches_hold_rows_in_order() {
    let mut b: BatchInsert<u32> = BatchInsert::new(2);
    for i in 0..5u32 {
        b.push_values(i);
    }
    assert_eq!(b.into_batches(), vec![vec![0, 1], vec![2, 3], vec![4]]);

    let mut one: BatchInsert<u32> = BatchInsert::new(0);
    one.push_values(7);
    one.push_values(8);
    assert_eq!(one.into_batches(), vec![vec![7], vec![8]]);

    let empty: BatchInsert<u32> = BatchInsert::new(3);
    assert!(empty.into_batches().is_empty());
}

#[test]
fn import_batches_of_pages() {
    let mut b = ImportBatchBuilder::new(100);
    let id = StorePageId::new(ChunkId(1), PageChunkIndex(2));
    b.push(&page(5, "Some title", None, &["Big cats", "Felines"]), id);
    let batches = b.into_batches();
    assert_eq!(batches.pages.len(), 1);
    let row = &batches.pages[0][0];
    assert_eq!(row.mediawiki_id, 5);
    assert_eq!(row.store_id, id.to_bytes());
    assert_eq!(row.slug, "Some_title");
    let cats: Vec<&str> = batches.categories[0].iter().map(|r| r.slug.as_str()).collect();
    assert_eq!(cats, vec!["Big_cats", "Felines"]);
    let pcs: Vec<(u64, &str)> = batches.page_categories[0].iter()
        .map(|r| (r.mediawiki_id, r.category_slug.as_str())).collect();
    assert_eq!(pcs, vec![(5, "Big_cats"), (5, "Felines")]);
}

#[test]
fn index_rows_and_limits() {
    let id = StorePageId::new(ChunkId(3), PageChunkIndex(4));
    let p = page_from_row(9, &id.to_bytes(), "Slug".to_string()).expect("16 bytes");
    assert_eq!(p.store_id, id);
    assert_eq!(p.mediawiki_id, 9);
    assert!(matches!(page_from_row(9, &[1, 2], "x".to_string()), Err(WikiError::StorePageIdLength)));
    assert_eq!(query_limit(None), MAX_LIMIT);
    assert_eq!(query_limit(Some(5)), 5);
    assert_eq!(query_limit(Some(1000)), MAX_LIMIT);
}

#[test]
fn stored_pages_convert() {
    let sp = StoredPage {
        ns_id: 14,
        id: 3,
        title: "Category:Things".to_string(),
        revision: Some(StoredRevision {
            id: 30,
            text: Some("[[Category:B]] [[Category:A]] [[Category:B]]".to_string()),
        }),
    };
    let p = convert_store_page_to_dump_page_without_body(&sp);
    assert_eq!(p.title, "Category:Things");
    assert_eq!((p.ns_id, p.id), (14, 3));
    let rev = p.revision.expect("revision");
    assert_eq!(rev.id, 30);
    assert!(rev.text.is_none());
    assert!(rev.categories.is_empty());

    let a = convert_store_page_to_article_dump_page_without_body(&sp);
    assert_eq!(a.ns_id, 14);
    let arev = a.revision.expect("revision");
    assert_eq!(arev.id, 30);
    assert!(arev.text.is_none());
}

#[test]
fn chunk_ids_sort_ascending() {
    let ids = vec![ChunkId(5), ChunkId(1), ChunkId(5), ChunkId(0)];
    assert_eq!(sort_chunk_ids(ids), vec![ChunkId(0), ChunkId(1), ChunkId(5), ChunkId(5)]);
    assert!(sort_chunk_ids(vec![]).is_empty());
}

#[test]
fn chunk_ids_from_directory_names() {
    let names = vec![
        "articles-0000000000000002.cap".to_string(),
        "temp".to_string(),
        "articles-00000000000000a0.cap".to_string(),
        "articles-0000000000000002.capx".to_string(),
    ];
    assert_eq!(chunk_ids_from_file_names(&names), vec![ChunkId(2), ChunkId(160)]);
}

fn meta(id: u64, pages_len: u64, bytes: u64) -> ChunkMeta {
    ChunkMeta { bytes_len: Bytes(bytes), id: ChunkId(id), pages_len, path: String::new() }
}

#[test]
fn import_run_fills_chunks_and_counts() {
    // Chunks are full at 10 bytes of titles and texts.
    let mut run = ImportRun::new(ChunkId(5), None, 10, 100);
    assert!(matches!(run.step(ImportEvent::Page(page(1, "Ab", Some("cdef"), &["X", "Y"]))), ImportAction::Continue));
    match run.step(ImportEvent::Page(page(2, "Gh", Some("ijklmn"), &["Z"]))) {
        ImportAction::WriteChunk { chunk_id, pages, batches } => {
            assert_eq!(chunk_id, ChunkId(5));
            assert_eq!(pages.iter().map(|p| p.id).collect::<Vec<u64>>(), vec![1, 2]);
            let rows: Vec<_> = batches.pages.concat();
            assert_eq!(rows.len(), 2);
            assert_eq!(rows[1].mediawiki_id, 2);
            assert_eq!(rows[1].slug, "Gh");
            let cats: Vec<String> = batches.categories.concat().into_iter().map(|r| r.slug).collect();
            assert_eq!(cats, vec!["X", "Y", "Z"]);
            let pcs: Vec<(u64, String)> = batches
                .page_categories
                .concat()
                .into_iter()
                .map(|r| (r.mediawiki_id, r.category_slug))
                .collect();
            assert_eq!(pcs, vec![(1, "X".to_string()), (1, "Y".to_string()), (2, "Z".to_string())]);
        }
        _ => panic!("a full chunk is handed out"),
    }
    assert!(matches!(run.step(ImportEvent::ChunkWritten(meta(5, 2, 300))), ImportAction::Continue));
    // A file's end hands out its last chunk, under the next ID.
    assert!(matches!(run.step(ImportEvent::Page(page(3, "O", None, &[]))), ImportAction::Continue));
    match run.step(ImportEvent::FileEnd) {
        ImportAction::WriteChunk { chunk_id, pages, .. } => {
            assert_eq!(chunk_id, ChunkId(6));
            assert_eq!(pages.len(), 1);
        }
        _ => panic!("the file's last chunk is handed out"),
    }
    assert!(matches!(run.step(ImportEvent::ChunkWritten(meta(6, 1, 50))), ImportAction::Continue));
    assert!(matches!(run.step(ImportEvent::FileEnd), ImportAction::Continue));
    let t = run.totals();
    assert_eq!((t.chunk_bytes_total, t.chunks_len, t.pages_total), (350, 2, 3));
}

#[test]
fn import_run_stops_past_its_limit() {
    let mut run = ImportRun::new(ChunkId(0), Some(1), 1000, 100);
    assert!(matches!(run.step(ImportEvent::Page(page(1, "A", None, &[]))), ImportAction::Continue));
    assert!(matches!(run.step(ImportEvent::Page(page(2, "B", None, &[]))), ImportAction::Continue));
    assert!(matches!(run.step(ImportEvent::FileEnd), ImportAction::WriteChunk { .. }));
    assert!(matches!(run.step(ImportEvent::ChunkWritten(meta(0, 2, 10))), ImportAction::Continue));
    // 2 pages stored, more than the limit of 1: no new chunk is started.
    assert!(matches!(run.step(ImportEvent::Page(page(3, "C", None, &[]))), ImportAction::Stop));
    assert!(matches!(run.step(ImportEvent::FileEnd), ImportAction::Stop));
    assert_eq!(run.totals().pages_total, 2);
}

#[test]
fn import_run_limit_not_passed_at_equal() {
    let mut run = ImportRun::new(ChunkId(0), Some(1), 1, 100);
    assert!(matches!(run.step(ImportEvent::Page(page(1, "A", None, &[]))), ImportAction::WriteChunk { .. }));
    assert!(matches!(run.step(ImportEvent::ChunkWritten(meta(0, 1, 1))), ImportAction::Continue));
    match run.step(ImportEvent::Page(page(2, "B", None, &[]))) {
        ImportAction::WriteChunk { chunk_id, .. } => assert_eq!(chunk_id, ChunkId(1)),
        _ => panic!("1 page stored is not past a limit of 1"),
    }
}

#[test]
fn store_page_id_parse_is_two_u64_parts() {
    let id = StorePageId::parse("007.1").expect("two u64 parts");
    assert_eq!(id.to_display_string(), "7.1");
    assert!(matches!(StorePageId::parse("7."), Err(WikiError::ParseInt)));
    assert!(matches!(StorePageId::parse(".1"), Err(WikiError::ParseInt)));
    assert!(matches!(StorePageId::parse("18446744073709551616.1"), Err(WikiError::ParseInt)));
    assert_eq!(StorePageId::parse("+3.4").expect("a plus sign is accepted").to_display_string(), "3.4");
}

#[test]
fn import_run_batches_within_size_and_ids_count_up() {
    let mut run = ImportRun::new(ChunkId(u64::MAX), None, 1, 1);
    match run.step(ImportEvent::Page(page(1, "A", Some("x"), &["P", "Q", "R"]))) {
        ImportAction::WriteChunk { chunk_id, batches, .. } => {
            assert_eq!(chunk_id, ChunkId(u64::MAX));
            assert_eq!(batches.categories.len(), 3);
            assert!(batches.categories.iter().all(|b| b.len() == 1));
            assert!(batches.page_categories.iter().all(|b| b.len() == 1));
            assert_eq!(batches.pages.len(), 1);
        }
        _ => panic!("a full chunk is handed out"),
    }
    assert!(matches!(run.step(ImportEvent::ChunkWritten(meta(u64::MAX, 1, 2))), ImportAction::Continue));
    match run.step(ImportEvent::Page(page(2, "B", Some("y"), &[]))) {
        ImportAction::WriteChunk { chunk_id, .. } => assert_eq!(chunk_id, ChunkId(0)),
        _ => panic!("a full chunk is handed out"),
    }
}

#[test]
fn chunk_id_counter_counts_up_and_clears() {
    let names = vec![
        "articles-0000000000000003.cap".to_string(),
        "index".to_string(),
        "articles-0000000000000009.cap".to_string(),
    ];
    let mut c = ChunkIdCounter::new(&chunk_ids_from_file_names(&names));
    assert_eq!(c.next_id(), ChunkId(10));
    assert_eq!(c.next_id(), ChunkId(11));
    c.clear();
    assert_eq!(c.next_id(), ChunkId(0));
    let mut empty = ChunkIdCounter::new(&vec![]);
    assert_eq!(empty.next_id(), ChunkId(0));
    let mut last = ChunkIdCounter::starting_at(ChunkId(u64::MAX));
    assert_eq!(last.next_id(), ChunkId(u64::MAX));
    assert_eq!(last.next_id(), ChunkId(0));
}
