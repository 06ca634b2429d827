//! A store for MediaWiki pages: pages are kept in chunk files and found
//! through an index.

pub mod chunk;
pub mod import;
pub mod index;

use vstd::prelude::*;
use crate::dump::types::{CategoryName, DumpName, Page};
use crate::error::WikiError;
use crate::paths::{join_path, path_join};
use crate::slug::slug_of;
use chunk::{
    page_len_estimate, store_page_id_bytes, ChunkBuilder, ChunkId, ChunkMeta, PageChunkIndex,
    StorePageId, MAX_LEN_DEFAULT,
};
use index::{
    concat_batches, page_categories, CategoryRow, ImportBatchBuilder, ImportBatches,
    PageCategoryRow, MAX_VALUES_PER_BATCH_DEFAULT,
};

verus! {

/// Whether an import has stored more pages than its limit, if it has one:
/// it then stops before the next chunk.
pub fn import_limit_passed(pages_total: u64, limit: Option<u64>) -> (r: bool)
    ensures
        r == (limit matches Some(l) && pages_total > l),
{
    match limit {
        Some(l) => pages_total > l,
        None => false,
    }
}

/// A chunk being imported together with the index rows of its pages.
pub struct ChunkImport {
    chunk: ChunkBuilder,
    index: ImportBatchBuilder,
}

/// Whether the index's page rows are those of the chunk's pages: one per
/// page, in order, with the page's MediaWiki ID, its store ID (the chunk's
/// ID and the page's index) and its slug.
pub open spec fn rows_match_pages(
    rows: Seq<index::PageRow>,
    pages: Seq<Page>,
    chunk_id: ChunkId,
) -> bool {
    &&& rows.len() == pages.len()
    &&& forall|i: int| 0 <= i < rows.len() ==> {
        &&& (#[trigger] rows[i]).mediawiki_id == pages[i].id
        &&& rows[i].store_id@ == store_page_id_bytes(
            StorePageId { chunk_id, page_chunk_idx: PageChunkIndex(i as u64) },
        )
        &&& rows[i].slug@ == slug_of(pages[i].title@)
    }
}

/// The categories of pages, in order, each with the MediaWiki ID of its
/// page: those of the first page, then those of the second, and so on.
pub open spec fn page_category_pairs(pages: Seq<Page>) -> Seq<(u64, CategoryName)>
    decreases pages.len(),
{
    if pages.len() == 0 {
        Seq::empty()
    } else {
        page_category_pairs(pages.drop_last()) + page_categories(pages.last()).map_values(
            |c: CategoryName| (pages.last().id, c),
        )
    }
}

/// Whether the index's category rows are those of `pairs`: one per
/// category, in order, holding its slug.
pub open spec fn category_rows_match(rows: Seq<CategoryRow>, pairs: Seq<(u64, CategoryName)>) -> bool {
    &&& rows.len() == pairs.len()
    &&& forall|i: int| 0 <= i < rows.len() ==> (#[trigger] rows[i]).slug@ == slug_of(pairs[i].1.0@)
}

/// Whether the index's page category rows are those of `pairs`: one per
/// category, in order, holding its page's MediaWiki ID and its slug.
pub open spec fn page_category_rows_match(
    rows: Seq<PageCategoryRow>,
    pairs: Seq<(u64, CategoryName)>,
) -> bool {
    &&& rows.len() == pairs.len()
    &&& forall|i: int| 0 <= i < rows.len() ==> {
        &&& (#[trigger] rows[i]).mediawiki_id == pairs[i].0
        &&& rows[i].category_slug@ == slug_of(pairs[i].1.0@)
    }
}

/// Rows that matched the categories of some pages, followed by the rows
/// of one more page, match the categories of all of them.
proof fn lemma_category_rows_extend(
    c0: Seq<CategoryRow>,
    c1: Seq<CategoryRow>,
    pc0: Seq<PageCategoryRow>,
    pc1: Seq<PageCategoryRow>,
    pages: Seq<Page>,
    page: Page,
)
    requires
        category_rows_match(c0, page_category_pairs(pages)),
        page_category_rows_match(pc0, page_category_pairs(pages)),
        c1.len() >= c0.len(),
        pc1.len() >= pc0.len(),
        c1.subrange(0, c0.len() as int) == c0,
        pc1.subrange(0, pc0.len() as int) == pc0,
        index::category_rows_of(c1.subrange(c0.len() as int, c1.len() as int), page_categories(page)),
        index::page_category_rows_of(
            pc1.subrange(pc0.len() as int, pc1.len() as int),
            page.id,
            page_categories(page),
        ),
    ensures
        category_rows_match(c1, page_category_pairs(pages.push(page))),
        page_category_rows_match(pc1, page_category_pairs(pages.push(page))),
{
    let all = pages.push(page);
    assert(all.drop_last() =~= pages);
    let pairs = page_category_pairs(all);
    let p0 = page_category_pairs(pages);
    let cats = page_categories(page);
    assert(pairs =~= p0 + cats.map_values(|c: CategoryName| (page.id, c)));
    let cs = c1.subrange(c0.len() as int, c1.len() as int);
    let pcs = pc1.subrange(pc0.len() as int, pc1.len() as int);
    assert forall|i: int| 0 <= i < c1.len() implies (#[trigger] c1[i]).slug@ == slug_of(
        pairs[i].1.0@,
    ) by {
        if i < c0.len() {
            assert(c1[i] == c0[i]);
        } else {
            assert(c1[i] == cs[i - c0.len()]);
        }
    }
    assert forall|i: int| 0 <= i < pc1.len() implies {
        &&& (#[trigger] pc1[i]).mediawiki_id == pairs[i].0
        &&& pc1[i].category_slug@ == slug_of(pairs[i].1.0@)
    } by {
        if i < pc0.len() {
            assert(pc1[i] == pc0[i]);
        } else {
            assert(pc1[i] == pcs[i - pc0.len()]);
        }
    }
}

impl ChunkImport {
    /// The pages of the chunk so far.
    pub closed spec fn pages(&self) -> Seq<Page> {
        self.chunk.spec_pages()
    }

    /// The chunk's length so far.
    pub closed spec fn len(&self) -> u64 {
        self.chunk.spec_len()
    }

    pub closed spec fn spec_chunk_id(&self) -> ChunkId {
        self.chunk.spec_chunk_id()
    }

    pub closed spec fn spec_max_len(&self) -> u64 {
        self.chunk.spec_max_len()
    }

    /// The number of rows to an insert statement.
    pub closed spec fn spec_max_values_per_batch(&self) -> usize {
        self.index.spec_max_batch_len()
    }

    /// The index page rows so far.
    pub closed spec fn page_rows(&self) -> Seq<index::PageRow> {
        self.index.page_rows()
    }

    /// The index category rows so far.
    pub closed spec fn category_rows(&self) -> Seq<CategoryRow> {
        self.index.category_rows()
    }

    /// The index page category rows so far.
    pub closed spec fn page_category_rows(&self) -> Seq<PageCategoryRow> {
        self.index.page_category_rows()
    }

    /// The chunk and its index rows agree.
    pub closed spec fn wf(&self) -> bool {
        &&& self.index.wf()
        &&& rows_match_pages(self.index.page_rows(), self.chunk.spec_pages(), self.chunk.spec_chunk_id())
        &&& category_rows_match(self.index.category_rows(), page_category_pairs(self.chunk.spec_pages()))
        &&& page_category_rows_match(
            self.index.page_category_rows(),
            page_category_pairs(self.chunk.spec_pages()),
        )
    }

    /// An empty chunk with this ID.
    pub fn new(chunk_id: ChunkId, max_chunk_len: u64, max_values_per_batch: usize) -> (r: ChunkImport)
        ensures
            r.wf(),
            r.pages() == Seq::<Page>::empty(),
            r.len() == 0,
            r.spec_chunk_id() == chunk_id,
            r.spec_max_len() == max_chunk_len,
            r.spec_max_values_per_batch() == max_values_per_batch,
    {
        ChunkImport {
            chunk: ChunkBuilder::new(chunk_id, max_chunk_len),
            index: ImportBatchBuilder::new(max_values_per_batch),
        }
    }

    /// The chunk's ID.
    pub fn chunk_id(&self) -> (r: ChunkId)
        ensures
            r == self.spec_chunk_id(),
    {
        self.chunk.chunk_id()
    }

    /// Adds a page to the chunk and its rows to the index; the answer says
    /// whether the chunk is now full.
    pub fn push(&mut self, page: Page) -> (full: bool)
        requires
            old(self).wf(),
            old(self).len() + page_len_estimate(page) <= u64::MAX,
            old(self).pages().len() < u64::MAX,
        ensures
            final(self).wf(),
            final(self).pages() == old(self).pages().push(page),
            final(self).len() == old(self).len() + page_len_estimate(page),
            final(self).spec_chunk_id() == old(self).spec_chunk_id(),
            final(self).spec_max_len() == old(self).spec_max_len(),
            final(self).spec_max_values_per_batch() == old(self).spec_max_values_per_batch(),
            full == (final(self).len() >= final(self).spec_max_len()),
            rows_match_pages(final(self).page_rows(), final(self).pages(), final(self).spec_chunk_id()),
            category_rows_match(final(self).category_rows(), page_category_pairs(final(self).pages())),
            page_category_rows_match(
                final(self).page_category_rows(),
                page_category_pairs(final(self).pages()),
            ),
    {
        let id = StorePageId {
            chunk_id: self.chunk.chunk_id(),
            page_chunk_idx: PageChunkIndex(self.chunk.page_count()),
        };
        let ghost rows0 = self.index.page_rows();
        let ghost pages0 = self.chunk.spec_pages();
        let ghost crows0 = self.index.category_rows();
        let ghost pcrows0 = self.index.page_category_rows();
        self.index.push(&page, id);
        let pushed = self.chunk.push(page);
        assert(pushed == id);
        proof {
            let rows = self.index.page_rows();
            let pages = self.chunk.spec_pages();
            assert forall|i: int| 0 <= i < rows.len() implies {
                &&& (#[trigger] rows[i]).mediawiki_id == pages[i].id
                &&& rows[i].store_id@ == store_page_id_bytes(
                    StorePageId { chunk_id: self.chunk.spec_chunk_id(), page_chunk_idx: PageChunkIndex(i as u64) },
                )
                &&& rows[i].slug@ == slug_of(pages[i].title@)
            } by {
                if i < rows0.len() {
                    assert(rows[i] == rows.drop_last()[i]);
                    assert(rows0[i] == rows[i]);
                    assert(pages[i] == pages0[i]);
                }
            }
            assert(pages.drop_last() =~= pages0);
            lemma_category_rows_extend(
                crows0,
                self.index.category_rows(),
                pcrows0,
                self.index.page_category_rows(),
                pages0,
                page,
            );
            assert(pages0.push(page) =~= pages);
        }
        self.chunk.is_full()
    }

    /// The chunk's pages, for writing, and the index batches of their rows:
    /// a page row for each page, and a category row and a page category row
    /// for each category of each page.
    pub fn finish(self) -> (r: (Vec<Page>, ImportBatches))
        requires
            self.wf(),
        ensures
            r.0@ == self.pages(),
            index::concat_batches(r.1.pages@.map_values(|b: Vec<index::PageRow>| b@))
                == self.page_rows(),
            rows_match_pages(self.page_rows(), self.pages(), self.spec_chunk_id()),
            concat_batches(r.1.categories@.map_values(|b: Vec<CategoryRow>| b@))
                == self.category_rows(),
            concat_batches(r.1.page_categories@.map_values(|b: Vec<PageCategoryRow>| b@))
                == self.page_category_rows(),
            category_rows_match(self.category_rows(), page_category_pairs(self.pages())),
            page_category_rows_match(self.page_category_rows(), page_category_pairs(self.pages())),
            index::import_batches_sized(r.1, self.spec_max_values_per_batch()),
    {
        let ChunkImport { chunk, index } = self;
        (chunk.into_pages(), index.into_batches())
    }
}

/// Totals over the chunks of an import. Like the counters they stand for,
/// they wrap around on overflow.
#[derive(Clone, Copy, Debug)]
pub struct ImportTotals {
    pub chunk_bytes_total: u64,
    pub chunks_len: u64,
    pub pages_total: u64,
}

impl ImportTotals {
    /// No chunks yet.
    pub fn new() -> (r: ImportTotals)
        ensures
            r.chunk_bytes_total == 0 && r.chunks_len == 0 && r.pages_total == 0,
    {
        ImportTotals { chunk_bytes_total: 0, chunks_len: 0, pages_total: 0 }
    }

    /// Counts a written chunk.
    pub fn add_chunk(&mut self, meta: &ChunkMeta)
        ensures
            final(self).chunk_bytes_total == (old(self).chunk_bytes_total + meta.bytes_len.0) % 0x1_0000_0000_0000_0000,
            final(self).pages_total == (old(self).pages_total + meta.pages_len) % 0x1_0000_0000_0000_0000,
            final(self).chunks_len == (old(self).chunks_len + 1) % 0x1_0000_0000_0000_0000,
    {
        self.chunk_bytes_total = self.chunk_bytes_total.wrapping_add(meta.bytes_len.0);
        self.pages_total = self.pages_total.wrapping_add(meta.pages_len);
        self.chunks_len = self.chunks_len.wrapping_add(1);
    }
}

/// The options of a store, as given: its dump and path are required.
#[derive(Clone, Debug)]
pub struct StoreOptions {
    pub dump_name: Option<DumpName>,
    pub max_chunk_len: Option<u64>,
    pub path: Option<String>,
}

/// The options of a store, complete: where its index and chunks are kept.
#[derive(Clone, Debug)]
pub struct StoreConfig {
    pub dump_name: DumpName,
    pub max_chunk_len: u64,
    pub path: String,
    pub index_path: String,
    pub chunks_path: String,
    pub max_values_per_batch: usize,
}

impl StoreOptions {
    /// No options given.
    pub fn new() -> (r: StoreOptions)
        ensures
            r.dump_name is None && r.max_chunk_len is None && r.path is None,
    {
        StoreOptions { dump_name: None, max_chunk_len: None, path: None }
    }

    /// Completes the options: the path, then the dump, must be given; the
    /// chunk length defaults to [`MAX_LEN_DEFAULT`]; the index is kept in
    /// `{path}/index` and the chunks in `{path}/chunks`.
    pub fn build_config(&self) -> (r: Result<StoreConfig, WikiError>)
        ensures
            self.path is None ==> (r matches Err(WikiError::MissingOption { field }) && field@ == "path"@),
            self.path is Some && self.dump_name is None ==> (r matches Err(
                WikiError::MissingOption { field },
            ) && field@ == "dump_name"@),
            self.path is Some && self.dump_name is Some ==> (r matches Ok(c) && {
                &&& Some(c.path) == self.path
                &&& Some(c.dump_name) == self.dump_name
                &&& c.max_chunk_len == match self.max_chunk_len {
                    Some(l) => l,
                    None => MAX_LEN_DEFAULT,
                }
                &&& c.index_path@ == path_join(c.path@, "index"@)
                &&& c.chunks_path@ == path_join(c.path@, "chunks"@)
                &&& c.max_values_per_batch == MAX_VALUES_PER_BATCH_DEFAULT
            }),
    {
        let path = match &self.path {
            Some(p) => p.clone(),
            None => {
                return Err(WikiError::MissingOption { field: "path" });
            },
        };
        let dump_name = match &self.dump_name {
            Some(d) => DumpName(d.0.clone()),
            None => {
                return Err(WikiError::MissingOption { field: "dump_name" });
            },
        };
        let max_chunk_len = match self.max_chunk_len {
            Some(l) => l,
            None => MAX_LEN_DEFAULT,
        };
        let index_path = join_path(path.as_str(), "index");
        let chunks_path = join_path(path.as_str(), "chunks");
        Ok(StoreConfig {
            dump_name,
            max_chunk_len,
            path,
            index_path,
            chunks_path,
            max_values_per_batch: MAX_VALUES_PER_BATCH_DEFAULT,
        })
    }
}

} // verus!
