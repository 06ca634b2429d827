//! The index of the page store: the rows that an import adds to it, grouped
//! into batches of insert statements, and the limits on its queries.

use vstd::prelude::*;
use crate::dump::types::{self, CategoryName};
use crate::error::WikiError;
use crate::slug::{slug_of, title_to_slug};
use crate::store::chunk::{store_page_id_bytes, store_page_id_from_bytes_spec, StorePageId};

verus! {

/// The most rows that a query of the index returns.
pub const MAX_LIMIT: u64 = 100;

/// How many values go into one insert statement when none is configured.
pub const MAX_VALUES_PER_BATCH_DEFAULT: usize = 100;

/// The number of rows a query returns: the limit asked for, or
/// [`MAX_LIMIT`] when none is, and never more than [`MAX_LIMIT`].
pub fn query_limit(limit: Option<u64>) -> (r: u64)
    ensures
        r == match limit {
            Some(l) => if l < MAX_LIMIT { l } else { MAX_LIMIT },
            None => MAX_LIMIT,
        },
{
    match limit {
        Some(l) => if l < MAX_LIMIT { l } else { MAX_LIMIT },
        None => MAX_LIMIT,
    }
}

/// The rows of a sequence of batches, in order.
pub open spec fn concat_batches<T>(batches: Seq<Seq<T>>) -> Seq<T>
    decreases batches.len(),
{
    if batches.len() == 0 {
        Seq::empty()
    } else {
        concat_batches(batches.drop_last()) + batches.last()
    }
}

/// The size of a full batch: the configured size, and at least 1.
pub open spec fn full_batch_len(max_batch_len: usize) -> nat {
    if max_batch_len == 0 { 1 } else { max_batch_len as nat }
}

/// Rows to insert, grouped into batches of a fixed size, one insert
/// statement each: a batch is closed as soon as it is full.
pub struct BatchInsert<T> {
    built: Vec<Vec<T>>,
    current: Vec<T>,
    max_batch_len: usize,
}

impl<T> BatchInsert<T> {
    /// The rows pushed so far, in order.
    pub closed spec fn rows(&self) -> Seq<T> {
        concat_batches(self.built@.map_values(|b: Vec<T>| b@)) + self.current@
    }

    /// The configured batch size.
    pub closed spec fn spec_max_batch_len(&self) -> usize {
        self.max_batch_len
    }

    /// The closed batches each hold a full batch; the open one holds less.
    pub closed spec fn wf(&self) -> bool {
        &&& forall|i: int| 0 <= i < self.built@.len() ==> (#[trigger] self.built@[i])@.len()
            == full_batch_len(self.max_batch_len)
        &&& self.current@.len() < full_batch_len(self.max_batch_len)
    }

    /// No rows yet, batched `max_batch_len` at a time (one at a time when
    /// it is 0).
    pub fn new(max_batch_len: usize) -> (r: BatchInsert<T>)
        ensures
            r.wf(),
            r.rows() == Seq::<T>::empty(),
            r.spec_max_batch_len() == max_batch_len,
    {
        let r = BatchInsert { built: Vec::new(), current: Vec::new(), max_batch_len };
        assert(r.built@.map_values(|b: Vec<T>| b@) =~= Seq::<Seq<T>>::empty());
        r
    }

    /// Adds a row; the batch under way is closed when it is full.
    pub fn push_values(&mut self, row: T)
        requires
            old(self).wf(),
        ensures
            final(self).wf(),
            final(self).rows() == old(self).rows().push(row),
            final(self).spec_max_batch_len() == old(self).spec_max_batch_len(),
    {
        let ghost before = self.rows();
        let ghost old_built = self.built@.map_values(|b: Vec<T>| b@);
        self.current.push(row);
        assert(self.rows() =~= before.push(row));
        if self.current.len() >= self.max_batch_len {
            let mut full: Vec<T> = Vec::new();
            std::mem::swap(&mut full, &mut self.current);
            let ghost fv = full@;
            self.built.push(full);
            assert(self.built@.map_values(|b: Vec<T>| b@) =~= old_built.push(fv));
            assert(old_built.push(fv).drop_last() =~= old_built);
            assert(self.rows() =~= before.push(row));
        }
    }

    /// The batches, in order: the closed ones, then the open one if it
    /// holds any rows. Together they hold the rows pushed, in order; each
    /// holds at least one row and at most a full batch.
    pub fn into_batches(self) -> (r: Vec<Vec<T>>)
        requires
            self.wf(),
        ensures
            concat_batches(r@.map_values(|b: Vec<T>| b@)) == self.rows(),
            forall|i: int| 0 <= i < r@.len() ==> 0 < (#[trigger] r@[i])@.len()
                <= full_batch_len(self.spec_max_batch_len()),
    {
        let ghost rows = self.rows();
        let ghost m = self.max_batch_len;
        let BatchInsert { built, current, max_batch_len } = self;
        let mut built = built;
        let ghost old_built = built@.map_values(|b: Vec<T>| b@);
        if current.len() > 0 {
            let ghost cv = current@;
            built.push(current);
            assert(built@.map_values(|b: Vec<T>| b@) =~= old_built.push(cv));
            assert(old_built.push(cv).drop_last() =~= old_built);
        } else {
            assert(current@ =~= Seq::<T>::empty());
            assert(rows =~= concat_batches(old_built));
        }
        assert forall|i: int| 0 <= i < built@.len() implies 0 < (#[trigger] built@[i])@.len()
            <= full_batch_len(m) by {
            if i < old_built.len() {
                assert(old_built[i] == built@[i]@);
            }
        }
        built
    }
}

/// A row of the pages table: a page's MediaWiki ID, its store ID (16
/// bytes) and its slug.
#[derive(Clone, Debug)]
pub struct PageRow {
    pub mediawiki_id: u64,
    pub store_id: [u8; 16],
    pub slug: String,
}

/// A row of the categories table: a category's slug.
#[derive(Clone, Debug)]
pub struct CategoryRow {
    pub slug: String,
}

/// A row of the page categories table: a page's MediaWiki ID and the slug
/// of one of its categories.
#[derive(Clone, Debug)]
pub struct PageCategoryRow {
    pub mediawiki_id: u64,
    pub category_slug: String,
}

/// The batches of an import, in the order they are executed: categories,
/// pages, then page categories.
pub struct ImportBatches {
    pub categories: Vec<Vec<CategoryRow>>,
    pub pages: Vec<Vec<PageRow>>,
    pub page_categories: Vec<Vec<PageCategoryRow>>,
}

/// The category names of a page's revision (none without a revision).
pub open spec fn page_categories(page: types::Page) -> Seq<CategoryName> {
    match page.revision {
        Some(r) => r.categories@,
        None => Seq::empty(),
    }
}

/// Whether `rows` are the category rows of `categories`: one per name, in
/// order, holding its slug.
pub open spec fn category_rows_of(rows: Seq<CategoryRow>, categories: Seq<CategoryName>) -> bool {
    rows.len() == categories.len() && forall|i: int|
        0 <= i < rows.len() ==> (#[trigger] rows[i]).slug@ == slug_of(categories[i].0@)
}

/// Whether `rows` are the page category rows of a page: one per category
/// name, in order, holding the page's ID and the category's slug.
pub open spec fn page_category_rows_of(
    rows: Seq<PageCategoryRow>,
    id: u64,
    categories: Seq<CategoryName>,
) -> bool {
    rows.len() == categories.len() && forall|i: int|
        0 <= i < rows.len() ==> (#[trigger] rows[i]).mediawiki_id == id && rows[i].category_slug@
            == slug_of(categories[i].0@)
}

/// Whether each batch holds at least one row and at most a full batch.
pub open spec fn batch_sizes_ok<T>(batches: Seq<Vec<T>>, max_batch_len: usize) -> bool {
    forall|i: int| 0 <= i < batches.len() ==> 0 < (#[trigger] batches[i])@.len() <= full_batch_len(
        max_batch_len,
    )
}

/// Whether the batches of every table are within the batch size.
pub open spec fn import_batches_sized(b: ImportBatches, max_batch_len: usize) -> bool {
    &&& batch_sizes_ok(b.categories@, max_batch_len)
    &&& batch_sizes_ok(b.pages@, max_batch_len)
    &&& batch_sizes_ok(b.page_categories@, max_batch_len)
}

/// The index rows of imported pages, batched for insertion.
pub struct ImportBatchBuilder {
    category_batch: BatchInsert<CategoryRow>,
    page_batch: BatchInsert<PageRow>,
    page_categories_batch: BatchInsert<PageCategoryRow>,
}

impl ImportBatchBuilder {
    /// The category rows added so far.
    pub closed spec fn category_rows(&self) -> Seq<CategoryRow> {
        self.category_batch.rows()
    }

    /// The page rows added so far.
    pub closed spec fn page_rows(&self) -> Seq<PageRow> {
        self.page_batch.rows()
    }

    /// The page category rows added so far.
    pub closed spec fn page_category_rows(&self) -> Seq<PageCategoryRow> {
        self.page_categories_batch.rows()
    }

    /// The batch size of each table.
    pub closed spec fn spec_max_batch_len(&self) -> usize {
        self.page_batch.spec_max_batch_len()
    }

    pub closed spec fn wf(&self) -> bool {
        &&& self.category_batch.wf()
        &&& self.page_batch.wf()
        &&& self.page_categories_batch.wf()
        &&& self.category_batch.spec_max_batch_len() == self.page_batch.spec_max_batch_len()
        &&& self.page_categories_batch.spec_max_batch_len() == self.page_batch.spec_max_batch_len()
    }

    /// No rows yet, `max_values_per_batch` rows to an insert statement.
    pub fn new(max_values_per_batch: usize) -> (r: ImportBatchBuilder)
        ensures
            r.wf(),
            r.category_rows() == Seq::<CategoryRow>::empty(),
            r.page_rows() == Seq::<PageRow>::empty(),
            r.page_category_rows() == Seq::<PageCategoryRow>::empty(),
            r.spec_max_batch_len() == max_values_per_batch,
    {
        ImportBatchBuilder {
            category_batch: BatchInsert::new(max_values_per_batch),
            page_batch: BatchInsert::new(max_values_per_batch),
            page_categories_batch: BatchInsert::new(max_values_per_batch),
        }
    }

    /// Adds the rows of a page stored at `store_page_id`: its page row
    /// (MediaWiki ID, store ID bytes, slug of its title), then for each
    /// category of its revision a category row and a page category row.
    pub fn push(&mut self, page: &types::Page, store_page_id: StorePageId)
        requires
            old(self).wf(),
        ensures
            final(self).wf(),
            final(self).spec_max_batch_len() == old(self).spec_max_batch_len(),
            final(self).page_rows().len() == old(self).page_rows().len() + 1,
            final(self).page_rows().drop_last() == old(self).page_rows(),
            final(self).page_rows().last().mediawiki_id == page.id,
            final(self).page_rows().last().store_id@ == store_page_id_bytes(store_page_id),
            final(self).page_rows().last().slug@ == slug_of(page.title@),
            final(self).category_rows().len() >= old(self).category_rows().len(),
            final(self).page_category_rows().len() >= old(self).page_category_rows().len(),
            final(self).category_rows().subrange(0, old(self).category_rows().len() as int)
                == old(self).category_rows(),
            category_rows_of(
                final(self).category_rows().subrange(
                    old(self).category_rows().len() as int,
                    final(self).category_rows().len() as int,
                ),
                page_categories(*page),
            ),
            final(self).page_category_rows().subrange(
                0,
                old(self).page_category_rows().len() as int,
            ) == old(self).page_category_rows(),
            page_category_rows_of(
                final(self).page_category_rows().subrange(
                    old(self).page_category_rows().len() as int,
                    final(self).page_category_rows().len() as int,
                ),
                page.id,
                page_categories(*page),
            ),
    {
        let store_id = store_page_id.to_bytes();
        let slug = title_to_slug(page.title.as_str());
        let ghost old_pages = self.page_batch.rows();
        self.page_batch.push_values(PageRow { mediawiki_id: page.id, store_id, slug });
        assert(self.page_batch.rows().drop_last() =~= old_pages);
        let ghost pb = self.page_batch;
        let ghost c0 = self.category_batch.rows();
        let ghost pc0 = self.page_categories_batch.rows();
        let ghost cats = page_categories(*page);
        match &page.revision {
            None => {
                assert(self.category_batch.rows().subrange(0, c0.len() as int) =~= c0);
                assert(self.page_categories_batch.rows().subrange(0, pc0.len() as int) =~= pc0);
            },
            Some(rev) => {
                let mut i: usize = 0;
                while i < rev.categories.len()
                    invariant
                        i <= rev.categories.len(),
                        cats == rev.categories@,
                        self.category_batch.wf(),
                        self.page_categories_batch.wf(),
                        self.category_batch.spec_max_batch_len() == old(self).category_batch.spec_max_batch_len(),
                        self.page_categories_batch.spec_max_batch_len()
                            == old(self).page_categories_batch.spec_max_batch_len(),
                        self.page_batch == pb,
                        self.category_batch.rows().len() == c0.len() + i,
                        self.category_batch.rows().subrange(0, c0.len() as int) == c0,
                        category_rows_of(
                            self.category_batch.rows().subrange(c0.len() as int, c0.len() + i),
                            cats.take(i as int),
                        ),
                        self.page_categories_batch.rows().len() == pc0.len() + i,
                        self.page_categories_batch.rows().subrange(0, pc0.len() as int) == pc0,
                        page_category_rows_of(
                            self.page_categories_batch.rows().subrange(pc0.len() as int, pc0.len() + i),
                            page.id,
                            cats.take(i as int),
                        ),
                    decreases rev.categories.len() - i,
                {
                    let ghost cr = self.category_batch.rows();
                    let ghost pcr = self.page_categories_batch.rows();
                    let cslug = rev.categories[i].to_slug();
                    self.category_batch.push_values(CategoryRow { slug: cslug.0 });
                    let cslug2 = rev.categories[i].to_slug();
                    self.page_categories_batch.push_values(
                        PageCategoryRow { mediawiki_id: page.id, category_slug: cslug2.0 },
                    );
                    proof {
                        let nc = self.category_batch.rows();
                        let npc = self.page_categories_batch.rows();
                        assert(nc.subrange(0, c0.len() as int) =~= cr.subrange(0, c0.len() as int));
                        assert(npc.subrange(0, pc0.len() as int) =~= pcr.subrange(0, pc0.len() as int));
                        assert(nc.subrange(c0.len() as int, c0.len() + i + 1) =~= cr.subrange(
                            c0.len() as int,
                            c0.len() + i,
                        ).push(nc.last()));
                        assert(npc.subrange(pc0.len() as int, pc0.len() + i + 1) =~= pcr.subrange(
                            pc0.len() as int,
                            pc0.len() + i,
                        ).push(npc.last()));
                        assert(cats.take(i + 1) =~= cats.take(i as int).push(cats[i as int]));
                    }
                    i = i + 1;
                }
                assert(cats.take(rev.categories.len() as int) =~= cats);
            },
        }
    }

    /// The batches to insert, in the order they are executed (see
    /// [`ImportBatches`]); each table's batches hold its rows in order.
    pub fn into_batches(self) -> (r: ImportBatches)
        requires
            self.wf(),
        ensures
            concat_batches(r.categories@.map_values(|b: Vec<CategoryRow>| b@)) == self.category_rows(),
            concat_batches(r.pages@.map_values(|b: Vec<PageRow>| b@)) == self.page_rows(),
            concat_batches(r.page_categories@.map_values(|b: Vec<PageCategoryRow>| b@))
                == self.page_category_rows(),
            import_batches_sized(r, self.spec_max_batch_len()),
    {
        ImportBatches {
            categories: self.category_batch.into_batches(),
            pages: self.page_batch.into_batches(),
            page_categories: self.page_categories_batch.into_batches(),
        }
    }
}

/// A page as the index finds it: its MediaWiki ID, its place in the store
/// and its slug.
#[derive(Clone, Debug)]
pub struct Page {
    pub mediawiki_id: u64,
    pub store_id: StorePageId,
    pub slug: String,
}

/// The page of a row of the pages table: the store ID is read back from
/// its 16 bytes, and any other length is an error.
pub fn page_from_row(mediawiki_id: u64, store_id_bytes: &[u8], slug: String) -> (r: Result<Page, WikiError>)
    ensures
        store_id_bytes@.len() == 16 ==> (r matches Ok(p) && p.mediawiki_id == mediawiki_id
            && p.store_id == store_page_id_from_bytes_spec(store_id_bytes@) && p.slug == slug),
        store_id_bytes@.len() != 16 ==> (r matches Err(WikiError::StorePageIdLength)),
{
    match StorePageId::try_from_bytes(store_id_bytes) {
        Ok(store_id) => Ok(Page { mediawiki_id, store_id, slug }),
        Err(e) => Err(e),
    }
}

} // verus!
