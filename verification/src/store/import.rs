//! The decisions of an import into the store: which chunk each page of the
//! dump's files goes into, when a chunk is handed out for writing, when the
//! import stops, and what it adds up. Reading the files and writing the
//! chunks and the index is left to the caller, which hands each outcome
//! back as an event.

use vstd::prelude::*;
use crate::dump::types::Page;
use crate::store::chunk::{nth_chunk_id, page_len_estimate, ChunkId, ChunkIdCounter, ChunkMeta};
use crate::store::index::{
    concat_batches, import_batches_sized, CategoryRow, ImportBatches, PageCategoryRow, PageRow,
};
use crate::store::{
    category_rows_match, page_category_pairs, page_category_rows_match, rows_match_pages,
    import_limit_passed, ChunkImport, ImportTotals,
};

verus! {

/// What the caller hands to an import.
pub enum ImportEvent {
    /// The next page of the file being read.
    Page(Page),
    /// The file being read has no more pages.
    FileEnd,
    /// The chunk handed out last has been written; these are its facts.
    ChunkWritten(ChunkMeta),
}

/// What an import asks of the caller.
pub enum ImportAction {
    /// Go on: hand in the next event.
    Continue,
    /// Write this chunk and insert these index batches, then hand in
    /// [`ImportEvent::ChunkWritten`].
    WriteChunk { chunk_id: ChunkId, pages: Vec<Page>, batches: ImportBatches },
    /// The page limit has been passed: read no further.
    Stop,
}

/// A chunk being filled: its ID, its pages so far and its length.
pub struct OpenChunk {
    pub id: ChunkId,
    pub pages: Seq<Page>,
    pub len: u64,
}

/// The state of an import.
pub struct ImportRunView {
    /// The ID that the next chunk gets.
    pub next_chunk_id: u64,
    /// The page limit, if any.
    pub limit: Option<u64>,
    /// The length at which a chunk is full.
    pub max_chunk_len: u64,
    /// The number of rows to an insert statement of the index.
    pub max_values_per_batch: usize,
    /// The chunk being filled, if any.
    pub open: Option<OpenChunk>,
    /// Whether a chunk has been handed out and its write not yet reported.
    pub writing: bool,
    /// Whether the import has stopped at its page limit.
    pub stopped: bool,
    pub chunk_bytes_total: u64,
    pub chunks_len: u64,
    pub pages_total: u64,
}

/// What an import asks, as a value.
pub enum ImportActionView {
    Continue,
    WriteChunk { chunk_id: ChunkId, pages: Seq<Page> },
    Stop,
}

/// `a + b` as a counter of 64 bits adds it: wrapping around.
pub open spec fn wrapping_sum(a: u64, b: u64) -> u64 {
    ((a + b) % 0x1_0000_0000_0000_0000) as u64
}

/// The chunk is handed out for writing and no chunk is open until the next
/// page.
pub open spec fn hand_out(s: ImportRunView, c: OpenChunk) -> (ImportRunView, ImportActionView) {
    (
        ImportRunView { open: None, writing: true, ..s },
        ImportActionView::WriteChunk { chunk_id: c.id, pages: c.pages },
    )
}

/// The page joins the chunk; a chunk whose length reaches the maximum is
/// full and handed out.
pub open spec fn add_page(s: ImportRunView, c: OpenChunk, p: Page) -> (ImportRunView, ImportActionView) {
    let c2 = OpenChunk { id: c.id, pages: c.pages.push(p), len: (c.len + page_len_estimate(p)) as u64 };
    if c2.len >= s.max_chunk_len {
        hand_out(s, c2)
    } else {
        (ImportRunView { open: Some(c2), ..s }, ImportActionView::Continue)
    }
}

/// One step of an import.
/// - Once stopped, it answers every event with `Stop`.
/// - A page goes into the open chunk. With none open, the import stops if
///   it has stored more pages than its limit; otherwise a new chunk is
///   opened for it, with the next chunk ID, and the IDs count on by one.
/// - A chunk is handed out when it is full, or when its file ends.
/// - A written chunk's bytes and pages are added to the totals, and one
///   chunk to their count.
pub open spec fn import_step_spec(s: ImportRunView, e: ImportEvent) -> (ImportRunView, ImportActionView) {
    if s.stopped {
        (s, ImportActionView::Stop)
    } else {
        match e {
            ImportEvent::Page(p) => match s.open {
                Some(c) => add_page(s, c, p),
                None => if s.limit matches Some(l) && s.pages_total > l {
                    (ImportRunView { stopped: true, ..s }, ImportActionView::Stop)
                } else {
                    add_page(
                        ImportRunView { next_chunk_id: wrapping_sum(s.next_chunk_id, 1), ..s },
                        OpenChunk { id: ChunkId(s.next_chunk_id), pages: Seq::empty(), len: 0 },
                        p,
                    )
                },
            },
            ImportEvent::FileEnd => match s.open {
                Some(c) => hand_out(s, c),
                None => (s, ImportActionView::Continue),
            },
            ImportEvent::ChunkWritten(m) => (
                ImportRunView {
                    writing: false,
                    chunk_bytes_total: wrapping_sum(s.chunk_bytes_total, m.bytes_len.0),
                    pages_total: wrapping_sum(s.pages_total, m.pages_len),
                    chunks_len: wrapping_sum(s.chunks_len, 1),
                    ..s
                },
                ImportActionView::Continue,
            ),
        }
    }
}

/// The events an import takes in a state: while a chunk is being written,
/// only the report of its write; otherwise any other, a page only where
/// the chunk's length and page count still fit in 64 bits.
pub open spec fn accepts(s: ImportRunView, e: ImportEvent) -> bool {
    s.stopped || match e {
        ImportEvent::ChunkWritten(_) => s.writing,
        ImportEvent::FileEnd => !s.writing,
        ImportEvent::Page(p) => !s.writing && match s.open {
            Some(c) => c.len + page_len_estimate(p) <= u64::MAX && c.pages.len() < u64::MAX,
            None => page_len_estimate(p) <= u64::MAX,
        },
    }
}

/// The pages of the open chunk, if any.
pub open spec fn open_pages(s: ImportRunView) -> Seq<Page> {
    match s.open {
        Some(c) => c.pages,
        None => Seq::empty(),
    }
}

/// The pages an action hands out for writing.
pub open spec fn written_pages(a: ImportActionView) -> Seq<Page> {
    match a {
        ImportActionView::WriteChunk { pages, .. } => pages,
        _ => Seq::empty(),
    }
}

/// Every page that an import takes in lands in exactly one chunk: after
/// each step, the pages handed out for writing followed by those of the
/// open chunk are those of the open chunk before, followed by the page
/// taken in, if the step took one. A step that stops takes none. No chunk
/// is open without pages, so none is handed out empty.
pub proof fn lemma_step_places_each_page_once(s: ImportRunView, e: ImportEvent)
    requires
        s.open matches Some(c) ==> c.pages.len() > 0,
    ensures
        import_step_spec(s, e).0.open matches Some(c) ==> c.pages.len() > 0,
        ({
            let (s2, a) = import_step_spec(s, e);
            let taken = match e {
                ImportEvent::Page(p) => if a is Stop { Seq::<Page>::empty() } else { seq![p] },
                _ => Seq::<Page>::empty(),
            };
            &&& written_pages(a) + open_pages(s2) == open_pages(s) + taken
            &&& a is WriteChunk ==> written_pages(a).len() > 0
        }),
{
    let (s2, a) = import_step_spec(s, e);
    let e0 = Seq::<Page>::empty();
    let o = open_pages(s);
    assert(e0 + o =~= o);
    assert(o + e0 =~= o);
    if !s.stopped {
        match e {
            ImportEvent::Page(p) => {
                let c = match s.open {
                    Some(c) => c,
                    None => OpenChunk { id: ChunkId(s.next_chunk_id), pages: e0, len: 0 },
                };
                assert(c.pages.push(p) =~= c.pages + seq![p]);
                assert(c.pages.push(p) + e0 =~= c.pages.push(p));
                assert(e0 + c.pages.push(p) =~= c.pages.push(p));
                assert(e0 + e0 =~= e0);
            },
            _ => {},
        }
    }
}

/// How the chunk IDs of an import stand after `handed` chunks were handed
/// out: the open chunk, if any, has the next ID in turn, and the ID to give
/// next follows it.
pub open spec fn chunk_ids_counted(s: ImportRunView, start: u64, handed: nat) -> bool {
    match s.open {
        None => s.next_chunk_id == nth_chunk_id(start, handed),
        Some(c) => c.id.0 == nth_chunk_id(start, handed) && s.next_chunk_id == nth_chunk_id(
            start,
            handed + 1,
        ),
    }
}

/// Chunk IDs count up from the first, one per chunk: in a state where the
/// IDs stand as counted after `handed` chunks, a chunk handed out by the
/// next step has the ID `start + handed` (wrapping), and the IDs then stand
/// as counted after one more chunk. An import starts counted at 0 (see
/// [`ImportRun::new`]), so the `k`-th chunk it hands out has the ID
/// `start + k`.
pub proof fn lemma_chunk_ids_count_up(s: ImportRunView, e: ImportEvent, start: u64, handed: nat)
    requires
        chunk_ids_counted(s, start, handed),
    ensures
        ({
            let (s2, a) = import_step_spec(s, e);
            &&& a matches ImportActionView::WriteChunk { chunk_id, .. } ==> chunk_id.0
                == nth_chunk_id(start, handed)
            &&& chunk_ids_counted(
                s2,
                start,
                if a is WriteChunk {
                    handed + 1
                } else {
                    handed
                },
            )
        }),
{
    vstd::arithmetic::div_mod::lemma_add_mod_noop(start + handed, 1, 0x1_0000_0000_0000_0000);
}

/// An import stops only for its page limit: with no chunk open (and no
/// write awaited), a page stops it exactly when a limit is set and the pages
/// stored exceed it; otherwise the page goes into a new chunk with the next
/// chunk ID, whatever the chunk bytes written so far. Once stopped, it
/// stays stopped.
pub proof fn lemma_import_stops_only_past_page_limit(s: ImportRunView, p: Page)
    requires
        !s.stopped,
        s.open is None,
    ensures
        ({
            let (s2, a) = import_step_spec(s, ImportEvent::Page(p));
            &&& (a is Stop) == (s.limit matches Some(l) && s.pages_total > l)
            &&& a is Stop ==> s2.stopped && s2.open is None
            &&& !(a is Stop) ==> !s2.stopped && s2.next_chunk_id == wrapping_sum(s.next_chunk_id, 1)
                && match a {
                ImportActionView::WriteChunk { chunk_id, pages } => chunk_id.0 == s.next_chunk_id
                    && pages == seq![p],
                _ => s2.open matches Some(c) && c.id.0 == s.next_chunk_id && c.pages == seq![p],
            }
            &&& forall|b: u64| #![auto]
                import_step_spec(ImportRunView { chunk_bytes_total: b, ..s }, ImportEvent::Page(p)).1
                    == a
        }),
{
    assert(Seq::<Page>::empty().push(p) =~= seq![p]);
}

/// A stopped import answers every event with a stop and changes nothing.
pub proof fn lemma_stopped_import_stays_stopped(s: ImportRunView, e: ImportEvent)
    requires
        s.stopped,
    ensures
        import_step_spec(s, e) == (s, ImportActionView::Stop),
{
}

/// An action as a value./// An action as a value.
pub open spec fn action_view(a: ImportAction) -> ImportActionView {
    match a {
        ImportAction::Continue => ImportActionView::Continue,
        ImportAction::WriteChunk { chunk_id, pages, .. } => ImportActionView::WriteChunk {
            chunk_id,
            pages: pages@,
        },
        ImportAction::Stop => ImportActionView::Stop,
    }
}

/// Whether index batches hold the rows of a chunk's pages: a page row for
/// each page, and a category row and a page category row for each
/// category of each page, in order, each batch holding at least one row
/// and at most a full batch of `max_batch_len` (at least 1).
pub open spec fn batches_index_pages(
    b: ImportBatches,
    pages: Seq<Page>,
    chunk_id: ChunkId,
    max_batch_len: usize,
) -> bool {
    &&& import_batches_sized(b, max_batch_len)
    &&& rows_match_pages(concat_batches(b.pages@.map_values(|r: Vec<PageRow>| r@)), pages, chunk_id)
    &&& category_rows_match(
        concat_batches(b.categories@.map_values(|r: Vec<CategoryRow>| r@)),
        page_category_pairs(pages),
    )
    &&& page_category_rows_match(
        concat_batches(b.page_categories@.map_values(|r: Vec<PageCategoryRow>| r@)),
        page_category_pairs(pages),
    )
}

/// An import under way.
pub struct ImportRun {
    chunk_ids: ChunkIdCounter,
    limit: Option<u64>,
    max_chunk_len: u64,
    max_values_per_batch: usize,
    open: Option<ChunkImport>,
    writing: bool,
    stopped: bool,
    totals: ImportTotals,
}

impl View for ImportRun {
    type V = ImportRunView;

    closed spec fn view(&self) -> ImportRunView {
        ImportRunView {
            next_chunk_id: self.chunk_ids.spec_next(),
            limit: self.limit,
            max_chunk_len: self.max_chunk_len,
            max_values_per_batch: self.max_values_per_batch,
            open: match self.open {
                Some(c) => Some(OpenChunk { id: c.spec_chunk_id(), pages: c.pages(), len: c.len() }),
                None => None,
            },
            writing: self.writing,
            stopped: self.stopped,
            chunk_bytes_total: self.totals.chunk_bytes_total,
            chunks_len: self.totals.chunks_len,
            pages_total: self.totals.pages_total,
        }
    }
}

impl ImportRun {
    /// The open chunk agrees with its index rows and has the import's
    /// maximum length.
    pub closed spec fn wf(&self) -> bool {
        self.open matches Some(c) ==> c.wf() && c.spec_max_len() == self.max_chunk_len
            && c.spec_max_values_per_batch() == self.max_values_per_batch
    }

    /// An import that starts at chunk `next_chunk_id`, stops before a new
    /// chunk once it has stored more than `limit` pages, and fills each
    /// chunk up to `max_chunk_len`.
    pub fn new(
        next_chunk_id: ChunkId,
        limit: Option<u64>,
        max_chunk_len: u64,
        max_values_per_batch: usize,
    ) -> (r: ImportRun)
        ensures
            r.wf(),
            r@ == (ImportRunView {
                next_chunk_id: next_chunk_id.0,
                limit,
                max_chunk_len,
                max_values_per_batch,
                open: None,
                writing: false,
                stopped: false,
                chunk_bytes_total: 0,
                chunks_len: 0,
                pages_total: 0,
            }),
            chunk_ids_counted(r@, next_chunk_id.0, 0),
    {
        ImportRun {
            chunk_ids: ChunkIdCounter::starting_at(next_chunk_id),
            limit,
            max_chunk_len,
            max_values_per_batch,
            open: None,
            writing: false,
            stopped: false,
            totals: ImportTotals::new(),
        }
    }

    /// The totals so far: chunk bytes written, chunks written, pages
    /// stored.
    pub fn totals(&self) -> (r: ImportTotals)
        ensures
            r.chunk_bytes_total == self@.chunk_bytes_total,
            r.chunks_len == self@.chunks_len,
            r.pages_total == self@.pages_total,
    {
        self.totals
    }

    /// Hands out the chunk `c`.
    fn write_action(c: ChunkImport) -> (a: ImportAction)
        requires
            c.wf(),
        ensures
            action_view(a) == (ImportActionView::WriteChunk { chunk_id: c.spec_chunk_id(), pages: c.pages() }),
            a matches ImportAction::WriteChunk { chunk_id, pages, batches } ==> batches_index_pages(
                batches,
                pages@,
                chunk_id,
                c.spec_max_values_per_batch(),
            ),
    {
        let chunk_id = c.chunk_id();
        let (pages, batches) = c.finish();
        ImportAction::WriteChunk { chunk_id, pages, batches }
    }

    /// Adds a page to the chunk `c`, handing the chunk out if it is full.
    fn take_page(&mut self, c: ChunkImport, page: Page) -> (a: ImportAction)
        requires
            c.wf(),
            c.spec_max_len() == old(self).max_chunk_len,
            c.spec_max_values_per_batch() == old(self).max_values_per_batch,
            c.len() + page_len_estimate(page) <= u64::MAX,
            c.pages().len() < u64::MAX,
            old(self).open is None,
        ensures
            final(self).wf(),
            (final(self)@, action_view(a)) == add_page(
                old(self)@,
                OpenChunk { id: c.spec_chunk_id(), pages: c.pages(), len: c.len() },
                page,
            ),
            a matches ImportAction::WriteChunk { chunk_id, pages, batches } ==> batches_index_pages(
                batches,
                pages@,
                chunk_id,
                old(self).max_values_per_batch,
            ),
    {
        let mut c = c;
        let full = c.push(page);
        if full {
            self.writing = true;
            Self::write_action(c)
        } else {
            self.open = Some(c);
            ImportAction::Continue
        }
    }

    /// Takes an event and answers what to do next (see
    /// [`import_step_spec`]). A chunk handed out comes with the index
    /// batches of its pages.
    pub fn step(&mut self, e: ImportEvent) -> (a: ImportAction)
        requires
            old(self).wf(),
            accepts(old(self)@, e),
        ensures
            final(self).wf(),
            (final(self)@, action_view(a)) == import_step_spec(old(self)@, e),
            a matches ImportAction::WriteChunk { chunk_id, pages, batches } ==> batches_index_pages(
                batches,
                pages@,
                chunk_id,
                old(self)@.max_values_per_batch,
            ),
    {
        if self.stopped {
            return ImportAction::Stop;
        }
        match e {
            ImportEvent::Page(page) => {
                match self.open.take() {
                    Some(c) => self.take_page(c, page),
                    None => {
                        if import_limit_passed(self.totals.pages_total, self.limit) {
                            self.stopped = true;
                            ImportAction::Stop
                        } else {
                            let id = self.chunk_ids.next_id();
                            let c = ChunkImport::new(id, self.max_chunk_len, self.max_values_per_batch);
                            self.take_page(c, page)
                        }
                    },
                }
            },
            ImportEvent::FileEnd => {
                match self.open.take() {
                    Some(c) => {
                        self.writing = true;
                        Self::write_action(c)
                    },
                    None => ImportAction::Continue,
                }
            },
            ImportEvent::ChunkWritten(meta) => {
                self.writing = false;
                self.totals.add_chunk(&meta);
                ImportAction::Continue
            },
        }
    }
}

} // verus!
