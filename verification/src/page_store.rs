//! Pages read back from the page store, as article dump pages.

use vstd::prelude::*;
use crate::article_dump;
use crate::store::chunk::StoredPage;

pub use crate::store::chunk::{ChunkId, ChunkMeta, StorePageId};

verus! {

/// The article dump page of a stored page, without its revision's text.
pub fn convert_store_page_to_article_dump_page_without_body(page: &StoredPage) -> (r: article_dump::Page)
    ensures
        r.ns_id == page.ns_id,
        r.id == page.id,
        r.title@ == page.title@,
        match page.revision {
            None => r.revision is None,
            Some(sr) => r.revision matches Some(rr) && rr.id == sr.id && rr.text is None,
        },
{
    let revision = match &page.revision {
        None => None,
        Some(rev) => Some(article_dump::Revision { id: rev.id, text: None }),
    };
    article_dump::Page { ns_id: page.ns_id, id: page.id, title: page.title.clone(), revision }
}

} // verus!
