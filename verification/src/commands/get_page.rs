//! Pages as the `get-page` command prints them: every revision has text.

use vstd::prelude::*;
use crate::dump::types;
use crate::error::WikiError;

verus! {

/// A page with its revision, if it has one.
#[derive(Clone, Debug)]
pub struct Page {
    pub title: String,
    pub ns_id: u64,
    pub id: u64,
    pub revision: Option<Revision>,
}

/// A revision, always with text.
#[derive(Clone, Debug)]
pub struct Revision {
    pub id: u64,
    pub text: String,
}

impl Page {
    /// The printed page of a dump page; a revision without text is an
    /// error.
    pub fn from_dump_page(page: types::Page) -> (r: Result<Page, WikiError>)
        ensures
            match page.revision {
                Some(rev) if rev.text is None => r matches Err(WikiError::RevisionTextMissing),
                _ => (r matches Ok(p) && p.title == page.title && p.ns_id == page.ns_id && p.id == page.id
                    && match page.revision {
                    Some(rev) => p.revision matches Some(pr) && pr.id == rev.id && Some(pr.text) == rev.text,
                    None => p.revision is None,
                }),
            },
    {
        let revision = match page.revision {
            None => None,
            Some(rev) => match rev.text {
                None => {
                    return Err(WikiError::RevisionTextMissing);
                },
                Some(text) => Some(Revision { id: rev.id, text }),
            },
        };
        Ok(Page { title: page.title, ns_id: page.ns_id, id: page.id, revision })
    }
}

} // verus!
