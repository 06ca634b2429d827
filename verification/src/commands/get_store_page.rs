//! Getting pages from the page store: which pages the arguments select,
//! and how they are output.

use vstd::prelude::*;
use crate::error::WikiError;
use crate::paths::{join_path, path_join};
use crate::store::chunk::{ChunkId, StorePageId};
use crate::text::{chars_of, string_from_chars};

verus! {

/// How pages are output.
#[derive(Clone, Copy, Debug, PartialEq, Eq, Structural)]
pub enum OutputType {
    /// Rendered to HTML (one page only).
    Html,
    /// As JSON, without the revision's text.
    Json,
    /// As JSON, with the revision's text.
    JsonWithBody,
    /// Loaded with its title and IDs, then discarded.
    LoadDiscard,
    /// Loaded with its IDs only, then discarded.
    LoadIdDiscard,
    /// Not output at all.
    NoOutput,
}

/// Refuses HTML output where more than one page might be returned.
pub fn check_output_type_not_html(output_type: OutputType) -> (r: Result<(), WikiError>)
    ensures
        output_type == OutputType::Html ==> (r matches Err(WikiError::HtmlForManyPages)),
        output_type != OutputType::Html ==> r is Ok,
{
    match output_type {
        OutputType::Html => Err(WikiError::HtmlForManyPages),
        _ => Ok(()),
    }
}

/// The arguments of the command.
#[derive(Clone, Debug)]
pub struct GetStorePageArgs {
    pub store_page_id: Option<StorePageId>,
    pub chunk_id: Option<ChunkId>,
    pub mediawiki_id: Option<u64>,
    pub slug: Option<String>,
    pub out: OutputType,
    pub limit: Option<u64>,
    /// Open the HTML output in a browser.
    pub open: bool,
}

/// Which pages to get.
#[derive(Clone, Debug)]
pub enum PageSelector {
    ByStoreId(StorePageId),
    ByMediawikiId(u64),
    BySlug(String),
    /// The pages of one chunk, in order.
    ByChunk(ChunkId),
    /// The pages of every chunk, by chunk ID.
    All,
}

/// The names of the selecting arguments given, in this order:
/// `--store-page-id`, `--mediawiki-id`, `--slug`, `--chunk-id`.
pub open spec fn selectors_given(args: GetStorePageArgs) -> Seq<Seq<char>> {
    (if args.store_page_id is Some { seq!["--store-page-id"@] } else { seq![] })
        + (if args.mediawiki_id is Some { seq!["--mediawiki-id"@] } else { seq![] })
        + (if args.slug is Some { seq!["--slug"@] } else { seq![] })
        + (if args.chunk_id is Some { seq!["--chunk-id"@] } else { seq![] })
}

/// Which pages the arguments select. `--open` needs HTML output; at most
/// one selecting argument may be given (the error lists them); HTML output
/// is refused when a whole chunk, or the whole store, is selected.
pub fn select_pages(args: &GetStorePageArgs) -> (r: Result<PageSelector, WikiError>)
    ensures
        args.open && args.out != OutputType::Html ==> (r matches Err(WikiError::OpenNeedsHtml)),
        !(args.open && args.out != OutputType::Html) && selectors_given(*args).len() > 1 ==> (r matches Err(
            WikiError::ManySelectors { given },
        ) && given@.map_values(|s: &'static str| s@) == selectors_given(*args)),
        !(args.open && args.out != OutputType::Html) && selectors_given(*args).len() <= 1 ==> match r {
            Ok(PageSelector::ByStoreId(id)) => args.store_page_id == Some(id),
            Ok(PageSelector::ByMediawikiId(id)) => args.mediawiki_id == Some(id),
            Ok(PageSelector::BySlug(s)) => args.slug == Some(s),
            Ok(PageSelector::ByChunk(c)) => args.chunk_id == Some(c) && args.out != OutputType::Html,
            Ok(PageSelector::All) => selectors_given(*args).len() == 0 && args.out != OutputType::Html,
            Err(e) => e is HtmlForManyPages && args.out == OutputType::Html && (args.chunk_id is Some
                || selectors_given(*args).len() == 0),
        },
{
    if args.open && args.out != OutputType::Html {
        return Err(WikiError::OpenNeedsHtml);
    }
    let mut given: Vec<&'static str> = Vec::new();
    if args.store_page_id.is_some() {
        given.push("--store-page-id");
    }
    if args.mediawiki_id.is_some() {
        given.push("--mediawiki-id");
    }
    if args.slug.is_some() {
        given.push("--slug");
    }
    if args.chunk_id.is_some() {
        given.push("--chunk-id");
    }
    assert(given@.map_values(|s: &'static str| s@) =~= selectors_given(*args));
    if given.len() > 1 {
        return Err(WikiError::ManySelectors { given });
    }
    match (&args.store_page_id, &args.mediawiki_id, &args.slug, &args.chunk_id) {
        (Some(id), _, _, _) => Ok(PageSelector::ByStoreId(*id)),
        (None, Some(id), _, _) => Ok(PageSelector::ByMediawikiId(*id)),
        (None, None, Some(s), _) => Ok(PageSelector::BySlug(s.clone())),
        (None, None, None, Some(c)) => {
            match check_output_type_not_html(args.out) {
                Err(e) => Err(e),
                Ok(()) => Ok(PageSelector::ByChunk(*c)),
            }
        },
        (None, None, None, None) => {
            match check_output_type_not_html(args.out) {
                Err(e) => Err(e),
                Ok(()) => Ok(PageSelector::All),
            }
        },
    }
}

/// Whether enough pages were output: a limit is given and reached.
pub fn limit_reached(count: u64, limit: Option<u64>) -> (r: bool)
    ensures
        r == (limit matches Some(l) && count >= l),
{
    match limit {
        Some(l) => count >= l,
        None => false,
    }
}

/// Where a page's HTML is written to be opened:
/// `{out_dir}/temp/pages/{slug}_{rand}.html`.
pub fn html_page_path(out_dir: &str, slug: &str, rand: &str) -> (r: String)
    ensures
        r@ == path_join(out_dir@, "temp/pages/"@ + slug@ + seq!['_'] + rand@ + ".html"@),
{
    let mut v = chars_of("temp/pages/");
    let mut s = chars_of(slug);
    v.append(&mut s);
    v.push('_');
    let mut x = chars_of(rand);
    v.append(&mut x);
    let mut ext = chars_of(".html");
    v.append(&mut ext);
    let rel = string_from_chars(&v);
    join_path(out_dir, rel.as_str())
}

} // verus!
