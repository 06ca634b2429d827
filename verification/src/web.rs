//! The decisions of the web server: which store a request may use, and the
//! links that show more results.

use vstd::prelude::*;
use crate::dump::dump_name_to_wikimedia_url_base;
use crate::dump::types::{CategorySlug, DumpName, Page};
use crate::dump::wikimedia_url_base;
use crate::patterns::opt_string_view;
use crate::render::page_wikitext;
use crate::slug::{slug_of, title_to_slug};
use crate::store::chunk::StorePageId;
use crate::error::WikiError;
use crate::store::index::{self, query_limit};
use crate::text::{chars_of, decimal, push_decimal, str_eq, string_from_chars};

verus! {

/// A request may only use the store that the server has loaded: the dump
/// it names must be the store's dump.
pub fn check_store_dump_name(requested: &str, loaded: &str) -> (r: Result<(), WikiError>)
    ensures
        requested@ == loaded@ ==> r is Ok,
        requested@ != loaded@ ==> (r matches Err(WikiError::WrongStoreDump { requested: q, loaded: l })
            && q@ == requested@ && l@ == loaded@),
{
    if str_eq(requested, loaded) {
        Ok(())
    } else {
        Err(WikiError::WrongStoreDump { requested: requested.to_owned(), loaded: loaded.to_owned() })
    }
}

/// The `&limit=` part of a link that shows more: present when the request
/// gave a limit.
pub open spec fn limit_pair(limit: Option<u64>) -> Seq<char> {
    match limit {
        Some(l) => "&limit="@ + decimal(l as nat),
        None => Seq::empty(),
    }
}

fn push_str(v: &mut Vec<char>, s: &str)
    ensures
        final(v)@ == old(v)@ + s@,
{
    let mut c = chars_of(s);
    v.append(&mut c);
}

fn push_limit_pair(v: &mut Vec<char>, limit: Option<u64>)
    ensures
        final(v)@ == old(v)@ + limit_pair(limit),
{
    match limit {
        Some(l) => {
            push_str(v, "&limit=");
            push_decimal(v, l);
        },
        None => {
            assert(old(v)@ + limit_pair(limit) =~= old(v)@);
        },
    }
}

/// The link to the next categories after a page of them: there is one
/// when the page is full (as many categories as the limit), starting after
/// the last category: `/{dump}/category?slug_lower_bound={last}` followed
/// by the request's limit.
pub fn categories_show_more_href(dump_name: &str, limit: Option<u64>, categories: &Vec<CategorySlug>) -> (r: Option<String>)
    ensures
        categories@.len() > 0 && categories@.len() == query_limit_spec(limit) ==> (r matches Some(h)
            && h@ == "/"@ + dump_name@ + "/category?slug_lower_bound="@ + categories@.last().0@
            + limit_pair(limit)),
        !(categories@.len() > 0 && categories@.len() == query_limit_spec(limit)) ==> r is None,
{
    let l = query_limit(limit);
    let n = categories.len();
    if n == 0 || n as u64 != l {
        return None;
    }
    let mut v: Vec<char> = Vec::new();
    push_str(&mut v, "/");
    push_str(&mut v, dump_name);
    push_str(&mut v, "/category?slug_lower_bound=");
    push_str(&mut v, categories[n - 1].0.as_str());
    push_limit_pair(&mut v, limit);
    Some(string_from_chars(&v))
}

/// The number of results a query returns (see [`query_limit`]).
pub open spec fn query_limit_spec(limit: Option<u64>) -> u64 {
    match limit {
        Some(l) => if l < crate::store::index::MAX_LIMIT { l } else { crate::store::index::MAX_LIMIT },
        None => crate::store::index::MAX_LIMIT,
    }
}

/// The link to the next pages of a category after a page of them: there
/// is one when the page is full, starting after the last page's MediaWiki
/// ID:
/// `/{dump}/category/by-name/{slug}?page_mediawiki_id_lower_bound={id}`
/// followed by the request's limit.
pub fn category_pages_show_more_href(
    dump_name: &str,
    category_slug: &str,
    limit: Option<u64>,
    pages: &Vec<index::Page>,
) -> (r: Option<String>)
    ensures
        pages@.len() > 0 && pages@.len() == query_limit_spec(limit) ==> (r matches Some(h) && h@
            == "/"@ + dump_name@ + "/category/by-name/"@ + category_slug@
            + "?page_mediawiki_id_lower_bound="@ + decimal(pages@.last().mediawiki_id as nat)
            + limit_pair(limit)),
        !(pages@.len() > 0 && pages@.len() == query_limit_spec(limit)) ==> r is None,
{
    let l = query_limit(limit);
    let n = pages.len();
    if n == 0 || n as u64 != l {
        return None;
    }
    let mut v: Vec<char> = Vec::new();
    push_str(&mut v, "/");
    push_str(&mut v, dump_name);
    push_str(&mut v, "/category/by-name/");
    push_str(&mut v, category_slug);
    push_str(&mut v, "?page_mediawiki_id_lower_bound=");
    push_decimal(&mut v, pages[n - 1].mediawiki_id);
    push_limit_pair(&mut v, limit);
    Some(string_from_chars(&v))
}

/// How a request for a page is answered.
#[derive(Clone, Copy, Debug, PartialEq, Eq, Structural)]
pub enum PageResponse {
    /// 404: no such page.
    NotFound,
    /// The page's fields and wikitext, for debugging.
    Debug,
    /// The page rendered to HTML.
    Rendered,
}

/// How a request for a page is answered: not found without a page, else
/// the debug view when asked for, else the rendered page.
pub fn page_response(found: bool, debug: Option<bool>) -> (r: PageResponse)
    ensures
        !found ==> r == PageResponse::NotFound,
        found && debug == Some(true) ==> r == PageResponse::Debug,
        found && debug != Some(true) ==> r == PageResponse::Rendered,
{
    if !found {
        return PageResponse::NotFound;
    }
    match debug {
        Some(true) => PageResponse::Debug,
        _ => PageResponse::Rendered,
    }
}

/// What the debug view of a page shows.
#[derive(Clone, Debug)]
pub struct PageDebugFields {
    pub title: String,
    pub ns_id: u64,
    pub mediawiki_id: u64,
    pub slug: String,
    pub store_page_id: StorePageId,
    pub wikitext: String,
    pub dump_name: String,
    pub wikimedia_url_base: Option<String>,
}

/// The debug view of a page: its fields, its slug, its wikitext (empty
/// without one), and the live wiki's URL base for the dump.
pub fn page_debug_fields(page: &Page, store_page_id: StorePageId, dump_name: &DumpName) -> (r: PageDebugFields)
    ensures
        r.title@ == page.title@,
        r.ns_id == page.ns_id,
        r.mediawiki_id == page.id,
        r.slug@ == slug_of(page.title@),
        r.store_page_id == store_page_id,
        r.wikitext@ == page_wikitext(*page),
        r.dump_name@ == dump_name.0@,
        opt_string_view(r.wikimedia_url_base) == wikimedia_url_base(dump_name.0@),
{
    proof {
        reveal_strlit("");
    }
    let text: &str = match page.revision_text() {
        Some(t) => t,
        None => "",
    };
    PageDebugFields {
        title: page.title.clone(),
        ns_id: page.ns_id,
        mediawiki_id: page.id,
        slug: title_to_slug(page.title.as_str()),
        store_page_id,
        wikitext: text.to_owned(),
        dump_name: dump_name.0.clone(),
        wikimedia_url_base: dump_name_to_wikimedia_url_base(dump_name),
    }
}

/// What the rendered view of a page shows.
#[derive(Clone, Debug)]
pub struct PageHtmlFields {
    pub title: String,
    pub slug: String,
    pub wikitext_html: String,
    pub dump_name: String,
    pub wikimedia_url_base: Option<String>,
}

/// The rendered view of a page, with the HTML of its wikitext.
pub fn page_html_fields(page: &Page, wikitext_html: String, dump_name: &DumpName) -> (r: PageHtmlFields)
    ensures
        r.title@ == page.title@,
        r.slug@ == slug_of(page.title@),
        r.wikitext_html == wikitext_html,
        r.dump_name@ == dump_name.0@,
        opt_string_view(r.wikimedia_url_base) == wikimedia_url_base(dump_name.0@),
{
    PageHtmlFields {
        title: page.title.clone(),
        slug: title_to_slug(page.title.as_str()),
        wikitext_html,
        dump_name: dump_name.0.clone(),
        wikimedia_url_base: dump_name_to_wikimedia_url_base(dump_name),
    }
}

} // verus!
