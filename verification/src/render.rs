//! Rendering a page's wikitext as HTML with pandoc: the Lua filter that
//! points links at this server, pandoc's arguments, the wikitext handed to
//! it, and the sanitising of its output. Running pandoc is the caller's
//! business.

use vstd::prelude::*;
use crate::dump::types::Page;
use crate::error::WikiError;
use crate::text::{chars_of, string_from_chars};
use crate::wikitext::{escape_templates, templates_escaped, TEMPLATE_PATTERN};
use crate::patterns::regex_compiles;

verus! {

/// The template pandoc renders the page into: the table of contents, if
/// any, then the body.
pub const PANDOC_TEMPLATE: &'static str = "\n$if(toc)$\n  <nav id=\"$idprefix$TOC\" role=\"doc-toc\">\n\n    <h2 id=\"$idprefix$toc-title\">Table of contents</h2>\n\n    $table-of-contents$\n  </nav>\n$endif$\n\n$body$\n        ";

/// The Lua filter up to the link prefix of category pages.
pub const LUA_FILTER_START: &'static str = "\n            function Link(el)\n                local target = el.target\n                if string.find(target, \"^http\") ~= nil then\n                    -- nothing to do for http(s) links.\n                elseif string.find(target, \"^Category:\") ~= nil then\n                    -- internal link for category page\n                    local name = string.gsub(target, \"Category:\", \"\", 1)\n                    target = \"";

/// The Lua filter between the two link prefixes.
pub const LUA_FILTER_MIDDLE: &'static str = "\" .. name\n                else\n                    -- internal link for regular page\n                    target = \"";

/// The Lua filter after the link prefix of regular pages.
pub const LUA_FILTER_END: &'static str = "\" .. el.target\n                end\n                return pandoc.Link(el.content, target)\n            end\n        ";

/// The Lua filter for a dump's pages: links to `http` URLs are kept, links
/// to categories go to `/{dump}/category/by-name/{name}`, and other links
/// go to `/{dump}/page/by-title/{target}`.
pub open spec fn lua_filter(dump_name: Seq<char>) -> Seq<char> {
    LUA_FILTER_START@ + "/"@ + dump_name + "/category/by-name/"@ + LUA_FILTER_MIDDLE@ + "/"@
        + dump_name + "/page/by-title/"@ + LUA_FILTER_END@
}

/// The Lua filter for a dump holds one definition of `Link` and nothing
/// else: it opens with the definition's head ([`LUA_FILTER_START`]) whose
/// category branch sends a link to `/{dump}/category/by-name/{name}`, it
/// closes with the regular-page branch sending a link to
/// `/{dump}/page/by-title/{target}` and the `end` of the definition
/// ([`LUA_FILTER_END`]), and between the two lies only
/// [`LUA_FILTER_MIDDLE`]: its length is that of the fixed text plus twice
/// the dump's name, so no second definition fits. The Lua text itself is
/// the one given here: links to `http` URLs kept, `Category:` links to
/// category pages, any other link to the page of that title.
pub proof fn lemma_lua_filter_one_link_definition(dump_name: Seq<char>)
    ensures
        ({
            let f = lua_filter(dump_name);
            let head = LUA_FILTER_START@ + "/"@ + dump_name + "/category/by-name/"@;
            let tail = "/"@ + dump_name + "/page/by-title/"@ + LUA_FILTER_END@;
            &&& f.len() == LUA_FILTER_START@.len() + LUA_FILTER_MIDDLE@.len() + LUA_FILTER_END@.len()
                + 2 * dump_name.len() + 35
            &&& f.take(head.len() as int) == head
            &&& f.skip(f.len() - tail.len()) == tail
            &&& f.subrange(head.len() as int, f.len() - tail.len()) == LUA_FILTER_MIDDLE@
        }),
        LUA_FILTER_START@.len() == 415,
        LUA_FILTER_MIDDLE@.len() == 115,
        LUA_FILTER_END@.len() == 114,
        LUA_FILTER_START@.take(30) == "\n            function Link(el)"@,
        LUA_FILTER_START@ == "\n            function Link(el)\n                local target = el.target\n                if string.find(target, \"^http\") ~= nil then\n                    -- nothing to do for http(s) links.\n                elseif string.find(target, \"^Category:\") ~= nil then\n                    -- internal link for category page\n                    local name = string.gsub(target, \"Category:\", \"\", 1)\n                    target = \""@,
        LUA_FILTER_MIDDLE@ == "\" .. name\n                else\n                    -- internal link for regular page\n                    target = \""@,
        LUA_FILTER_END@ == "\" .. el.target\n                end\n                return pandoc.Link(el.content, target)\n            end\n        "@,
{
    reveal_strlit("\n            function Link(el)");
    reveal_strlit("\n            function Link(el)\n                local target = el.target\n                if string.find(target, \"^http\") ~= nil then\n                    -- nothing to do for http(s) links.\n                elseif string.find(target, \"^Category:\") ~= nil then\n                    -- internal link for category page\n                    local name = string.gsub(target, \"Category:\", \"\", 1)\n                    target = \"");
    reveal_strlit("\" .. name\n                else\n                    -- internal link for regular page\n                    target = \"");
    reveal_strlit("\" .. el.target\n                end\n                return pandoc.Link(el.content, target)\n            end\n        ");
    assert(LUA_FILTER_START@.take(30) =~= "\n            function Link(el)"@);
    reveal_strlit("/");
    reveal_strlit("/category/by-name/");
    reveal_strlit("/page/by-title/");
    let f = lua_filter(dump_name);
    let head = LUA_FILTER_START@ + "/"@ + dump_name + "/category/by-name/"@;
    let tail = "/"@ + dump_name + "/page/by-title/"@ + LUA_FILTER_END@;
    assert(f =~= head + LUA_FILTER_MIDDLE@ + tail);
    assert(f.take(head.len() as int) =~= head);
    assert(f.skip(f.len() - tail.len()) =~= tail);
    assert(f.subrange(head.len() as int, f.len() - tail.len()) =~= LUA_FILTER_MIDDLE@);
}

fn push_str(v: &mut Vec<char>, s: &str)
    ensures
        final(v)@ == old(v)@ + s@,
{
    let mut c = chars_of(s);
    v.append(&mut c);
}

/// The Lua filter for a dump's pages (see [`lua_filter`]).
pub fn page_links_lua_filter(dump_name: &str) -> (r: String)
    ensures
        r@ == lua_filter(dump_name@),
{
    let mut v: Vec<char> = Vec::new();
    push_str(&mut v, LUA_FILTER_START);
    push_str(&mut v, "/");
    push_str(&mut v, dump_name);
    push_str(&mut v, "/category/by-name/");
    push_str(&mut v, LUA_FILTER_MIDDLE);
    push_str(&mut v, "/");
    push_str(&mut v, dump_name);
    push_str(&mut v, "/page/by-title/");
    push_str(&mut v, LUA_FILTER_END);
    string_from_chars(&v)
}

/// pandoc's arguments: MediaWiki in, sandboxed standalone HTML out with the
/// template, IDs prefixed `wikitext-`, a table of contents, sections
/// numbered from 1, and the Lua filter.
pub fn pandoc_args(template_path: &str, lua_filter_path: &str) -> (r: Vec<String>)
    ensures
        r@.map_values(|s: String| s@) == seq![
            "--from"@, "mediawiki"@, "--to"@, "html"@, "--sandbox"@, "--standalone"@,
            "--template"@, template_path@, "--id-prefix"@, "wikitext-"@, "--toc"@,
            "--number-sections"@, "--number-offset"@, "1"@, "--lua-filter"@, lua_filter_path@,
        ],
{
    let mut v: Vec<String> = Vec::new();
    v.push("--from".to_owned());
    v.push("mediawiki".to_owned());
    v.push("--to".to_owned());
    v.push("html".to_owned());
    v.push("--sandbox".to_owned());
    v.push("--standalone".to_owned());
    v.push("--template".to_owned());
    v.push(template_path.to_owned());
    v.push("--id-prefix".to_owned());
    v.push("wikitext-".to_owned());
    v.push("--toc".to_owned());
    v.push("--number-sections".to_owned());
    v.push("--number-offset".to_owned());
    v.push("1".to_owned());
    v.push("--lua-filter".to_owned());
    v.push(lua_filter_path.to_owned());
    assert(v@.map_values(|s: String| s@) =~= seq![
        "--from"@, "mediawiki"@, "--to"@, "html"@, "--sandbox"@, "--standalone"@,
        "--template"@, template_path@, "--id-prefix"@, "wikitext-"@, "--toc"@,
        "--number-sections"@, "--number-offset"@, "1"@, "--lua-filter"@, lua_filter_path@,
    ]);
    v
}

/// A page's wikitext: its revision's text, empty without one.
pub open spec fn page_wikitext(page: Page) -> Seq<char> {
    match page.revision {
        Some(rev) => match rev.text {
            Some(s) => s@,
            None => Seq::<char>::empty(),
        },
        None => Seq::<char>::empty(),
    }
}

/// The wikitext handed to pandoc for a page: its revision's text (empty
/// without one), with template invocations shown as text.
pub fn pandoc_input(page: &Page) -> (r: String)
    ensures
        regex_compiles(TEMPLATE_PATTERN@) ==> r@ == templates_escaped(page_wikitext(*page)),
        !regex_compiles(TEMPLATE_PATTERN@) ==> r@ == page_wikitext(*page),
{
    proof {
        reveal_strlit("");
    }
    let text: &str = match page.revision_text() {
        Some(t) => t,
        None => "",
    };
    assert(text@ == page_wikitext(*page));
    escape_templates(text)
}

/// What `String::from_utf8_lossy` gives for some bytes: their text, with
/// each malformed sequence replaced by U+FFFD.
pub uninterp spec fn utf8_lossy(bytes: Seq<u8>) -> Seq<char>;

/// What the `ammonia` sanitiser leaves of an HTML text when it allows only
/// the URL schemes `url_schemes`, gives links the `rel` value `link_rel`,
/// and, besides its defaults, allows the attribute `attr` on the tags
/// `attr_tags`.
pub uninterp spec fn sanitized_html(
    html: Seq<char>,
    url_schemes: Seq<Seq<char>>,
    link_rel: Seq<char>,
    attr_tags: Seq<Seq<char>>,
    attr: Seq<char>,
) -> Seq<char>;

/// Calls `String::from_utf8_lossy`; named by [`utf8_lossy`].
#[verifier::external_body]
fn from_utf8_lossy(bytes: &[u8]) -> (r: String)
    ensures
        r@ == utf8_lossy(bytes@),
{
    String::from_utf8_lossy(bytes).into_owned()
}

/// What the sanitiser allows in a page's HTML.
pub struct HtmlPolicy {
    /// The URL schemes that links and sources may use.
    pub url_schemes: Vec<&'static str>,
    /// The `rel` value given to links.
    pub link_rel: &'static str,
    /// The tags that keep [`HtmlPolicy::kept_attr`].
    pub kept_attr_tags: Vec<&'static str>,
    /// The attribute kept on those tags.
    pub kept_attr: &'static str,
}

/// The views of some texts.
pub open spec fn str_views(v: Seq<&'static str>) -> Seq<Seq<char>> {
    v.map_values(|s: &'static str| s@)
}

/// The URL schemes allowed in a page's HTML.
pub open spec fn page_url_schemes() -> Seq<Seq<char>> {
    seq!["http"@, "https"@, "mailto"@]
}

/// The `rel` value of links in a page's HTML.
pub open spec fn page_link_rel() -> Seq<char> {
    "noopener noreferrer nofollow"@
}

/// The tags that keep their `id` in a page's HTML: links, headings and
/// list items, which the table of contents points at.
pub open spec fn page_id_tags() -> Seq<Seq<char>> {
    seq!["a"@, "h1"@, "h2"@, "h3"@, "h4"@, "h5"@, "h6"@, "li"@]
}

/// The configurations on which the sanitiser runs: `ammonia` asserts that
/// no tag whose content it removes (`script`, `style`) is given
/// attributes, and that links given a `rel` value do not also keep their
/// own `rel`.
pub open spec fn sanitizer_config_ok(attr_tags: Seq<Seq<char>>, attr: Seq<char>) -> bool {
    &&& forall|i: int| 0 <= i < attr_tags.len() ==> #[trigger] attr_tags[i] != "script"@
        && attr_tags[i] != "style"@
    &&& !(attr == "rel"@ && attr_tags.contains("a"@))
}

/// The policy for a page's HTML: only `http`, `https` and `mailto` URLs,
/// links marked `noopener noreferrer nofollow`, and `id` kept on `a`, `h1`
/// to `h6` and `li`.
pub fn page_html_policy() -> (r: HtmlPolicy)
    ensures
        str_views(r.url_schemes@) == page_url_schemes(),
        r.link_rel@ == page_link_rel(),
        str_views(r.kept_attr_tags@) == page_id_tags(),
        r.kept_attr@ == "id"@,
{
    let mut url_schemes: Vec<&'static str> = Vec::new();
    url_schemes.push("http");
    url_schemes.push("https");
    url_schemes.push("mailto");
    let mut tags: Vec<&'static str> = Vec::new();
    tags.push("a");
    tags.push("h1");
    tags.push("h2");
    tags.push("h3");
    tags.push("h4");
    tags.push("h5");
    tags.push("h6");
    tags.push("li");
    let r = HtmlPolicy {
        url_schemes,
        link_rel: "noopener noreferrer nofollow",
        kept_attr_tags: tags,
        kept_attr: "id",
    };
    assert(str_views(r.url_schemes@) =~= page_url_schemes());
    assert(str_views(r.kept_attr_tags@) =~= page_id_tags());
    r
}

/// The page policy is one the sanitiser runs on.
proof fn lemma_page_policy_ok()
    ensures
        sanitizer_config_ok(page_id_tags(), "id"@),
{
    reveal_strlit("script");
    reveal_strlit("style");
    reveal_strlit("id");
    reveal_strlit("rel");
    reveal_strlit("a");
    reveal_strlit("h1");
    reveal_strlit("h2");
    reveal_strlit("h3");
    reveal_strlit("h4");
    reveal_strlit("h5");
    reveal_strlit("h6");
    reveal_strlit("li");
    let t = page_id_tags();
    assert forall|i: int| 0 <= i < t.len() implies #[trigger] t[i] != "script"@ && t[i]
        != "style"@ by {
        assert(t[i].len() <= 2);
    }
    assert("id"@.len() != "rel"@.len());
}

/// Cleans HTML with an `ammonia::Builder` given the allowed URL schemes,
/// the links' `rel` value, and an attribute with the tags that keep it;
/// named by [`sanitized_html`]. `Builder::clean` panics on the
/// configurations that [`sanitizer_config_ok`] leaves out.
#[verifier::external_body]
fn sanitize_html<'a>(
    html: &str,
    url_schemes: &[&'a str],
    link_rel: &'a str,
    attr_tags: &[&'a str],
    attr: &'a str,
) -> (r: String)
    requires
        sanitizer_config_ok(attr_tags@.map_values(|s: &'a str| s@), attr@),
    ensures
        r@ == sanitized_html(
            html@,
            url_schemes@.map_values(|s: &'a str| s@),
            link_rel@,
            attr_tags@.map_values(|s: &'a str| s@),
            attr@,
        ),
{
    let mut b = ammonia::Builder::default();
    b.url_schemes(url_schemes.iter().copied().collect()).link_rel(Some(link_rel));
    for tag in attr_tags {
        b.add_tag_attributes(*tag, std::iter::once(attr));
    }
    b.clean(html).to_string()
}

/// The HTML of a page from pandoc's output: its bytes read as UTF-8
/// (malformed sequences replaced), then sanitised by
/// [`page_html_policy`].
pub fn page_html_from_pandoc(stdout: &[u8]) -> (r: String)
    ensures
        r@ == sanitized_html(
            utf8_lossy(stdout@),
            page_url_schemes(),
            page_link_rel(),
            page_id_tags(),
            "id"@,
        ),
{
    let html = from_utf8_lossy(stdout);
    let policy = page_html_policy();
    proof {
        lemma_page_policy_ok();
    }
    sanitize_html(
        html.as_str(),
        policy.url_schemes.as_slice(),
        policy.link_rel,
        policy.kept_attr_tags.as_slice(),
        policy.kept_attr,
    )
}

/// What a run of pandoc gives: if it exited with success, the page's HTML
/// from its output (see [`page_html_from_pandoc`]); otherwise an error
/// with its exit code and its output and error output read as UTF-8.
pub fn pandoc_result(success: bool, code: Option<i32>, stdout: &[u8], stderr: &[u8]) -> (r: Result<
    String,
    WikiError,
>)
    ensures
        success ==> (r matches Ok(h) && h@ == sanitized_html(
            utf8_lossy(stdout@),
            page_url_schemes(),
            page_link_rel(),
            page_id_tags(),
            "id"@,
        )),
        !success ==> (r matches Err(WikiError::PandocFailed { code: c, stdout: o, stderr: e }) && c
            == code && o@ == utf8_lossy(stdout@) && e@ == utf8_lossy(stderr@)),
{
    if success {
        Ok(page_html_from_pandoc(stdout))
    } else {
        Err(
            WikiError::PandocFailed {
                code,
                stdout: from_utf8_lossy(stdout),
                stderr: from_utf8_lossy(stderr),
            },
        )
    }
}

} // verus!
