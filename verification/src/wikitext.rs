//! Reading MediaWiki wikitext.

use vstd::prelude::*;
use crate::dump::types::CategoryName;
use crate::order::{insert_sorted_unique, strictly_sorted, views};
use crate::patterns::{opt_string_view, regex_all_captures_group, regex_compiles, regex_split, Pattern};
use crate::text::{chars_of, string_from_chars};

verus! {

/// The pattern of a category link, `[[Category:Name]]`; group 1 is the name.
pub const CATEGORY_PATTERN: &'static str = "\\[\\[Category:([^\\]]+)\\]\\]";

/// The strings present in a sequence of optional strings.
pub open spec fn present_strings(caps: Seq<Option<Seq<char>>>) -> Set<Seq<char>> {
    Set::new(|c: Seq<char>| exists|i: int| 0 <= i < caps.len() && caps[i] == Some(c))
}

/// The names of a sequence of category names.
pub open spec fn category_views(v: Seq<CategoryName>) -> Seq<Seq<char>> {
    v.map_values(|c: CategoryName| c.0@)
}

/// The category names found in a wikitext: the text of each
/// `[[Category:Name]]` link's name, as the `regex` crate finds the links.
pub open spec fn wikitext_categories(wikitext: Seq<char>) -> Set<Seq<char>> {
    present_strings(regex_all_captures_group(CATEGORY_PATTERN@, wikitext, 1))
}

/// The distinct category names among the captured strings, sorted.
pub fn categories_from_captures(caps: Vec<Option<String>>) -> (r: Vec<CategoryName>)
    ensures
        strictly_sorted(category_views(r@)),
        category_views(r@).to_set() == present_strings(
            caps@.map_values(|o: Option<String>| opt_string_view(o)),
        ),
{
    let ghost capv = caps@.map_values(|o: Option<String>| opt_string_view(o));
    let mut names: Vec<String> = Vec::new();
    let mut i: usize = 0;
    while i < caps.len()
        invariant
            i <= caps.len(),
            capv == caps@.map_values(|o: Option<String>| opt_string_view(o)),
            strictly_sorted(views(names@)),
            views(names@).to_set() == present_strings(capv.take(i as int)),
        decreases caps.len() - i,
    {
        let ghost before = views(names@).to_set();
        let ghost t0 = capv.take(i as int);
        let ghost t1 = capv.take((i + 1) as int);
        match &caps[i] {
            Some(name) => {
                insert_sorted_unique(&mut names, name.clone());
                assert(present_strings(t1) =~= before.insert(name@)) by {
                    assert(t1[i as int] == Some(name@));
                    assert forall|c: Seq<char>| present_strings(t1).contains(c)
                        implies before.insert(name@).contains(c) by {
                        let k = choose|k: int| 0 <= k < i + 1 && t1[k] == Some(c);
                        if k < i {
                            assert(t0[k] == Some(c));
                        }
                    }
                    assert forall|c: Seq<char>| before.insert(name@).contains(c)
                        implies present_strings(t1).contains(c) by {
                        if c != name@ {
                            let k = choose|k: int| 0 <= k < i && t0[k] == Some(c);
                            assert(t1[k] == Some(c));
                        }
                    }
                }
            },
            None => {
                assert(present_strings(t1) =~= before) by {
                    assert forall|c: Seq<char>| present_strings(t1).contains(c)
                        implies before.contains(c) by {
                        let k = choose|k: int| 0 <= k < i + 1 && t1[k] == Some(c);
                        if k < i {
                            assert(t0[k] == Some(c));
                        }
                    }
                    assert forall|c: Seq<char>| before.contains(c)
                        implies present_strings(t1).contains(c) by {
                        let k = choose|k: int| 0 <= k < i && t0[k] == Some(c);
                        assert(t1[k] == Some(c));
                    }
                }
            },
        }
        i = i + 1;
    }
    assert(capv.take(caps.len() as int) =~= capv);
    let mut out: Vec<CategoryName> = Vec::new();
    let mut j: usize = 0;
    while j < names.len()
        invariant
            j <= names.len(),
            out@.len() == j,
            category_views(out@) == views(names@).take(j as int),
        decreases names.len() - j,
    {
        let c = names[j].clone();
        let ghost cv = c@;
        assert(cv == views(names@)[j as int]);
        let ghost old_out = out@;
        out.push(CategoryName(c));
        assert(out@[j as int].0@ == cv);
        assert forall|k: int| 0 <= k < j implies out@[k] == old_out[k] by {}
        assert(category_views(out@) =~= views(names@).take((j + 1) as int));
        j = j + 1;
    }
    assert(views(names@).take(names.len() as int) =~= views(names@));
    out
}

/// The distinct categories that a wikitext links to (`[[Category:Name]]`),
/// sorted by name. Should the fixed pattern ever fail to compile, no
/// categories are found.
pub fn parse_categories(wikitext: &str) -> (r: Vec<CategoryName>)
    ensures
        regex_compiles(CATEGORY_PATTERN@) ==> strictly_sorted(category_views(r@))
            && category_views(r@).to_set() == wikitext_categories(wikitext@),
        !regex_compiles(CATEGORY_PATTERN@) ==> r.len() == 0,
{
    let re = match Pattern::new(CATEGORY_PATTERN) {
        Ok(re) => re,
        Err(_) => {
            return Vec::new();
        },
    };
    let caps = re.all_captures_group(wikitext, 1);
    categories_from_captures(caps)
}

/// The pattern of a template invocation, `{{...}}` (nested invocations are
/// not recognised).
pub const TEMPLATE_PATTERN: &'static str = "\\{\\{[^}]+\\}\\}";

/// A text escaped for HTML text content: each `&`, `<` and `>` becomes
/// `&amp;`, `&lt;` and `&gt;`.
pub open spec fn html_text_escaped(s: Seq<char>) -> Seq<char>
    decreases s.len(),
{
    if s.len() == 0 {
        Seq::empty()
    } else {
        let c = s.last();
        html_text_escaped(s.drop_last()) + if c == '&' {
            "&amp;"@
        } else if c == '<' {
            "&lt;"@
        } else if c == '>' {
            "&gt;"@
        } else {
            seq![c]
        }
    }
}

/// A text escaped for HTML text content (see [`html_text_escaped`]), as
/// `html_escape::encode_text` escapes it.
fn html_encode_text(s: &str) -> (r: String)
    ensures
        r@ == html_text_escaped(s@),
{
    let v = chars_of(s);
    let mut out: Vec<char> = Vec::new();
    let mut i: usize = 0;
    while i < v.len()
        invariant
            i <= v.len(),
            v@ == s@,
            out@ == html_text_escaped(v@.take(i as int)),
        decreases v.len() - i,
    {
        let c = v[i];
        let ghost before = out@;
        if c == '&' {
            out.push('&');
            out.push('a');
            out.push('m');
            out.push('p');
            out.push(';');
            proof {
                reveal_strlit("&amp;");
            }
            assert(out@ =~= before + "&amp;"@);
        } else if c == '<' {
            out.push('&');
            out.push('l');
            out.push('t');
            out.push(';');
            proof {
                reveal_strlit("&lt;");
            }
            assert(out@ =~= before + "&lt;"@);
        } else if c == '>' {
            out.push('&');
            out.push('g');
            out.push('t');
            out.push(';');
            proof {
                reveal_strlit("&gt;");
            }
            assert(out@ =~= before + "&gt;"@);
        } else {
            out.push(c);
            assert(out@ =~= before + seq![c]);
        }
        assert(v@.take(i + 1).drop_last() =~= v@.take(i as int));
        assert(v@.take(i + 1).last() == c);
        i = i + 1;
    }
    assert(v@.take(v.len() as int) =~= v@);
    string_from_chars(&out)
}

/// A template invocation as it is shown: escaped, inside `<pre>`.
pub open spec fn template_shown(t: Seq<char>) -> Seq<char> {
    "<pre>"@ + html_text_escaped(t) + "</pre>"@
}

/// The first `n` pieces, each followed by the replacement of the match
/// after it (the last piece has none).
pub open spec fn woven(pieces: Seq<Seq<char>>, replacements: Seq<Seq<char>>, n: nat) -> Seq<char>
    decreases n,
{
    if n == 0 {
        Seq::empty()
    } else {
        let k = (n - 1) as int;
        woven(pieces, replacements, (n - 1) as nat) + pieces[k] + if n < pieces.len() && k
            < replacements.len() {
            replacements[k]
        } else {
            Seq::<char>::empty()
        }
    }
}

/// The text shown for a wikitext: each template invocation (a match of
/// [`TEMPLATE_PATTERN`]) is replaced by its escaped text inside `<pre>`.
pub open spec fn templates_escaped(wikitext: Seq<char>) -> Seq<char> {
    let pieces = regex_split(TEMPLATE_PATTERN@, wikitext);
    let matches = regex_all_captures_group(TEMPLATE_PATTERN@, wikitext, 0);
    woven(
        pieces,
        matches.map_values(
            |m: Option<Seq<char>>|
                template_shown(
                    match m {
                        Some(t) => t,
                        None => Seq::empty(),
                    },
                ),
        ),
        pieces.len(),
    )
}

/// Shows the template invocations of a wikitext as escaped text inside
/// `<pre>` (see [`templates_escaped`]). Should the fixed pattern fail to
/// compile, the wikitext is returned unchanged.
pub fn escape_templates(wikitext: &str) -> (r: String)
    ensures
        regex_compiles(TEMPLATE_PATTERN@) ==> r@ == templates_escaped(wikitext@),
        !regex_compiles(TEMPLATE_PATTERN@) ==> r@ == wikitext@,
{
    let re = match Pattern::new(TEMPLATE_PATTERN) {
        Ok(re) => re,
        Err(_) => {
            return wikitext.to_owned();
        },
    };
    let pieces = re.split(wikitext);
    let matches = re.all_captures_group(wikitext, 0);
    let ghost pv = pieces@.map_values(|s: String| s@);
    let ghost mv = matches@.map_values(|o: Option<String>| opt_string_view(o));
    let ghost reps = mv.map_values(
        |m: Option<Seq<char>>|
            template_shown(
                match m {
                    Some(t) => t,
                    None => Seq::empty(),
                },
            ),
    );
    let mut out: Vec<char> = Vec::new();
    let mut i: usize = 0;
    while i < pieces.len()
        invariant
            i <= pieces.len(),
            pv == pieces@.map_values(|s: String| s@),
            mv == matches@.map_values(|o: Option<String>| opt_string_view(o)),
            reps == mv.map_values(
                |m: Option<Seq<char>>|
                    template_shown(
                        match m {
                            Some(t) => t,
                            None => Seq::empty(),
                        },
                    ),
            ),
            out@ == woven(pv, reps, i as nat),
        decreases pieces.len() - i,
    {
        let mut piece = chars_of(pieces[i].as_str());
        assert(pv[i as int] == pieces@[i as int]@);
        out.append(&mut piece);
        if i + 1 < pieces.len() && i < matches.len() {
            let t: String = match &matches[i] {
                Some(m) => m.clone(),
                None => String::new(),
            };
            assert(mv[i as int] == opt_string_view(matches@[i as int]));
            let escaped = html_encode_text(t.as_str());
            let mut open = chars_of("<pre>");
            let mut body = chars_of(escaped.as_str());
            let mut close = chars_of("</pre>");
            let ghost before = out@;
            out.append(&mut open);
            out.append(&mut body);
            out.append(&mut close);
            assert(reps[i as int] == template_shown(t@));
            assert(out@ =~= before + reps[i as int]);
        }
        i = i + 1;
    }
    string_from_chars(&out)
}

} // verus!
