//! Page slugs: the form of a page title used in URLs.

use vstd::prelude::*;
use crate::text::{chars_of, string_from_chars};

verus! {

/// The slug of a title: the title with every space replaced by an
/// underscore.
pub open spec fn slug_of(title: Seq<char>) -> Seq<char> {
    title.map_values(|c: char| if c == ' ' { '_' } else { c })
}

/// Converts a page title to its slug, replacing each `' '` with `'_'`.
pub fn page_title_to_slug(title: &str) -> (slug: String)
    ensures
        slug@ == slug_of(title@),
{
    let v = chars_of(title);
    let mut out: Vec<char> = Vec::new();
    let mut i: usize = 0;
    while i < v.len()
        invariant
            i <= v.len(),
            out@ == slug_of(v@.take(i as int)),
        decreases v.len() - i,
    {
        let c = v[i];
        out.push(if c == ' ' { '_' } else { c });
        assert(out@ =~= slug_of(v@.take((i + 1) as int)));
        i = i + 1;
    }
    assert(v@.take(v.len() as int) =~= v@);
    string_from_chars(&out)
}

/// Converts a title to its slug; the same conversion as
/// [`page_title_to_slug`].
pub fn title_to_slug(title: &str) -> (slug: String)
    ensures
        slug@ == slug_of(title@),
{
    page_title_to_slug(title)
}

/// A slug has the same length as its title, contains no spaces, and keeps
/// every other character of the title in place.
pub proof fn lemma_slug_shape(title: Seq<char>)
    ensures
        slug_of(title).len() == title.len(),
        forall|i: int| 0 <= i < title.len() ==> #[trigger] slug_of(title)[i] != ' ',
        forall|i: int|
            0 <= i < title.len() && title[i] != ' ' ==> #[trigger] slug_of(title)[i] == title[i],
{
}

/// Slugging is idempotent: the slug of a slug is the slug itself.
pub proof fn lemma_slug_idempotent(title: Seq<char>)
    ensures
        slug_of(slug_of(title)) == slug_of(title),
{
    assert(slug_of(slug_of(title)) =~= slug_of(title));
}

} // verus!
