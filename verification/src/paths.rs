//! File system paths as text, joined the way `PathBuf::push` joins them on
//! Unix, and text split on a separator the way `str::split` splits it.

use vstd::prelude::*;
use crate::text::{chars_of, string_from_chars};

verus! {

/// `base` joined with `component` as `PathBuf::push` does on Unix: an
/// absolute component replaces the base; otherwise a `/` goes between them
/// unless the base is empty or already ends in `/`.
pub open spec fn path_join(base: Seq<char>, component: Seq<char>) -> Seq<char> {
    if component.len() > 0 && component[0] == '/' {
        component
    } else if base.len() == 0 || base.last() == '/' {
        base + component
    } else {
        base + seq!['/'] + component
    }
}

/// The pieces of `s` between occurrences of `sep`, as `str::split` returns
/// them: always at least one piece, and one more than the number of `sep`s.
pub open spec fn split_on(s: Seq<char>, sep: char) -> Seq<Seq<char>>
    decreases s.len(),
{
    if s.len() == 0 {
        seq![Seq::empty()]
    } else {
        let p = split_on(s.drop_last(), sep);
        if s.last() == sep {
            p.push(Seq::empty())
        } else {
            p.update(p.len() - 1, p.last().push(s.last()))
        }
    }
}

/// The first piece of `split_on` is empty exactly when the text is empty
/// or starts with the separator; a text that starts with it splits into at
/// least two pieces.
pub proof fn lemma_split_on_first_piece(s: Seq<char>, sep: char)
    ensures
        (split_on(s, sep)[0].len() == 0) == (s.len() == 0 || s[0] == sep),
        s.len() > 0 && s[0] == sep ==> split_on(s, sep).len() >= 2,
    decreases s.len(),
{
    if s.len() > 0 {
        let d = s.drop_last();
        lemma_split_on_first_piece(d, sep);
        lemma_split_on_nonempty(d, sep);
        if d.len() > 0 {
            assert(d[0] == s[0]);
        }
    }
}

/// `split_on` always gives at least one piece.
pub proof fn lemma_split_on_nonempty(s: Seq<char>, sep: char)
    ensures
        split_on(s, sep).len() >= 1,
    decreases s.len(),
{
    if s.len() > 0 {
        lemma_split_on_nonempty(s.drop_last(), sep);
    }
}

/// The pieces of `s` between occurrences of `sep`.
pub fn split_chars(s: &str, sep: char) -> (r: Vec<Vec<char>>)
    ensures
        r@.map_values(|p: Vec<char>| p@) == split_on(s@, sep),
{
    let v = chars_of(s);
    let mut done: Vec<Vec<char>> = Vec::new();
    let mut cur: Vec<char> = Vec::new();
    let mut i: usize = 0;
    while i < v.len()
        invariant
            i <= v.len(),
            v@ == s@,
            done@.map_values(|p: Vec<char>| p@).push(cur@) == split_on(v@.take(i as int), sep),
        decreases v.len() - i,
    {
        proof {
            lemma_split_on_nonempty(v@.take(i as int), sep);
        }
        let ghost prev = split_on(v@.take(i as int), sep);
        let ghost done_views = done@.map_values(|p: Vec<char>| p@);
        assert(v@.take((i + 1) as int).drop_last() =~= v@.take(i as int));
        let c = v[i];
        if c == sep {
            let finished = cur;
            done.push(finished);
            cur = Vec::new();
            assert(done@.map_values(|p: Vec<char>| p@) =~= done_views.push(finished@));
            assert(done@.map_values(|p: Vec<char>| p@).push(cur@) =~= prev.push(Seq::empty()));
        } else {
            let ghost old_cur = cur@;
            cur.push(c);
            assert(done@.map_values(|p: Vec<char>| p@).push(cur@) =~= prev.update(
                prev.len() - 1,
                prev.last().push(c),
            ));
        }
        i = i + 1;
    }
    assert(v@.take(v.len() as int) =~= v@);
    let ghost done_views = done@.map_values(|p: Vec<char>| p@);
    let last = cur;
    done.push(last);
    assert(done@.map_values(|p: Vec<char>| p@) =~= done_views.push(last@));
    done
}

/// `base` joined with `component` (see [`path_join`]).
pub fn join_path(base: &str, component: &str) -> (r: String)
    ensures
        r@ == path_join(base@, component@),
{
    let mut b = chars_of(base);
    let mut c = chars_of(component);
    if c.len() > 0 && c[0] == '/' {
        return string_from_chars(&c);
    }
    if b.len() == 0 || b[b.len() - 1] == '/' {
        b.append(&mut c);
        assert(b@ =~= path_join(base@, component@));
        string_from_chars(&b)
    } else {
        b.push('/');
        b.append(&mut c);
        assert(b@ =~= path_join(base@, component@));
        string_from_chars(&b)
    }
}

/// The text after the last `sep` of `s` (all of `s` if it has none).
pub fn last_piece(s: &str, sep: char) -> (r: String)
    ensures
        r@ == split_on(s@, sep).last(),
{
    let pieces = split_chars(s, sep);
    proof {
        lemma_split_on_nonempty(s@, sep);
    }
    let n = pieces.len();
    assert(pieces@.map_values(|p: Vec<char>| p@)[n - 1] == pieces@[n - 1]@);
    string_from_chars(&pieces[n - 1])
}

} // verus!
