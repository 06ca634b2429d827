//! Lexicographic order on character strings and sorted, duplicate-free
//! collections of strings.
//!
//! `String`'s `Ord` compares UTF-8 bytes, and UTF-8 encoding preserves the
//! order of code points, so the character-wise order used here sorts
//! strings exactly as `String`'s `Ord` does.

use vstd::prelude::*;
use crate::text::chars_of;

verus! {

/// Strict lexicographic order on character sequences, comparing code points.
pub open spec fn seq_lt(a: Seq<char>, b: Seq<char>) -> bool
    decreases a.len(),
{
    if a.len() == 0 {
        b.len() > 0
    } else if b.len() == 0 {
        false
    } else if a[0] != b[0] {
        (a[0] as int) < (b[0] as int)
    } else {
        seq_lt(a.drop_first(), b.drop_first())
    }
}

/// Every element is strictly below every later element.
pub open spec fn strictly_sorted(s: Seq<Seq<char>>) -> bool {
    forall|i: int, j: int| 0 <= i < j < s.len() ==> seq_lt(#[trigger] s[i], #[trigger] s[j])
}

/// The views of a sequence of strings.
pub open spec fn views(s: Seq<String>) -> Seq<Seq<char>> {
    s.map_values(|x: String| x@)
}

/// No sequence is below itself.
pub proof fn lemma_seq_lt_irreflexive(a: Seq<char>)
    ensures
        !seq_lt(a, a),
    decreases a.len(),
{
    if a.len() > 0 {
        lemma_seq_lt_irreflexive(a.drop_first());
    }
}

/// The order is transitive.
pub proof fn lemma_seq_lt_transitive(a: Seq<char>, b: Seq<char>, c: Seq<char>)
    requires
        seq_lt(a, b),
        seq_lt(b, c),
    ensures
        seq_lt(a, c),
    decreases a.len(),
{
    if a.len() > 0 && b.len() > 0 && c.len() > 0 {
        if a[0] == b[0] && b[0] == c[0] {
            lemma_seq_lt_transitive(a.drop_first(), b.drop_first(), c.drop_first());
        }
    }
}

/// Two different sequences are ordered one way or the other.
pub proof fn lemma_seq_lt_total(a: Seq<char>, b: Seq<char>)
    requires
        a != b,
    ensures
        seq_lt(a, b) || seq_lt(b, a),
    decreases a.len(),
{
    if a.len() > 0 && b.len() > 0 && a[0] == b[0] {
        if a.drop_first() == b.drop_first() {
            assert(a =~= seq![a[0]] + a.drop_first());
            assert(b =~= seq![b[0]] + b.drop_first());
            assert(false);
        } else {
            lemma_seq_lt_total(a.drop_first(), b.drop_first());
        }
    } else if a.len() == 0 && b.len() == 0 {
        assert(a =~= b);
    } else if a.len() > 0 && b.len() > 0 {
        assert((a[0] as int) != (b[0] as int));
    }
}

proof fn lemma_seq_lt_skip(a: Seq<char>, b: Seq<char>, k: int)
    requires
        0 <= k <= a.len(),
        k <= b.len(),
        a.take(k) == b.take(k),
    ensures
        seq_lt(a, b) == seq_lt(a.skip(k), b.skip(k)),
    decreases k,
{
    if k > 0 {
        assert(a[0] == a.take(k)[0]);
        assert(b[0] == b.take(k)[0]);
        assert(a.drop_first().take(k - 1) =~= a.take(k).drop_first());
        assert(b.drop_first().take(k - 1) =~= b.take(k).drop_first());
        lemma_seq_lt_skip(a.drop_first(), b.drop_first(), k - 1);
        assert(a.drop_first().skip(k - 1) =~= a.skip(k));
        assert(b.drop_first().skip(k - 1) =~= b.skip(k));
    } else {
        assert(a.skip(0) =~= a);
        assert(b.skip(0) =~= b);
    }
}

/// Whether `a` is strictly below `b` in the lexicographic order.
pub fn chars_lt(a: &Vec<char>, b: &Vec<char>) -> (r: bool)
    ensures
        r == seq_lt(a@, b@),
{
    let mut i: usize = 0;
    while i < a.len() && i < b.len() && a[i] == b[i]
        invariant
            i <= a.len(),
            i <= b.len(),
            a@.take(i as int) == b@.take(i as int),
        decreases a.len() - i,
    {
        assert(a@.take((i + 1) as int) =~= a@.take(i as int).push(a@[i as int]));
        assert(b@.take((i + 1) as int) =~= b@.take(i as int).push(b@[i as int]));
        i = i + 1;
    }
    proof {
        lemma_seq_lt_skip(a@, b@, i as int);
    }
    if i == a.len() {
        i < b.len()
    } else if i == b.len() {
        false
    } else {
        assert(a@.skip(i as int)[0] == a@[i as int]);
        assert(b@.skip(i as int)[0] == b@[i as int]);
        a[i] < b[i]
    }
}

/// The names of named entries.
pub open spec fn entry_names<T>(s: Seq<(String, T)>) -> Seq<Seq<char>> {
    s.map_values(|e: (String, T)| e.0@)
}

/// Whether named entries are keyed by their names, as in a sorted map:
/// in strictly increasing order of name, so no name occurs twice.
pub open spec fn entries_keyed<T>(s: Seq<(String, T)>) -> bool {
    strictly_sorted(entry_names(s))
}

/// Entries keyed by name hold each name at most once.
pub proof fn lemma_keyed_names_distinct<T>(s: Seq<(String, T)>, i: int, j: int)
    requires
        entries_keyed(s),
        0 <= i < j < s.len(),
    ensures
        s[i].0@ != s[j].0@,
{
    let n = entry_names(s);
    assert(seq_lt(n[i], n[j]));
    lemma_seq_lt_irreflexive(n[i]);
}

/// Whether named entries are keyed by their names (see
/// [`entries_keyed`]).
pub fn entries_are_keyed<T>(v: &Vec<(String, T)>) -> (r: bool)
    ensures
        r == entries_keyed(v@),
{
    let ghost n = entry_names(v@);
    if v.len() == 0 {
        return true;
    }
    let mut i: usize = 1;
    while i < v.len()
        invariant
            1 <= i <= v.len(),
            n == entry_names(v@),
            strictly_sorted(n.take(i as int)),
        decreases v.len() - i,
    {
        if !str_lt(v[i - 1].0.as_str(), v[i].0.as_str()) {
            assert(!strictly_sorted(n)) by {
                assert(n[i - 1] == v@[i - 1].0@ && n[i as int] == v@[i as int].0@);
            }
            return false;
        }
        proof {
            let t = n.take(i + 1);
            assert forall|a: int, b: int| 0 <= a < b < t.len() implies seq_lt(
                #[trigger] t[a],
                #[trigger] t[b],
            ) by {
                if b < i {
                    assert(n.take(i as int)[a] == t[a] && n.take(i as int)[b] == t[b]);
                } else if a < i - 1 {
                    assert(n.take(i as int)[a] == t[a] && n.take(i as int)[i - 1] == t[i - 1]);
                    assert(seq_lt(t[a], t[i - 1]));
                    assert(t[i - 1] == v@[i - 1].0@ && t[b] == v@[i as int].0@);
                    lemma_seq_lt_transitive(t[a], t[i - 1], t[b]);
                } else {
                    assert(t[a] == v@[i - 1].0@ && t[b] == v@[i as int].0@);
                }
            }
        }
        i = i + 1;
    }
    assert(n.take(v.len() as int) =~= n);
    true
}

/// Whether string `a` is strictly below string `b`.
pub fn str_lt(a: &str, b: &str) -> (r: bool)
    ensures
        r == seq_lt(a@, b@),
{
    let av = chars_of(a);
    let bv = chars_of(b);
    chars_lt(&av, &bv)
}

/// Inserts `x` into a strictly sorted vector of strings, unless it is
/// already there: the result is strictly sorted and holds exactly the old
/// strings and `x`.
pub fn insert_sorted_unique(v: &mut Vec<String>, x: String)
    requires
        strictly_sorted(views(old(v)@)),
    ensures
        strictly_sorted(views(final(v)@)),
        views(final(v)@).to_set() == views(old(v)@).to_set().insert(x@),
{
    let ghost old_views = views(v@);
    let mut j: usize = 0;
    while j < v.len() && str_lt(v[j].as_str(), x.as_str())
        invariant
            j <= v.len(),
            views(v@) == old_views,
            strictly_sorted(old_views),
            forall|k: int| 0 <= k < j ==> seq_lt(#[trigger] old_views[k], x@),
        decreases v.len() - j,
    {
        j = j + 1;
    }
    if j < v.len() && v[j] == x {
        assert(old_views[j as int] == x@);
        assert(views(v@).to_set() =~= old_views.to_set().insert(x@));
        return;
    }
    proof {
        if j < v.len() {
            assert(old_views[j as int] != x@);
            lemma_seq_lt_total(old_views[j as int], x@);
        }
    }
    v.insert(j, x);
    let ghost nv = views(v@);
    assert(nv =~= old_views.insert(j as int, x@));
    assert forall|a: int, b: int| 0 <= a < b < nv.len() implies seq_lt(#[trigger] nv[a], #[trigger] nv[b]) by {
        if b < j {
        } else if b == j {
        } else if a < j {
            assert(nv[b] == old_views[b - 1]);
            if b - 1 > j {
                lemma_seq_lt_transitive(x@, old_views[j as int], old_views[b - 1]);
            }
            lemma_seq_lt_transitive(nv[a], x@, nv[b]);
        } else if a == j {
            if b - 1 > j {
                lemma_seq_lt_transitive(x@, old_views[j as int], old_views[b - 1]);
            }
        } else {
        }
    }
    assert(nv.to_set() =~= old_views.to_set().insert(x@)) by {
        assert forall|y: Seq<char>| nv.to_set().contains(y) implies old_views.to_set().insert(x@).contains(y) by {
            let k = choose|k: int| 0 <= k < nv.len() && nv[k] == y;
            if k < j {
                assert(old_views[k] == y);
            } else if k > j {
                assert(old_views[k - 1] == y);
            }
        }
        assert forall|y: Seq<char>| old_views.to_set().insert(x@).contains(y) implies nv.to_set().contains(y) by {
            if y == x@ {
                assert(nv[j as int] == y);
            } else {
                let k = choose|k: int| 0 <= k < old_views.len() && old_views[k] == y;
                if k < j {
                    assert(nv[k] == y);
                } else {
                    assert(nv[k + 1] == y);
                }
            }
        }
    }
}

} // verus!
