//! Natural order of texts, as the `natord` crate compares them: runs of
//! digits compare by their numbers, so `rfc2.txt` comes before `rfc10.txt`,
//! and whitespace is skipped.

use vstd::prelude::*;

verus! {

/// How one text compares with another.
#[derive(Clone, Copy, Debug, PartialEq, Eq, Structural)]
pub enum TextOrder {
    Less,
    Equal,
    Greater,
}

/// How `natord::compare` orders two texts.
pub uninterp spec fn natural_order(a: Seq<char>, b: Seq<char>) -> TextOrder;

/// Calls `natord::compare`; its answer is named by [`natural_order`]. Its
/// source treats the two texts alike, each return giving the reverse
/// answer were they swapped, so a text after another has that other
/// before it.
#[verifier::external_body]
fn natord_compare(a: &str, b: &str) -> (r: TextOrder)
    ensures
        r == natural_order(a@, b@),
        r == TextOrder::Greater ==> natural_order(b@, a@) == TextOrder::Less,
{
    match natord::compare(a, b) {
        std::cmp::Ordering::Less => TextOrder::Less,
        std::cmp::Ordering::Equal => TextOrder::Equal,
        std::cmp::Ordering::Greater => TextOrder::Greater,
    }
}

/// The views of some strings.
pub open spec fn string_views(v: Seq<String>) -> Seq<Seq<char>> {
    v.map_values(|s: String| s@)
}

/// Whether no text comes after the next one in natural order.
pub open spec fn naturally_sorted(s: Seq<Seq<char>>) -> bool {
    forall|i: int| 0 <= i < s.len() - 1 ==> #[trigger] natural_order(s[i], s[i + 1]) != TextOrder::Greater
}

/// Inserts a text after every text that does not come after it, and before
/// those that do, looking from the end.
fn insert_natural(out: &mut Vec<String>, x: String)
    requires
        naturally_sorted(string_views(old(out)@)),
    ensures
        naturally_sorted(string_views(final(out)@)),
        string_views(final(out)@).to_multiset() == string_views(old(out)@).to_multiset().insert(x@),
{
    let mut pos: usize = out.len();
    while pos > 0 && natord_compare(out[pos - 1].as_str(), x.as_str()) == TextOrder::Greater
        invariant
            pos <= out.len(),
            pos < out.len() ==> natural_order(x@, out@[pos as int]@) == TextOrder::Less,
        decreases pos,
    {
        pos = pos - 1;
    }
    let ghost before = out@;
    let ghost bv = string_views(before);
    let ghost xv = x@;
    proof {
        if pos > 0 {
            assert(natural_order(before[pos - 1]@, x@) != TextOrder::Greater);
        }
    }
    out.insert(pos, x);
    proof {
        let ov = string_views(out@);
        assert(ov =~= bv.insert(pos as int, xv));
        assert forall|k: int| 0 <= k < ov.len() - 1 implies #[trigger] natural_order(
            ov[k],
            ov[k + 1],
        ) != TextOrder::Greater by {
            if k + 1 < pos {
                assert(ov[k] == bv[k] && ov[k + 1] == bv[k + 1]);
                assert(natural_order(bv[k], bv[k + 1]) != TextOrder::Greater);
            } else if k + 1 == pos {
                assert(ov[k] == bv[k] && ov[k + 1] == xv);
            } else if k == pos {
                assert(ov[k] == xv && ov[k + 1] == bv[k]);
            } else {
                assert(ov[k] == bv[k - 1] && ov[k + 1] == bv[k]);
                assert(natural_order(bv[k - 1], bv[k - 1 + 1]) != TextOrder::Greater);
            }
        }
        vstd::seq_lib::to_multiset_insert(bv, pos as int, xv);
    }
}

/// The texts in natural order: the same texts, each as often, none after
/// the next one. Texts that compare equal keep their order.
pub fn sort_natural(v: Vec<String>) -> (r: Vec<String>)
    ensures
        string_views(r@).to_multiset() == string_views(v@).to_multiset(),
        naturally_sorted(string_views(r@)),
{
    let ghost input = v@;
    let mut out: Vec<String> = Vec::new();
    assert(string_views(out@) =~= Seq::<Seq<char>>::empty());
    assert(string_views(input.take(0)) =~= Seq::<Seq<char>>::empty());
    for x in it: v.into_iter()
        invariant
            it.seq() == input,
            naturally_sorted(string_views(out@)),
            string_views(out@).to_multiset() == string_views(input.take(it.index() as int)).to_multiset(),
    {
        let ghost i = it.index();
        let ghost xv = x@;
        assert(x == input[i]);
        insert_natural(&mut out, x);
        proof {
            assert(string_views(input.take(i + 1)) =~= string_views(input.take(i)).push(xv));
            vstd::seq_lib::to_multiset_build(string_views(input.take(i)), xv);
        }
    }
    assert(input.take(input.len() as int) =~= input);
    out
}

} // verus!
