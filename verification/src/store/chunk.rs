//! MediaWiki pages are stored in chunk files. A page's place in the store is
//! its [`StorePageId`]: the chunk's ID and the page's index in the chunk.

use vstd::prelude::*;
use vstd::string::StringSliceAdditionalSpecFns;
use crate::dump::types::{Page, Revision};
use crate::error::WikiError;
use crate::paths::{join_path, lemma_split_on_nonempty, path_join, split_on};
use crate::patterns::{opt_string_view, regex_compiles, regex_first_capture_group, Pattern};
use crate::util::fmt::Bytes;
use crate::text::{
    chars_of, decimal, hex_fixed, parse_hex_u64, parse_hex_u64_spec, parse_u64, parse_u64_spec,
    push_decimal, push_hex_fixed, string_from_chars,
};

verus! {

/// The ID of a chunk file.
#[derive(Clone, Copy, Debug, PartialEq, Eq, Structural)]
pub struct ChunkId(pub u64);

/// The index of a page within its chunk.
#[derive(Clone, Copy, Debug, PartialEq, Eq, Structural)]
pub struct PageChunkIndex(pub u64);

/// Where a page is in the store: its chunk and its index in the chunk.
#[derive(Clone, Copy, Debug, PartialEq, Eq, Structural)]
pub struct StorePageId {
    pub chunk_id: ChunkId,
    pub page_chunk_idx: PageChunkIndex,
}

/// The 8 bytes of `n`, most significant first (`u64::to_be_bytes`).
pub open spec fn u64_be_bytes(n: u64) -> Seq<u8> {
    seq![
        (n >> 56u64) as u8,
        (n >> 48u64) as u8,
        (n >> 40u64) as u8,
        (n >> 32u64) as u8,
        (n >> 24u64) as u8,
        (n >> 16u64) as u8,
        (n >> 8u64) as u8,
        n as u8,
    ]
}

/// The number whose big-endian bytes are `b[0..8]` (`u64::from_be_bytes`).
pub open spec fn be_bytes_u64(b: Seq<u8>) -> u64 {
    ((b[0] as u64) << 56u64) | ((b[1] as u64) << 48u64) | ((b[2] as u64) << 40u64) | ((
    b[3] as u64) << 32u64) | ((b[4] as u64) << 24u64) | ((b[5] as u64) << 16u64) | ((b[6] as u64)
        << 8u64) | (b[7] as u64)
}

/// The 16-byte form of a store page ID: the chunk ID, then the page index,
/// each as 8 big-endian bytes.
pub open spec fn store_page_id_bytes(id: StorePageId) -> Seq<u8> {
    u64_be_bytes(id.chunk_id.0) + u64_be_bytes(id.page_chunk_idx.0)
}

/// The store page ID that 16 bytes encode.
pub open spec fn store_page_id_from_bytes_spec(b: Seq<u8>) -> StorePageId {
    StorePageId {
        chunk_id: ChunkId(be_bytes_u64(b.subrange(0, 8))),
        page_chunk_idx: PageChunkIndex(be_bytes_u64(b.subrange(8, 16))),
    }
}

/// The text form of a store page ID: `{chunk_id}.{page_chunk_idx}` in
/// decimal.
pub open spec fn store_page_id_text(id: StorePageId) -> Seq<char> {
    decimal(id.chunk_id.0 as nat) + seq!['.'] + decimal(id.page_chunk_idx.0 as nat)
}

/// The number of `c`s in `s`.
pub open spec fn count_char(s: Seq<char>, c: char) -> nat
    decreases s.len(),
{
    if s.len() == 0 {
        0
    } else {
        count_char(s.drop_last(), c) + if s.last() == c {
            1nat
        } else {
            0nat
        }
    }
}

/// The index of the first `c` in `s` (or `s.len()` if there is none).
pub open spec fn first_index_of(s: Seq<char>, c: char) -> int
    decreases s.len(),
{
    if s.len() == 0 {
        0
    } else if s[0] == c {
        0
    } else {
        1 + first_index_of(s.drop_first(), c)
    }
}

/// What parsing the text form of a store page ID gives: the text must have
/// exactly one `.`, with a `u64` in decimal on each side.
pub open spec fn store_page_id_parse_spec(s: Seq<char>) -> Result<StorePageId, WikiError> {
    if count_char(s, '.') != 1 {
        Err(WikiError::StorePageIdSegments)
    } else {
        let k = first_index_of(s, '.');
        match (parse_u64_spec(s.take(k)), parse_u64_spec(s.skip(k + 1))) {
            (Some(a), Some(b)) => Ok(
                StorePageId { chunk_id: ChunkId(a), page_chunk_idx: PageChunkIndex(b) },
            ),
            _ => Err(WikiError::ParseInt),
        }
    }
}

impl ChunkId {
    /// Parses a chunk ID from its decimal form.
    pub fn parse(s: &str) -> (r: Result<ChunkId, WikiError>)
        ensures
            match parse_u64_spec(s@) {
                Some(n) => r == Ok::<ChunkId, WikiError>(ChunkId(n)),
                None => r matches Err(WikiError::ParseInt),
            },
    {
        match parse_u64(s) {
            Some(n) => Ok(ChunkId(n)),
            None => Err(WikiError::ParseInt),
        }
    }

    /// The chunk ID in decimal.
    pub fn to_display_string(&self) -> (r: String)
        ensures
            r@ == decimal(self.0 as nat),
    {
        crate::text::u64_to_decimal(self.0)
    }
}

impl PageChunkIndex {
    /// The index in decimal.
    pub fn to_display_string(&self) -> (r: String)
        ensures
            r@ == decimal(self.0 as nat),
    {
        crate::text::u64_to_decimal(self.0)
    }
}

impl StorePageId {
    /// The store page ID of a page in a chunk.
    pub fn new(chunk_id: ChunkId, page_chunk_idx: PageChunkIndex) -> (r: StorePageId)
        ensures
            r.chunk_id == chunk_id,
            r.page_chunk_idx == page_chunk_idx,
    {
        StorePageId { chunk_id, page_chunk_idx }
    }

    /// The 16-byte form of the ID: chunk ID then page index, each 8 bytes
    /// big-endian.
    pub fn to_bytes(&self) -> (r: [u8; 16])
        ensures
            r@ == store_page_id_bytes(*self),
    {
        let c = self.chunk_id.0;
        let p = self.page_chunk_idx.0;
        let r = [
            (c >> 56u64) as u8,
            (c >> 48u64) as u8,
            (c >> 40u64) as u8,
            (c >> 32u64) as u8,
            (c >> 24u64) as u8,
            (c >> 16u64) as u8,
            (c >> 8u64) as u8,
            c as u8,
            (p >> 56u64) as u8,
            (p >> 48u64) as u8,
            (p >> 40u64) as u8,
            (p >> 32u64) as u8,
            (p >> 24u64) as u8,
            (p >> 16u64) as u8,
            (p >> 8u64) as u8,
            p as u8,
        ];
        assert(r@ =~= store_page_id_bytes(*self));
        r
    }

    /// The store page ID that 16 bytes encode; any other length is refused.
    pub fn try_from_bytes(b: &[u8]) -> (r: Result<StorePageId, WikiError>)
        ensures
            b@.len() == 16 ==> r == Ok::<StorePageId, WikiError>(store_page_id_from_bytes_spec(b@)),
            b@.len() != 16 ==> r matches Err(WikiError::StorePageIdLength),
    {
        if b.len() != 16 {
            return Err(WikiError::StorePageIdLength);
        }
        let c: u64 = ((b[0] as u64) << 56u64) | ((b[1] as u64) << 48u64) | ((b[2] as u64) << 40u64)
            | ((b[3] as u64) << 32u64) | ((b[4] as u64) << 24u64) | ((b[5] as u64) << 16u64) | ((
        b[6] as u64) << 8u64) | (b[7] as u64);
        let p: u64 = ((b[8] as u64) << 56u64) | ((b[9] as u64) << 48u64) | ((b[10] as u64) << 40u64)
            | ((b[11] as u64) << 32u64) | ((b[12] as u64) << 24u64) | ((b[13] as u64) << 16u64) | ((
        b[14] as u64) << 8u64) | (b[15] as u64);
        let r = StorePageId { chunk_id: ChunkId(c), page_chunk_idx: PageChunkIndex(p) };
        assert(b@.subrange(0, 8)[0] == b@[0] && b@.subrange(0, 8)[1] == b@[1]
            && b@.subrange(0, 8)[2] == b@[2] && b@.subrange(0, 8)[3] == b@[3]
            && b@.subrange(0, 8)[4] == b@[4] && b@.subrange(0, 8)[5] == b@[5]
            && b@.subrange(0, 8)[6] == b@[6] && b@.subrange(0, 8)[7] == b@[7]);
        assert(b@.subrange(8, 16)[0] == b@[8] && b@.subrange(8, 16)[1] == b@[9]
            && b@.subrange(8, 16)[2] == b@[10] && b@.subrange(8, 16)[3] == b@[11]
            && b@.subrange(8, 16)[4] == b@[12] && b@.subrange(8, 16)[5] == b@[13]
            && b@.subrange(8, 16)[6] == b@[14] && b@.subrange(8, 16)[7] == b@[15]);
        Ok(r)
    }

    /// The text form `{chunk_id}.{page_chunk_idx}`.
    pub fn to_display_string(&self) -> (r: String)
        ensures
            r@ == store_page_id_text(*self),
    {
        let mut v: Vec<char> = Vec::new();
        push_decimal(&mut v, self.chunk_id.0);
        v.push('.');
        push_decimal(&mut v, self.page_chunk_idx.0);
        assert(v@ =~= store_page_id_text(*self));
        string_from_chars(&v)
    }

    /// Parses the text form `{chunk_id}.{page_chunk_idx}`.
    pub fn parse(s: &str) -> (r: Result<StorePageId, WikiError>)
        ensures
            r == store_page_id_parse_spec(s@),
    {
        let v = chars_of(s);
        let mut dots: usize = 0;
        let mut first: usize = v.len();
        let mut i: usize = 0;
        while i < v.len()
            invariant
                i <= v.len(),
                dots as nat == count_char(v@.take(i as int), '.'),
                dots <= i,
                dots == 0 ==> first == v.len(),
                dots > 0 ==> first < i && first == first_index_of(v@, '.'),
                dots == 0 ==> forall|j: int| 0 <= j < i ==> v@[j] != '.',
            decreases v.len() - i,
        {
            assert(v@.take((i + 1) as int).drop_last() =~= v@.take(i as int));
            if v[i] == '.' {
                if dots == 0 {
                    first = i;
                    proof {
                        lemma_first_index_of_at(v@, '.', i as int);
                    }
                }
                dots = dots + 1;
            }
            i = i + 1;
        }
        assert(v@.take(v.len() as int) =~= v@);
        if dots != 1 {
            return Err(WikiError::StorePageIdSegments);
        }
        let mut a: Vec<char> = Vec::new();
        let mut k: usize = 0;
        while k < first
            invariant
                k <= first < v.len(),
                a@ == v@.take(k as int),
            decreases first - k,
        {
            a.push(v[k]);
            assert(a@ =~= v@.take((k + 1) as int));
            k = k + 1;
        }
        let mut b: Vec<char> = Vec::new();
        let mut k: usize = first + 1;
        while k < v.len()
            invariant
                first < k <= v.len(),
                b@ == v@.subrange(first + 1, k as int),
            decreases v.len() - k,
        {
            b.push(v[k]);
            assert(b@ =~= v@.subrange(first + 1, (k + 1) as int));
            k = k + 1;
        }
        assert(b@ =~= v@.skip(first + 1));
        let sa = string_from_chars(&a);
        let sb = string_from_chars(&b);
        match (parse_u64(sa.as_str()), parse_u64(sb.as_str())) {
            (Some(x), Some(y)) => Ok(
                StorePageId { chunk_id: ChunkId(x), page_chunk_idx: PageChunkIndex(y) },
            ),
            _ => Err(WikiError::ParseInt),
        }
    }
}

proof fn lemma_first_index_of_at(s: Seq<char>, c: char, i: int)
    requires
        0 <= i < s.len(),
        s[i] == c,
        forall|j: int| 0 <= j < i ==> s[j] != c,
    ensures
        first_index_of(s, c) == i,
    decreases i,
{
    if i > 0 {
        lemma_first_index_of_at(s.drop_first(), c, i - 1);
    }
}

proof fn lemma_be_u64_roundtrip(n: u64)
    ensures
        be_bytes_u64(u64_be_bytes(n)) == n,
{
    let b = u64_be_bytes(n);
    let (b0, b1, b2, b3, b4, b5, b6, b7) = (b[0], b[1], b[2], b[3], b[4], b[5], b[6], b[7]);
    assert(b0 == (n >> 56u64) as u8 && b1 == (n >> 48u64) as u8 && b2 == (n >> 40u64) as u8
        && b3 == (n >> 32u64) as u8 && b4 == (n >> 24u64) as u8 && b5 == (n >> 16u64) as u8
        && b6 == (n >> 8u64) as u8 && b7 == n as u8);
    assert(((b0 as u64) << 56u64) | ((b1 as u64) << 48u64) | ((b2 as u64) << 40u64) | ((b3 as u64)
        << 32u64) | ((b4 as u64) << 24u64) | ((b5 as u64) << 16u64) | ((b6 as u64) << 8u64) | (
    b7 as u64) == n) by (bit_vector)
        requires
            b0 == (n >> 56u64) as u8 && b1 == (n >> 48u64) as u8 && b2 == (n >> 40u64) as u8 && b3
                == (n >> 32u64) as u8 && b4 == (n >> 24u64) as u8 && b5 == (n >> 16u64) as u8 && b6
                == (n >> 8u64) as u8 && b7 == n as u8,
    ;
}

proof fn lemma_u64_be_bytes_inverse(b: Seq<u8>)
    requires
        b.len() == 8,
    ensures
        u64_be_bytes(be_bytes_u64(b)) == b,
{
    let (b0, b1, b2, b3, b4, b5, b6, b7) = (b[0], b[1], b[2], b[3], b[4], b[5], b[6], b[7]);
    let n = be_bytes_u64(b);
    assert(n == ((b0 as u64) << 56u64) | ((b1 as u64) << 48u64) | ((b2 as u64) << 40u64) | ((
    b3 as u64) << 32u64) | ((b4 as u64) << 24u64) | ((b5 as u64) << 16u64) | ((b6 as u64) << 8u64)
        | (b7 as u64));
    assert(b0 == (n >> 56u64) as u8 && b1 == (n >> 48u64) as u8 && b2 == (n >> 40u64) as u8 && b3
        == (n >> 32u64) as u8 && b4 == (n >> 24u64) as u8 && b5 == (n >> 16u64) as u8 && b6 == (n
        >> 8u64) as u8 && b7 == n as u8) by (bit_vector)
        requires
            n == ((b0 as u64) << 56u64) | ((b1 as u64) << 48u64) | ((b2 as u64) << 40u64) | ((
            b3 as u64) << 32u64) | ((b4 as u64) << 24u64) | ((b5 as u64) << 16u64) | ((b6 as u64)
                << 8u64) | (b7 as u64),
    ;
    assert(u64_be_bytes(n) =~= b);
}

/// Decoding the 16-byte form of a store page ID gives the ID back.
pub proof fn lemma_store_page_id_bytes_roundtrip(id: StorePageId)
    ensures
        store_page_id_bytes(id).len() == 16,
        store_page_id_from_bytes_spec(store_page_id_bytes(id)) == id,
{
    let b = store_page_id_bytes(id);
    assert(b.subrange(0, 8) =~= u64_be_bytes(id.chunk_id.0));
    assert(b.subrange(8, 16) =~= u64_be_bytes(id.page_chunk_idx.0));
    lemma_be_u64_roundtrip(id.chunk_id.0);
    lemma_be_u64_roundtrip(id.page_chunk_idx.0);
}

/// Every 16 bytes are the byte form of the store page ID they decode to.
pub proof fn lemma_store_page_id_bytes_inverse(b: Seq<u8>)
    requires
        b.len() == 16,
    ensures
        store_page_id_bytes(store_page_id_from_bytes_spec(b)) == b,
{
    lemma_u64_be_bytes_inverse(b.subrange(0, 8));
    lemma_u64_be_bytes_inverse(b.subrange(8, 16));
    assert(store_page_id_bytes(store_page_id_from_bytes_spec(b)) =~= b);
}

proof fn lemma_count_char_concat(a: Seq<char>, b: Seq<char>, c: char)
    ensures
        count_char(a + b, c) == count_char(a, c) + count_char(b, c),
    decreases b.len(),
{
    if b.len() > 0 {
        assert((a + b).drop_last() =~= a + b.drop_last());
        lemma_count_char_concat(a, b.drop_last(), c);
    } else {
        assert(a + b =~= a);
    }
}

proof fn lemma_count_char_digits(s: Seq<char>)
    requires
        crate::text::all_ascii_digits(s),
    ensures
        count_char(s, '.') == 0,
    decreases s.len(),
{
    if s.len() > 0 {
        assert(crate::text::is_ascii_digit(s[s.len() - 1]));
        assert forall|i: int| 0 <= i < s.drop_last().len() implies crate::text::is_ascii_digit(
            #[trigger] s.drop_last()[i],
        ) by {
            assert(s.drop_last()[i] == s[i]);
        }
        lemma_count_char_digits(s.drop_last());
    }
}

proof fn lemma_first_index_after_digits(a: Seq<char>, rest: Seq<char>)
    requires
        crate::text::all_ascii_digits(a),
        rest.len() > 0,
        rest[0] == '.',
    ensures
        first_index_of(a + rest, '.') == a.len(),
    decreases a.len(),
{
    if a.len() > 0 {
        assert(crate::text::is_ascii_digit(a[0]));
        assert((a + rest).drop_first() =~= a.drop_first() + rest);
        assert forall|i: int| 0 <= i < a.drop_first().len() implies crate::text::is_ascii_digit(
            #[trigger] a.drop_first()[i],
        ) by {
            assert(a.drop_first()[i] == a[i + 1]);
        }
        lemma_first_index_after_digits(a.drop_first(), rest);
    } else {
        assert(a + rest =~= rest);
    }
}

/// Parsing the text form of a store page ID gives the ID back.
pub proof fn lemma_store_page_id_text_roundtrip(id: StorePageId)
    ensures
        store_page_id_parse_spec(store_page_id_text(id)) == Ok::<StorePageId, WikiError>(id),
{
    let a = decimal(id.chunk_id.0 as nat);
    let b = decimal(id.page_chunk_idx.0 as nat);
    let s = store_page_id_text(id);
    crate::text::lemma_decimal_digits(id.chunk_id.0 as nat);
    crate::text::lemma_decimal_digits(id.page_chunk_idx.0 as nat);
    lemma_count_char_digits(a);
    lemma_count_char_digits(b);
    lemma_count_char_concat(a, seq!['.'], '.');
    lemma_count_char_concat(a + seq!['.'], b, '.');
    assert(count_char(seq!['.'], '.') == 1) by {
        assert(seq!['.'].drop_last() =~= Seq::<char>::empty());
        assert(seq!['.'].last() == '.');
        assert(count_char(Seq::<char>::empty(), '.') == 0);
    }
    assert(s =~= a + (seq!['.'] + b));
    lemma_first_index_after_digits(a, seq!['.'] + b);
    assert(s.take(a.len() as int) =~= a);
    assert(s.skip(a.len() as int + 1) =~= b);
    crate::text::lemma_parse_decimal_roundtrip(id.chunk_id.0);
    crate::text::lemma_parse_decimal_roundtrip(id.page_chunk_idx.0);
}

proof fn lemma_count_char_none(s: Seq<char>, c: char)
    requires
        forall|i: int| 0 <= i < s.len() ==> s[i] != c,
    ensures
        count_char(s, c) == 0,
    decreases s.len(),
{
    if s.len() > 0 {
        assert(s.last() == s[s.len() - 1]);
        assert forall|i: int| 0 <= i < s.drop_last().len() implies s.drop_last()[i] != c by {
            assert(s.drop_last()[i] == s[i]);
        }
        lemma_count_char_none(s.drop_last(), c);
    }
}

/// The text form of a store page ID is two parts joined by one `.`: a text
/// made of a part without `.`, a `.`, and another part without `.` parses
/// exactly when both parts are `u64`s in decimal, to the ID of those
/// numbers; otherwise it fails with [`WikiError::ParseInt`]. (A text with
/// any other number of `.`s fails with [`WikiError::StorePageIdSegments`],
/// by [`store_page_id_parse_spec`].)
pub proof fn lemma_store_page_id_parse_parts(a: Seq<char>, b: Seq<char>)
    requires
        forall|i: int| 0 <= i < a.len() ==> a[i] != '.',
        forall|i: int| 0 <= i < b.len() ==> b[i] != '.',
    ensures
        store_page_id_parse_spec(a + seq!['.'] + b) == match (parse_u64_spec(a), parse_u64_spec(b)) {
            (Some(x), Some(y)) => Ok(
                StorePageId { chunk_id: ChunkId(x), page_chunk_idx: PageChunkIndex(y) },
            ),
            _ => Err(WikiError::ParseInt),
        },
{
    let s = a + seq!['.'] + b;
    lemma_count_char_none(a, '.');
    lemma_count_char_none(b, '.');
    lemma_count_char_concat(a, seq!['.'], '.');
    lemma_count_char_concat(a + seq!['.'], b, '.');
    assert(count_char(seq!['.'], '.') == 1) by {
        assert(seq!['.'].drop_last() =~= Seq::<char>::empty());
        assert(count_char(Seq::<char>::empty(), '.') == 0);
    }
    assert(s[a.len() as int] == '.');
    assert forall|j: int| 0 <= j < a.len() implies s[j] != '.' by {
        assert(s[j] == a[j]);
    }
    lemma_first_index_of_at(s, '.', a.len() as int);
    assert(s.take(a.len() as int) =~= a);
    assert(s.skip(a.len() as int + 1) =~= b);
}

proof fn lemma_split_len(s: Seq<char>, c: char)
    ensures
        split_on(s, c).len() == count_char(s, c) + 1,
    decreases s.len(),
{
    if s.len() > 0 {
        lemma_split_len(s.drop_last(), c);
    }
}

proof fn lemma_split_append_no_sep(p: Seq<char>, q: Seq<char>, c: char)
    requires
        forall|i: int| 0 <= i < q.len() ==> q[i] != c,
    ensures
        split_on(p + q, c) == split_on(p, c).update(
            split_on(p, c).len() - 1,
            split_on(p, c).last() + q,
        ),
    decreases q.len(),
{
    let sp = split_on(p, c);
    lemma_split_on_nonempty(p, c);
    if q.len() == 0 {
        assert(p + q =~= p);
        assert(sp.last() + q =~= sp.last());
        assert(sp.update(sp.len() - 1, sp.last() + q) =~= sp);
    } else {
        let q0 = q.drop_last();
        assert forall|i: int| 0 <= i < q0.len() implies q0[i] != c by {
            assert(q0[i] == q[i]);
        }
        lemma_split_append_no_sep(p, q0, c);
        assert((p + q).drop_last() =~= p + q0);
        assert((p + q).last() == q.last());
        assert(q.last() == q[q.len() - 1]);
        let s1 = sp.update(sp.len() - 1, sp.last() + q0);
        assert(s1.last() == sp.last() + q0);
        assert((sp.last() + q0).push(q.last()) =~= sp.last() + q);
        assert(s1.update(s1.len() - 1, s1.last().push(q.last())) =~= sp.update(
            sp.len() - 1,
            sp.last() + q,
        ));
    }
}

proof fn lemma_count_char_zero_none(s: Seq<char>, c: char)
    requires
        count_char(s, c) == 0,
    ensures
        forall|i: int| 0 <= i < s.len() ==> s[i] != c,
    decreases s.len(),
{
    if s.len() > 0 {
        lemma_count_char_zero_none(s.drop_last(), c);
        assert forall|i: int| 0 <= i < s.len() implies s[i] != c by {
            if i < s.len() - 1 {
                assert(s[i] == s.drop_last()[i]);
            }
        }
    }
}

proof fn lemma_first_char_within(s: Seq<char>, c: char, n: int)
    requires
        0 <= n <= s.len(),
        exists|i: int| 0 <= i < n && s[i] == c,
    ensures
        exists|i: int| 0 <= i < s.len() && s[i] == c && forall|j: int| 0 <= j < i ==> s[j] != c,
    decreases n,
{
    if exists|i: int| 0 <= i < n - 1 && s[i] == c {
        lemma_first_char_within(s, c, n - 1);
    } else {
        let w = choose|i: int| 0 <= i < n && s[i] == c;
        assert(w == n - 1);
        assert(0 <= w < s.len() && s[w] == c && forall|j: int| 0 <= j < w ==> s[j] != c);
    }
}

/// The text form of a store page ID splits at `.` into exactly two
/// parts, each a `u64` in decimal: parsing succeeds exactly when
/// `split_on(s, '.')` (what `str::split` gives) has two pieces that both
/// parse as `u64`s, and gives the ID of those numbers. With any other
/// number of pieces it fails with [`WikiError::StorePageIdSegments`], and
/// when a piece is no `u64`, with [`WikiError::ParseInt`].
pub proof fn lemma_store_page_id_parse_split(s: Seq<char>)
    ensures
        store_page_id_parse_spec(s) == if split_on(s, '.').len() != 2 {
            Err::<StorePageId, WikiError>(WikiError::StorePageIdSegments)
        } else {
            match (parse_u64_spec(split_on(s, '.')[0]), parse_u64_spec(split_on(s, '.')[1])) {
                (Some(x), Some(y)) => Ok(
                    StorePageId { chunk_id: ChunkId(x), page_chunk_idx: PageChunkIndex(y) },
                ),
                _ => Err(WikiError::ParseInt),
            }
        },
{
    lemma_split_len(s, '.');
    if count_char(s, '.') == 1 {
        if forall|i: int| 0 <= i < s.len() ==> s[i] != '.' {
            lemma_count_char_none(s, '.');
        }
        lemma_first_char_within(s, '.', s.len() as int);
        let k = choose|i: int| 0 <= i < s.len() && s[i] == '.' && forall|j: int| 0 <= j < i ==> s[j] != '.';
        lemma_first_index_of_at(s, '.', k);
        let a = s.take(k);
        let b = s.skip(k + 1);
        assert(s =~= a + seq!['.'] + b);
        assert forall|i: int| 0 <= i < a.len() implies a[i] != '.' by {
            assert(a[i] == s[i]);
        }
        lemma_count_char_none(a, '.');
        lemma_count_char_concat(a, seq!['.'], '.');
        lemma_count_char_concat(a + seq!['.'], b, '.');
        assert(count_char(seq!['.'], '.') == 1) by {
            assert(seq!['.'].drop_last() =~= Seq::<char>::empty());
            assert(count_char(Seq::<char>::empty(), '.') == 0);
        }
        lemma_count_char_zero_none(b, '.');
        let e = Seq::<char>::empty();
        lemma_split_append_no_sep(e, a, '.');
        assert(e + a =~= a);
        assert(split_on(e, '.') =~= seq![e]);
        assert(split_on(a, '.') =~= seq![a]);
        let a1 = a + seq!['.'];
        assert(a1.drop_last() =~= a);
        assert(split_on(a1, '.') =~= seq![a, e]);
        lemma_split_append_no_sep(a1, b, '.');
        assert(e + b =~= b);
        assert(split_on(a1 + b, '.') =~= seq![a, b]);
    }
}

/// The longest a chunk grows, in bytes of page titles and texts, when
/// none is configured: 10 MB.
pub const MAX_LEN_DEFAULT: u64 = 10_000_000;

/// The pattern of a chunk file's name; group 1 is the chunk ID in hex.
pub const CHUNK_FILE_PATTERN: &'static str = "^articles-([0-9a-f]{16}).cap$";

/// Facts about a chunk file.
#[derive(Clone, Debug)]
pub struct ChunkMeta {
    pub bytes_len: Bytes,
    pub id: ChunkId,
    pub pages_len: u64,
    pub path: String,
}

/// The name of a chunk's file: `articles-{id}.cap`, the ID in 16 lowercase
/// hex digits.
pub open spec fn chunk_file_name_spec(id: ChunkId) -> Seq<char> {
    "articles-"@ + hex_fixed(id.0 as nat, 16) + ".cap"@
}

/// The name of a chunk's file (see [`chunk_file_name_spec`]).
pub fn chunk_file_name(id: ChunkId) -> (r: String)
    ensures
        r@ == chunk_file_name_spec(id),
{
    let mut v = chars_of("articles-");
    push_hex_fixed(&mut v, id.0, 16);
    let mut tail = chars_of(".cap");
    v.append(&mut tail);
    string_from_chars(&v)
}

/// The path of a chunk's file in the store's chunks directory.
pub fn chunk_path(chunks_dir: &str, id: ChunkId) -> (r: String)
    ensures
        r@ == path_join(chunks_dir@, chunk_file_name_spec(id)),
{
    let name = chunk_file_name(id);
    join_path(chunks_dir, name.as_str())
}

/// The name of a chunk's file holds its ID in hex, right after
/// `articles-`, and that hex reads back as the ID.
pub proof fn lemma_chunk_file_name_holds_id(id: ChunkId)
    ensures
        chunk_file_name_spec(id).subrange(9, 25) == hex_fixed(id.0 as nat, 16),
        parse_hex_u64_spec(chunk_file_name_spec(id).subrange(9, 25)) == Some(id.0),
{
    reveal_strlit("articles-");
    crate::text::lemma_u64_fits_16_hex_digits(id.0);
    crate::text::lemma_hex_fixed_value(id.0 as nat, 16);
    assert(chunk_file_name_spec(id).subrange(9, 25) =~= hex_fixed(id.0 as nat, 16));
    crate::text::lemma_parse_hex_fixed_roundtrip(id.0);
}

/// The chunk whose file has this name: the ID that [`CHUNK_FILE_PATTERN`]
/// captures, read as hex; `None` for other names (and should the pattern
/// fail to compile).
pub fn chunk_id_from_file_name(name: &str) -> (r: Option<ChunkId>)
    ensures
        r matches Some(id) ==> regex_compiles(CHUNK_FILE_PATTERN@) && (exists|g: Seq<char>|
            regex_first_capture_group(CHUNK_FILE_PATTERN@, name@, 1) == Some(Some(g))
                && parse_hex_u64_spec(g) == Some(id.0)),
        regex_compiles(CHUNK_FILE_PATTERN@) ==> match regex_first_capture_group(
            CHUNK_FILE_PATTERN@,
            name@,
            1,
        ) {
            Some(Some(g)) => match parse_hex_u64_spec(g) {
                Some(n) => r == Some(ChunkId(n)),
                None => r is None,
            },
            _ => r is None,
        },
{
    let re = match Pattern::new(CHUNK_FILE_PATTERN) {
        Ok(re) => re,
        Err(_) => {
            return None;
        },
    };
    match re.first_capture_group(name, 1) {
        Some(Some(g)) => match parse_hex_u64(g.as_str()) {
            Some(n) => Some(ChunkId(n)),
            None => None,
        },
        _ => None,
    }
}

/// The chunk IDs named by the files of the chunks directory, in the order
/// of the names; other names are skipped.
pub fn chunk_ids_from_file_names(names: &Vec<String>) -> (r: Vec<ChunkId>)
    ensures
        regex_compiles(CHUNK_FILE_PATTERN@) ==> r@ == chunk_ids_named(names@.map_values(|n: String| n@)),
        !regex_compiles(CHUNK_FILE_PATTERN@) ==> r@.len() == 0,
{
    let ghost nv = names@.map_values(|n: String| n@);
    let mut out: Vec<ChunkId> = Vec::new();
    let mut i: usize = 0;
    while i < names.len()
        invariant
            i <= names.len(),
            nv == names@.map_values(|n: String| n@),
            regex_compiles(CHUNK_FILE_PATTERN@) ==> out@ == chunk_ids_named(nv.take(i as int)),
            !regex_compiles(CHUNK_FILE_PATTERN@) ==> out@.len() == 0,
        decreases names.len() - i,
    {
        assert(nv.take((i + 1) as int).drop_last() =~= nv.take(i as int));
        assert(nv[i as int] == names@[i as int]@);
        match chunk_id_from_file_name(names[i].as_str()) {
            Some(id) => {
                out.push(id);
            },
            None => {},
        }
        i = i + 1;
    }
    assert(nv.take(names.len() as int) =~= nv);
    out
}

/// The chunk ID that a file name gives, if any (see
/// [`chunk_id_from_file_name`]).
pub open spec fn chunk_id_named(name: Seq<char>) -> Option<ChunkId> {
    match regex_first_capture_group(CHUNK_FILE_PATTERN@, name, 1) {
        Some(Some(g)) => match parse_hex_u64_spec(g) {
            Some(n) => Some(ChunkId(n)),
            None => None,
        },
        _ => None,
    }
}

/// The chunk IDs that file names give, in order.
pub open spec fn chunk_ids_named(names: Seq<Seq<char>>) -> Seq<ChunkId>
    decreases names.len(),
{
    if names.len() == 0 {
        Seq::empty()
    } else {
        let prev = chunk_ids_named(names.drop_last());
        match chunk_id_named(names.last()) {
            Some(id) => prev.push(id),
            None => prev,
        }
    }
}

/// The greatest of some chunk IDs (0 for none).
pub open spec fn max_chunk_id(ids: Seq<ChunkId>) -> u64
    decreases ids.len(),
{
    if ids.len() == 0 {
        0
    } else {
        let m = max_chunk_id(ids.drop_last());
        if ids.len() == 1 || ids.last().0 > m {
            ids.last().0
        } else {
            m
        }
    }
}

proof fn lemma_max_chunk_id(ids: Seq<ChunkId>)
    requires
        ids.len() > 0,
    ensures
        exists|i: int| 0 <= i < ids.len() && ids[i].0 == max_chunk_id(ids),
        forall|i: int| 0 <= i < ids.len() ==> ids[i].0 <= max_chunk_id(ids),
    decreases ids.len(),
{
    if ids.len() == 1 {
        assert(ids[0].0 == max_chunk_id(ids));
    } else {
        lemma_max_chunk_id(ids.drop_last());
        let k = choose|i: int| 0 <= i < ids.drop_last().len() && ids.drop_last()[i].0 == max_chunk_id(
            ids.drop_last(),
        );
        assert(ids[k] == ids.drop_last()[k]);
        if ids.last().0 > max_chunk_id(ids.drop_last()) {
            assert(ids[ids.len() - 1].0 == max_chunk_id(ids));
        } else {
            assert(ids[k].0 == max_chunk_id(ids));
        }
        assert forall|i: int| 0 <= i < ids.len() implies ids[i].0 <= max_chunk_id(ids) by {
            if i < ids.len() - 1 {
                assert(ids[i] == ids.drop_last()[i]);
            }
        }
    }
}

/// The ID of the next chunk of a store whose chunk files have these IDs:
/// one more than the greatest, or 0 when there are none.
pub fn next_chunk_id(ids: &Vec<ChunkId>) -> (r: ChunkId)
    requires
        forall|i: int| 0 <= i < ids@.len() ==> ids@[i].0 < u64::MAX,
    ensures
        ids@.len() == 0 ==> r.0 == 0,
        ids@.len() > 0 ==> r.0 == max_chunk_id(ids@) + 1,
        forall|i: int| 0 <= i < ids@.len() ==> ids@[i].0 < r.0,
{
    if ids.len() == 0 {
        return ChunkId(0);
    }
    let mut m: u64 = ids[0].0;
    let mut i: usize = 1;
    proof {
        assert(ids@.take(1).drop_last() =~= Seq::<ChunkId>::empty());
    }
    while i < ids.len()
        invariant
            1 <= i <= ids.len(),
            m == max_chunk_id(ids@.take(i as int)),
        decreases ids.len() - i,
    {
        assert(ids@.take((i + 1) as int).drop_last() =~= ids@.take(i as int));
        if ids[i].0 > m {
            m = ids[i].0;
        }
        i = i + 1;
    }
    assert(ids@.take(ids.len() as int) =~= ids@);
    proof {
        lemma_max_chunk_id(ids@);
    }
    ChunkId(m + 1)
}

/// The ID of the `n`-th chunk (from 0) of a store whose first new chunk has
/// the ID `start`: `start + n`, wrapping around.
pub open spec fn nth_chunk_id(start: u64, n: nat) -> u64 {
    ((start + n) % 0x1_0000_0000_0000_0000) as u64
}

/// Distinct chunks, fewer than 2^64 apart, have distinct IDs.
pub proof fn lemma_nth_chunk_ids_distinct(start: u64, i: nat, j: nat)
    requires
        i < j,
        j - i < 0x1_0000_0000_0000_0000,
    ensures
        nth_chunk_id(start, i) != nth_chunk_id(start, j),
{
    let m: int = 0x1_0000_0000_0000_0000;
    let x: int = start + i;
    let y: int = start + j;
    if x % m == y % m {
        vstd::arithmetic::div_mod::lemma_fundamental_div_mod(x, m);
        vstd::arithmetic::div_mod::lemma_fundamental_div_mod(y, m);
        assert(y - x == m * (y / m) - m * (x / m));
        vstd::arithmetic::mul::lemma_mul_is_distributive_sub(m, y / m, x / m);
        assert(y - x == m * (y / m - x / m));
        assert(0 < y - x < m);
        if y / m - x / m >= 1 {
            vstd::arithmetic::mul::lemma_mul_inequality(1, y / m - x / m, m);
        } else {
            vstd::arithmetic::mul::lemma_mul_inequality(y / m - x / m, 0, m);
        }
    }
}

/// The chunk IDs that a chunk store gives its chunk builders: the next one
/// to give, counting up by one per builder (wrapping around), and back to 0
/// when the store is cleared.
pub struct ChunkIdCounter {
    next: u64,
}

impl ChunkIdCounter {
    /// The ID the next builder gets.
    pub closed spec fn spec_next(&self) -> u64 {
        self.next
    }

    /// The counter of a store whose chunk files have the IDs `existing`:
    /// it starts after the greatest of them, or at 0 when there are none
    /// (see [`next_chunk_id`]).
    pub fn new(existing: &Vec<ChunkId>) -> (r: ChunkIdCounter)
        requires
            forall|i: int| 0 <= i < existing@.len() ==> existing@[i].0 < u64::MAX,
        ensures
            existing@.len() == 0 ==> r.spec_next() == 0,
            existing@.len() > 0 ==> r.spec_next() == max_chunk_id(existing@) + 1,
    {
        ChunkIdCounter { next: next_chunk_id(existing).0 }
    }

    /// A counter that gives `start` next.
    pub fn starting_at(start: ChunkId) -> (r: ChunkIdCounter)
        ensures
            r.spec_next() == start.0,
    {
        ChunkIdCounter { next: start.0 }
    }

    /// The ID for a new chunk builder; the counter moves on by one.
    pub fn next_id(&mut self) -> (r: ChunkId)
        ensures
            r.0 == old(self).spec_next(),
            final(self).spec_next() == nth_chunk_id(old(self).spec_next(), 1),
    {
        let id = ChunkId(self.next);
        self.next = self.next.wrapping_add(1);
        id
    }

    /// Clears the store's chunks: the next builder gets the ID 0.
    pub fn clear(&mut self)
        ensures
            final(self).spec_next() == 0,
    {
        self.next = 0;
    }
}

/// Chunk builders get IDs counting up from the counter's start: when the
/// counter gives `nth_chunk_id(start, k)` next, the builder after it gets
/// `nth_chunk_id(start, k + 1)`. So the `k`-th builder of a store gets
/// `start + k` (wrapping), where `start` is one more than the greatest ID of
/// its chunk files, or 0 when it has none or has just been cleared.
pub proof fn lemma_chunk_ids_step(start: u64, k: nat)
    ensures
        nth_chunk_id(nth_chunk_id(start, k), 1) == nth_chunk_id(start, k + 1),
        nth_chunk_id(start, 0) == start,
{
    vstd::arithmetic::div_mod::lemma_add_mod_noop(start + k, 1, 0x1_0000_0000_0000_0000);
}

/// New chunks do not reuse the IDs of a store's chunk files: the `k`-th
/// new builder's ID is above every existing ID, as long as counting has not
/// wrapped around.
pub proof fn lemma_new_chunk_ids_above_existing(existing: Seq<ChunkId>, k: nat)
    requires
        existing.len() > 0,
        forall|i: int| 0 <= i < existing.len() ==> existing[i].0 < u64::MAX,
        max_chunk_id(existing) + 1 + k < 0x1_0000_0000_0000_0000,
    ensures
        forall|i: int| 0 <= i < existing.len() ==> existing[i].0 < nth_chunk_id(
            (max_chunk_id(existing) + 1) as u64,
            k,
        ),
{
    lemma_max_chunk_id(existing);
}

/// Whether chunk IDs are in ascending order.
pub open spec fn chunk_ids_sorted(s: Seq<ChunkId>) -> bool {
    forall|i: int, j: int| 0 <= i < j < s.len() ==> s[i].0 <= s[j].0
}

/// The chunk IDs in ascending order (the same IDs, each as often).
pub fn sort_chunk_ids(ids: Vec<ChunkId>) -> (r: Vec<ChunkId>)
    ensures
        chunk_ids_sorted(r@),
        r@.to_multiset() == ids@.to_multiset(),
{
    broadcast use vstd::seq_lib::group_to_multiset_ensures;

    let mut out: Vec<ChunkId> = Vec::new();
    let mut i: usize = 0;
    while i < ids.len()
        invariant
            i <= ids.len(),
            chunk_ids_sorted(out@),
            out@.to_multiset() == ids@.take(i as int).to_multiset(),
        decreases ids.len() - i,
    {
        let x = ids[i];
        let mut pos: usize = 0;
        while pos < out.len() && out[pos].0 <= x.0
            invariant
                pos <= out.len(),
                forall|k: int| 0 <= k < pos ==> out@[k].0 <= x.0,
            decreases out.len() - pos,
        {
            pos = pos + 1;
        }
        let ghost before = out@;
        out.insert(pos, x);
        proof {
            assert(out@ == before.insert(pos as int, x));
            assert forall|a: int, b: int| 0 <= a < b < out@.len() implies out@[a].0 <= out@[b].0 by {
                if b < pos {
                } else if b == pos {
                    assert(out@[a] == before[a]);
                } else if a < pos {
                    assert(out@[b] == before[b - 1]);
                    assert(before[pos as int].0 > x.0);
                    assert(before[a].0 <= before[pos as int].0);
                } else if a == pos {
                    assert(out@[b] == before[b - 1]);
                    assert(before[pos as int].0 > x.0);
                    assert(before[pos as int].0 <= before[b - 1].0);
                } else {
                    assert(out@[a] == before[a - 1]);
                    assert(out@[b] == before[b - 1]);
                }
            }
            assert(ids@.take((i + 1) as int) =~= ids@.take(i as int).push(x));
            vstd::seq_lib::to_multiset_insert(before, pos as int, x);
            vstd::seq_lib::to_multiset_build(ids@.take(i as int), x);
            assert(out@.to_multiset() =~= before.to_multiset().insert(x));
        }
        i = i + 1;
    }
    assert(ids@.take(ids.len() as int) =~= ids@);
    out
}

/// How much a page adds to a chunk's length: the bytes of its title and
/// of its revision's text.
pub open spec fn page_len_estimate(page: Page) -> nat {
    encode_len(page.title@) + match page.revision {
        Some(r) => match r.text {
            Some(t) => encode_len(t@),
            None => 0,
        },
        None => 0,
    }
}

/// The number of bytes of the UTF-8 encoding of a text.
pub open spec fn encode_len(s: Seq<char>) -> nat {
    vstd::utf8::encode_utf8(s).len()
}

/// The pages of a chunk being written, each given its store page ID as it
/// is added; the chunk is full once its length reaches the maximum.
pub struct ChunkBuilder {
    chunk_id: ChunkId,
    curr_len_estimate: u64,
    max_chunk_len: u64,
    pages: Vec<Page>,
}

impl ChunkBuilder {
    pub closed spec fn spec_chunk_id(&self) -> ChunkId {
        self.chunk_id
    }

    /// The pages added so far, in order.
    pub closed spec fn spec_pages(&self) -> Seq<Page> {
        self.pages@
    }

    /// The chunk's length so far: the sum of [`page_len_estimate`] over its
    /// pages.
    pub closed spec fn spec_len(&self) -> u64 {
        self.curr_len_estimate
    }

    pub closed spec fn spec_max_len(&self) -> u64 {
        self.max_chunk_len
    }

    /// An empty chunk.
    pub fn new(chunk_id: ChunkId, max_chunk_len: u64) -> (r: ChunkBuilder)
        ensures
            r.spec_chunk_id() == chunk_id,
            r.spec_pages() == Seq::<Page>::empty(),
            r.spec_len() == 0,
            r.spec_max_len() == max_chunk_len,
    {
        ChunkBuilder { chunk_id, curr_len_estimate: 0, max_chunk_len, pages: Vec::new() }
    }

    /// Adds a page; its store page ID is the chunk's ID and its index in
    /// the chunk.
    pub fn push(&mut self, page: Page) -> (r: StorePageId)
        requires
            old(self).spec_len() + page_len_estimate(page) <= u64::MAX,
            old(self).spec_pages().len() < u64::MAX,
        ensures
            final(self).spec_pages() == old(self).spec_pages().push(page),
            final(self).spec_len() == old(self).spec_len() + page_len_estimate(page),
            final(self).spec_chunk_id() == old(self).spec_chunk_id(),
            final(self).spec_max_len() == old(self).spec_max_len(),
            r.chunk_id == old(self).spec_chunk_id(),
            r.page_chunk_idx.0 == old(self).spec_pages().len(),
    {
        let title_len = page.title.as_str().as_bytes().len();
        let text_len: usize = match &page.revision {
            Some(rev) => match &rev.text {
                Some(t) => t.as_str().as_bytes().len(),
                None => 0,
            },
            None => 0,
        };
        self.curr_len_estimate = self.curr_len_estimate + title_len as u64 + text_len as u64;
        let idx = self.pages.len() as u64;
        self.pages.push(page);
        StorePageId { chunk_id: self.chunk_id, page_chunk_idx: PageChunkIndex(idx) }
    }

    /// Whether the chunk is full: its length has reached the maximum.
    pub fn is_full(&self) -> (r: bool)
        ensures
            r == (self.spec_len() >= self.spec_max_len()),
    {
        self.curr_len_estimate >= self.max_chunk_len
    }

    /// The chunk's length so far.
    pub fn curr_bytes_len(&self) -> (r: u64)
        ensures
            r == self.spec_len(),
    {
        self.curr_len_estimate
    }

    /// The number of pages added so far.
    pub fn page_count(&self) -> (r: u64)
        requires
            self.spec_pages().len() <= u64::MAX,
        ensures
            r == self.spec_pages().len(),
    {
        self.pages.len() as u64
    }

    /// The chunk's ID.
    pub fn chunk_id(&self) -> (r: ChunkId)
        ensures
            r == self.spec_chunk_id(),
    {
        self.chunk_id
    }

    /// The pages of the chunk, in order, for writing.
    pub fn into_pages(self) -> (r: Vec<Page>)
        ensures
            r@ == self.spec_pages(),
    {
        self.pages
    }
}

/// A revision as a chunk file holds it.
#[derive(Clone, Debug)]
pub struct StoredRevision {
    pub id: u64,
    pub text: Option<String>,
}

/// A page as a chunk file holds it.
#[derive(Clone, Debug)]
pub struct StoredPage {
    pub ns_id: u64,
    pub id: u64,
    pub title: String,
    pub revision: Option<StoredRevision>,
}

/// The dump page of a stored page without its body: the title and the
/// IDs are copied; the revision keeps only its ID, with no text and no
/// categories.
pub fn convert_store_page_to_dump_page_without_body(page: &StoredPage) -> (r: Page)
    ensures
        r.ns_id == page.ns_id,
        r.id == page.id,
        r.title@ == page.title@,
        match page.revision {
            None => r.revision is None,
            Some(sr) => r.revision matches Some(rr) && rr.id == sr.id && rr.parent_id is None
                && rr.timestamp is None && rr.sha1 is None && rr.text is None
                && rr.categories@.len() == 0,
        },
{
    let revision = match &page.revision {
        None => None,
        Some(rev) => Some(
            Revision {
                id: rev.id,
                parent_id: None,
                timestamp: None,
                text: None,
                categories: Vec::new(),
                sha1: None,
            },
        ),
    };
    Page { ns_id: page.ns_id, id: page.id, title: page.title.clone(), revision }
}

} // verus!
