//! Wrapper types that format in a useful way, typically as a
//! human-readable string. They also keep incompatible quantities (byte
//! counts and element counts, say) apart by type.

use vstd::prelude::*;
use crate::error::WikiError;
use crate::text::{
    decimal, hex_bytes, hex_encode, is_ascii_digit, lemma_decimal_digits, push_decimal,
    string_from_chars,
};

verus! {

/// A number of bytes.
#[derive(Clone, Copy, Debug, PartialEq, Eq, Structural)]
pub struct Bytes(pub u64);

/// A span of time, to the nanosecond; formats as a human-readable string
/// like `"1h 2m 1s 10ms"`.
#[derive(Clone, Copy, Debug)]
pub struct Duration {
    secs: u64,
    nanos: u32,
}

/// Nanoseconds in a second.
pub const NANOS_PER_SEC: u32 = 1_000_000_000;

/// Nanoseconds in a millisecond.
pub const NANOS_PER_MILLI: u32 = 1_000_000;

/// Seconds in an hour.
pub const HOUR_SECS: u64 = 3600;

/// Seconds in a minute.
pub const MINUTE_SECS: u64 = 60;

/// The sequence without its leading spaces.
pub open spec fn trim_leading_spaces(s: Seq<char>) -> Seq<char>
    decreases s.len(),
{
    if s.len() > 0 && s[0] == ' ' {
        trim_leading_spaces(s.drop_first())
    } else {
        s
    }
}

/// The parts of a duration's text before leading spaces are trimmed: whole
/// hours as `{h}h` if there are any, then ` {m}m` for remaining whole minutes
/// if any, ` {s}s` for remaining seconds if any, and ` {ms}ms` for the
/// milliseconds if there are any or nothing else was written.
pub open spec fn duration_parts(secs: nat, millis: nat) -> Seq<char> {
    let p1 = if secs >= 3600 {
        decimal(secs / 3600) + seq!['h']
    } else {
        Seq::empty()
    };
    let r1 = if secs >= 3600 {
        secs % 3600
    } else {
        secs
    };
    let p2 = if r1 >= 60 {
        p1 + seq![' '] + decimal(r1 / 60) + seq!['m']
    } else {
        p1
    };
    let r2 = if r1 >= 60 {
        r1 % 60
    } else {
        r1
    };
    let p3 = if r2 > 0 {
        p2 + seq![' '] + decimal(r2) + seq!['s']
    } else {
        p2
    };
    if millis > 0 || p3.len() == 0 {
        p3 + seq![' '] + decimal(millis) + seq!['m', 's']
    } else {
        p3
    }
}

/// The human-readable text of a duration of `secs` seconds and `millis`
/// milliseconds, e.g. `"1h 2m 1s 10ms"`.
pub open spec fn duration_text(secs: nat, millis: nat) -> Seq<char> {
    trim_leading_spaces(duration_parts(secs, millis))
}

/// Texts joined by single spaces.
pub open spec fn join_with_spaces(parts: Seq<Seq<char>>) -> Seq<char>
    decreases parts.len(),
{
    if parts.len() == 0 {
        Seq::empty()
    } else if parts.len() == 1 {
        parts[0]
    } else {
        join_with_spaces(parts.drop_last()) + seq![' '] + parts.last()
    }
}

/// The parts of a duration's text: `{h}h` for its whole hours if there are
/// any, `{m}m` for the remaining whole minutes if any, `{s}s` for the
/// remaining seconds if any, and `{ms}ms` for the milliseconds if there are
/// any or no other part was written.
pub open spec fn duration_part_list(secs: nat, millis: nat) -> Seq<Seq<char>> {
    let l1 = if secs / 3600 > 0 {
        seq![decimal(secs / 3600) + seq!['h']]
    } else {
        Seq::empty()
    };
    let l2 = if secs % 3600 / 60 > 0 {
        l1.push(decimal(secs % 3600 / 60) + seq!['m'])
    } else {
        l1
    };
    let l3 = if secs % 60 > 0 {
        l2.push(decimal(secs % 60) + seq!['s'])
    } else {
        l2
    };
    if millis > 0 || l3.len() == 0 {
        l3.push(decimal(millis) + seq!['m', 's'])
    } else {
        l3
    }
}

/// How the text built so far stands to its parts: nothing for no parts;
/// otherwise the parts joined by spaces, perhaps after one space.
spec fn built_from(p: Seq<char>, l: Seq<Seq<char>>) -> bool {
    ||| l.len() == 0 && p.len() == 0
    ||| l.len() > 0 && (p == join_with_spaces(l) || p == seq![' '] + join_with_spaces(l))
}

proof fn lemma_built_push(p: Seq<char>, l: Seq<Seq<char>>, x: Seq<char>)
    requires
        built_from(p, l),
    ensures
        built_from(p + seq![' '] + x, l.push(x)),
{
    let l2 = l.push(x);
    assert(l2.drop_last() =~= l);
    if l.len() == 0 {
        assert(p + seq![' '] + x =~= seq![' '] + join_with_spaces(l2));
    } else if p == join_with_spaces(l) {
        assert(p + seq![' '] + x =~= join_with_spaces(l2));
    } else {
        assert(p + seq![' '] + x =~= seq![' '] + join_with_spaces(l2));
    }
}

proof fn lemma_join_starts_with_first(l: Seq<Seq<char>>)
    requires
        l.len() > 0,
        l[0].len() > 0,
    ensures
        join_with_spaces(l).len() > 0,
        join_with_spaces(l)[0] == l[0][0],
    decreases l.len(),
{
    if l.len() > 1 {
        assert(l.drop_last()[0] == l[0]);
        lemma_join_starts_with_first(l.drop_last());
    }
}

proof fn lemma_duration_arith(secs: nat)
    ensures
        (if secs >= 3600 { secs % 3600 } else { secs }) == secs % 3600,
        secs >= 3600 <==> secs / 3600 > 0,
        secs % 3600 >= 60 <==> secs % 3600 / 60 > 0,
        (if secs % 3600 >= 60 { secs % 3600 % 60 } else { secs % 3600 }) == secs % 60,
{
    vstd::arithmetic::div_mod::lemma_mod_mod(secs as int, 60, 60);
}

proof fn lemma_trim_built(p: Seq<char>, l: Seq<Seq<char>>)
    requires
        built_from(p, l),
        l.len() > 0,
        l[0].len() > 0,
        is_ascii_digit(l[0][0]),
    ensures
        trim_leading_spaces(p) == join_with_spaces(l),
{
    lemma_join_starts_with_first(l);
    let j = join_with_spaces(l);
    assert(j[0] != ' ');
    assert(trim_leading_spaces(j) == j);
    if p != j {
        assert((seq![' '] + j).drop_first() =~= j);
        assert(trim_leading_spaces(p) == trim_leading_spaces(j));
    }
}

proof fn lemma_part_starts_with_digit(n: nat, unit: Seq<char>)
    ensures
        (decimal(n) + unit).len() > 0,
        is_ascii_digit((decimal(n) + unit)[0]),
{
    lemma_decimal_digits(n);
    assert((decimal(n) + unit)[0] == decimal(n)[0]);
}

/// The text built for a duration, in terms of its hours, minutes, seconds
/// and milliseconds.
spec fn parts_of(h: nat, m: nat, sc: nat, millis: nat) -> Seq<char> {
    let p1 = if h > 0 { decimal(h) + seq!['h'] } else { Seq::<char>::empty() };
    let p2 = if m > 0 { p1 + seq![' '] + decimal(m) + seq!['m'] } else { p1 };
    let p3 = if sc > 0 { p2 + seq![' '] + decimal(sc) + seq!['s'] } else { p2 };
    if millis > 0 || p3.len() == 0 {
        p3 + seq![' '] + decimal(millis) + seq!['m', 's']
    } else {
        p3
    }
}

proof fn lemma_duration_parts_of(secs: nat, millis: nat)
    ensures
        duration_parts(secs, millis) == parts_of(secs / 3600, secs % 3600 / 60, secs % 60, millis),
{
    lemma_duration_arith(secs);
}

/// A duration's text is its parts joined by single spaces, with no space
/// before or after: `"1h 2m 1s 10ms"`, `"5s"`, `"0ms"`.
#[verifier::rlimit(40)]
pub proof fn lemma_duration_text_joins_parts(secs: nat, millis: nat)
    ensures
        duration_text(secs, millis) == join_with_spaces(duration_part_list(secs, millis)),
{
    lemma_duration_parts_of(secs, millis);
    let h = secs / 3600;
    let m = secs % 3600 / 60;
    let sc = secs % 60;
    let x1 = decimal(h) + seq!['h'];
    let l1 = if h > 0 { seq![x1] } else { Seq::<Seq<char>>::empty() };
    let p1 = if h > 0 { x1 } else { Seq::<char>::empty() };
    assert(built_from(p1, l1)) by {
        if h > 0 {
            assert(join_with_spaces(l1) == l1[0]);
        }
    }
    let x2 = decimal(m) + seq!['m'];
    let l2 = if m > 0 { l1.push(x2) } else { l1 };
    let p2 = if m > 0 { p1 + seq![' '] + x2 } else { p1 };
    if m > 0 {
        lemma_built_push(p1, l1, x2);
    }
    let x3 = decimal(sc) + seq!['s'];
    let l3 = if sc > 0 { l2.push(x3) } else { l2 };
    let p3 = if sc > 0 { p2 + seq![' '] + x3 } else { p2 };
    if sc > 0 {
        lemma_built_push(p2, l2, x3);
    }
    let x4 = decimal(millis) + seq!['m', 's'];
    let l4 = if millis > 0 || l3.len() == 0 { l3.push(x4) } else { l3 };
    let p4 = if millis > 0 || p3.len() == 0 { p3 + seq![' '] + x4 } else { p3 };
    if millis > 0 || l3.len() == 0 {
        lemma_built_push(p3, l3, x4);
    }
    assert(l4 == duration_part_list(secs, millis));
    assert(p4 =~= parts_of(h, m, sc, millis));
    lemma_part_starts_with_digit(h, seq!['h']);
    lemma_part_starts_with_digit(m, seq!['m']);
    lemma_part_starts_with_digit(sc, seq!['s']);
    lemma_part_starts_with_digit(millis, seq!['m', 's']);
    assert(l4[0] == x1 || l4[0] == x2 || l4[0] == x3 || l4[0] == x4);
    lemma_trim_built(p4, l4);
}

impl Duration {
    /// The invariant of a duration: the sub-second part is below a second.
    pub open spec fn wf(&self) -> bool {
        self.spec_nanos() < NANOS_PER_SEC
    }

    /// The whole seconds.
    pub closed spec fn spec_secs(&self) -> u64 {
        self.secs
    }

    /// The nanoseconds beyond the whole seconds.
    pub closed spec fn spec_nanos(&self) -> u32 {
        self.nanos
    }

    /// A duration of `secs` seconds and `nanos` nanoseconds, as
    /// `std::time::Duration::new` makes it: whole seconds among the
    /// nanoseconds are carried into the seconds (which must still fit in a
    /// `u64`).
    pub fn new(secs: u64, nanos: u32) -> (d: Duration)
        requires
            secs + nanos / NANOS_PER_SEC <= u64::MAX,
        ensures
            d.wf(),
            d.spec_secs() == secs + nanos / NANOS_PER_SEC,
            d.spec_nanos() == nanos % NANOS_PER_SEC,
    {
        if nanos < NANOS_PER_SEC {
            Duration { secs, nanos }
        } else {
            Duration { secs: secs + (nanos / NANOS_PER_SEC) as u64, nanos: nanos % NANOS_PER_SEC }
        }
    }

    /// The whole seconds.
    pub fn as_secs(&self) -> (r: u64)
        ensures
            r == self.spec_secs(),
    {
        self.secs
    }

    /// The nanoseconds beyond the whole seconds.
    pub fn subsec_nanos(&self) -> (r: u32)
        ensures
            r == self.spec_nanos(),
    {
        self.nanos
    }

    /// The whole milliseconds beyond the whole seconds.
    pub fn subsec_millis(&self) -> (r: u32)
        ensures
            r == self.spec_nanos() / NANOS_PER_MILLI,
    {
        self.nanos / NANOS_PER_MILLI
    }

    /// The human-readable text of the duration, e.g. `"1h 2m 1s 10ms"`.
    pub fn to_display_string(&self) -> (r: String)
        ensures
            r@ == duration_text(self.spec_secs() as nat, (self.spec_nanos() / NANOS_PER_MILLI) as nat),
    {
        let millis: u64 = (self.nanos / NANOS_PER_MILLI) as u64;
        let parts = duration_parts_chars(self.secs, millis);
        let trimmed = trim_leading_spaces_chars(&parts);
        string_from_chars(&trimmed)
    }
}

fn duration_parts_chars(secs: u64, millis: u64) -> (out: Vec<char>)
    ensures
        out@ == duration_parts(secs as nat, millis as nat),
{
    let ghost p1 = if secs >= 3600 {
        decimal((secs / 3600) as nat) + seq!['h']
    } else {
        Seq::empty()
    };
    let ghost r1: nat = if secs >= 3600 {
        (secs % 3600) as nat
    } else {
        secs as nat
    };
    let mut out: Vec<char> = Vec::new();
    let mut rest = secs;
    if rest >= HOUR_SECS {
        push_decimal(&mut out, rest / HOUR_SECS);
        out.push('h');
        rest = rest % HOUR_SECS;
    }
    assert(out@ =~= p1);
    assert(rest == r1);
    let ghost p2 = if r1 >= 60 {
        p1 + seq![' '] + decimal(r1 / 60) + seq!['m']
    } else {
        p1
    };
    let ghost r2: nat = if r1 >= 60 {
        r1 % 60
    } else {
        r1
    };
    if rest >= MINUTE_SECS {
        out.push(' ');
        push_decimal(&mut out, rest / MINUTE_SECS);
        out.push('m');
        rest = rest % MINUTE_SECS;
    }
    assert(out@ =~= p2);
    assert(rest == r2);
    let ghost p3 = if r2 > 0 {
        p2 + seq![' '] + decimal(r2) + seq!['s']
    } else {
        p2
    };
    if rest > 0 {
        out.push(' ');
        push_decimal(&mut out, rest);
        out.push('s');
    }
    assert(out@ =~= p3);
    if millis > 0 || out.len() == 0 {
        out.push(' ');
        push_decimal(&mut out, millis);
        out.push('m');
        out.push('s');
    }
    assert(out@ =~= duration_parts(secs as nat, millis as nat));
    out
}

fn trim_leading_spaces_chars(v: &Vec<char>) -> (out: Vec<char>)
    ensures
        out@ == trim_leading_spaces(v@),
{
    let mut start: usize = 0;
    assert(v@.skip(0) =~= v@);
    while start < v.len() && v[start] == ' '
        invariant
            start <= v.len(),
            trim_leading_spaces(v@) == trim_leading_spaces(v@.skip(start as int)),
        decreases v.len() - start,
    {
        assert(v@.skip(start as int).drop_first() =~= v@.skip((start + 1) as int));
        start = start + 1;
    }
    let mut out: Vec<char> = Vec::new();
    let mut k: usize = start;
    while k < v.len()
        invariant
            start <= k <= v.len(),
            out@ == v@.subrange(start as int, k as int),
        decreases v.len() - k,
    {
        out.push(v[k]);
        assert(out@ =~= v@.subrange(start as int, (k + 1) as int));
        k = k + 1;
    }
    assert(out@ =~= v@.skip(start as int));
    out
}

/// A SHA1 hash: 20 bytes, formatted as a lowercase hex string.
#[derive(Clone, Copy, Debug, PartialEq, Eq)]
pub struct Sha1Hash(pub [u8; 20]);

/// What `num_bigint::BigUint::from_str_radix(s, 36)` gives, turned into
/// little-endian bytes by `BigUint::to_bytes_le`: `None` where `s` is not a
/// base-36 number.
pub uninterp spec fn base36_le_bytes(s: Seq<char>) -> Option<Seq<u8>>;

/// The SHA1 digest of some bytes, as the `sha1` crate computes it.
pub uninterp spec fn sha1_digest(data: Seq<u8>) -> Seq<u8>;

/// Calls `BigUint::from_str_radix(s, 36)` of `num-bigint` and turns the
/// number into its little-endian bytes; the result is named by
/// [`base36_le_bytes`].
#[verifier::external_body]
fn biguint_base36_le_bytes(s: &str) -> (r: Option<Vec<u8>>)
    ensures
        match r {
            Some(b) => base36_le_bytes(s@) == Some(b@),
            None => base36_le_bytes(s@) is None,
        },
{
    match <num_bigint::BigUint as num_traits::Num>::from_str_radix(s, 36) {
        Ok(n) => Some(n.to_bytes_le()),
        Err(_) => None,
    }
}

/// The 20 big-endian bytes of a number given by its little-endian bytes:
/// `None` when it does not fit in 160 bits.
pub open spec fn sha1_bytes_from_le(le: Seq<u8>) -> Option<Seq<u8>> {
    if exists|i: int| 20 <= i < le.len() && le[i] != 0 {
        None
    } else {
        Some(Seq::new(20, |i: int| if 19 - i < le.len() { le[19 - i] } else { 0u8 }))
    }
}

/// The number whose bytes these are, least significant first.
pub open spec fn le_value(b: Seq<u8>) -> nat
    decreases b.len(),
{
    if b.len() == 0 {
        0
    } else {
        b[0] as nat + 256 * le_value(b.drop_first())
    }
}

/// The number whose bytes these are, most significant first.
pub open spec fn be_value(b: Seq<u8>) -> nat
    decreases b.len(),
{
    if b.len() == 0 {
        0
    } else {
        be_value(b.drop_last()) * 256 + b.last() as nat
    }
}

/// 256 to the power `n`.
pub open spec fn pow256(n: nat) -> nat
    decreases n,
{
    if n == 0 {
        1
    } else {
        256 * pow256((n - 1) as nat)
    }
}

proof fn lemma_le_value_split(b: Seq<u8>, k: int)
    requires
        0 <= k <= b.len(),
    ensures
        le_value(b) == le_value(b.take(k)) + pow256(k as nat) * le_value(b.skip(k)),
    decreases k,
{
    if k == 0 {
        assert(b.take(0) =~= Seq::<u8>::empty());
        assert(b.skip(0) =~= b);
        assert(pow256(0) == 1);
        assert(le_value(Seq::<u8>::empty()) == 0);
        let v = le_value(b);
        let q = pow256(0);
        assert(q * v == v) by (nonlinear_arith)
            requires
                q == 1,
        ;
    } else {
        let r = b.drop_first();
        lemma_le_value_split(r, k - 1);
        assert(b.take(k).drop_first() =~= r.take(k - 1));
        assert(b.skip(k) =~= r.skip(k - 1));
        let t = le_value(r.take(k - 1));
        let p = pow256((k - 1) as nat);
        let sv = le_value(r.skip(k - 1));
        assert(b.take(k)[0] == b[0]);
        assert(le_value(b) == b[0] as nat + 256 * le_value(r));
        assert(le_value(b.take(k)) == b[0] as nat + 256 * t);
        assert(pow256(k as nat) == 256 * p);
        let q = pow256(k as nat);
        assert(256 * (t + p * sv) == 256 * t + q * sv) by (nonlinear_arith)
            requires
                q == 256 * p,
        ;
    }
}

proof fn lemma_le_value_zeros(b: Seq<u8>)
    requires
        forall|i: int| 0 <= i < b.len() ==> b[i] == 0,
    ensures
        le_value(b) == 0,
    decreases b.len(),
{
    if b.len() > 0 {
        lemma_le_value_zeros(b.drop_first());
    }
}

proof fn lemma_le_value_nonzero(b: Seq<u8>, i: int)
    requires
        0 <= i < b.len(),
        b[i] != 0,
    ensures
        le_value(b) >= 1,
    decreases i,
{
    if i > 0 {
        lemma_le_value_nonzero(b.drop_first(), i - 1);
    }
}

proof fn lemma_le_value_bound(b: Seq<u8>)
    ensures
        le_value(b) < pow256(b.len()),
    decreases b.len(),
{
    if b.len() > 0 {
        lemma_le_value_bound(b.drop_first());
    }
}

proof fn lemma_pow256_mono(a: nat, b: nat)
    requires
        a <= b,
    ensures
        pow256(a) <= pow256(b),
    decreases b,
{
    if a < b {
        lemma_pow256_mono(a, (b - 1) as nat);
    }
}

proof fn lemma_be_value_reversed(x: Seq<u8>)
    ensures
        be_value(Seq::new(x.len(), |i: int| x[x.len() - 1 - i])) == le_value(x),
    decreases x.len(),
{
    let r = Seq::new(x.len(), |i: int| x[x.len() - 1 - i]);
    if x.len() > 0 {
        let y = x.drop_first();
        lemma_be_value_reversed(y);
        assert(r.drop_last() =~= Seq::new(y.len(), |i: int| y[y.len() - 1 - i]));
    }
}

/// A number's 20 big-endian bytes, as a SHA1 hash holds them, are had
/// from its little-endian bytes exactly when it is below 2^160 (fits in 160
/// bits), and then denote the same number.
pub proof fn lemma_sha1_bytes_from_le_value(le: Seq<u8>)
    ensures
        sha1_bytes_from_le(le) is Some <==> le_value(le) < pow256(20),
        sha1_bytes_from_le(le) matches Some(b) ==> b.len() == 20 && be_value(b) == le_value(le),
{
    let pad = Seq::new(20, |i: int| if i < le.len() { le[i] } else { 0u8 });
    if exists|i: int| 20 <= i < le.len() && le[i] != 0 {
        let i = choose|i: int| 20 <= i < le.len() && le[i] != 0;
        lemma_le_value_split(le, 20);
        lemma_le_value_nonzero(le.skip(20), i - 20);
        let t = le_value(le.take(20));
        let sv = le_value(le.skip(20));
        assert(pow256(20) * sv >= pow256(20)) by (nonlinear_arith)
            requires
                sv >= 1,
        ;
        assert(le_value(le) >= pow256(20));
        assert(sha1_bytes_from_le(le) is None);
    } else {
        if le.len() <= 20 {
            lemma_le_value_split(pad, le.len() as int);
            assert(pad.take(le.len() as int) =~= le);
            lemma_le_value_zeros(pad.skip(le.len() as int));
            assert(pow256(le.len() as nat) * 0 == 0);
            assert(le_value(pad) == le_value(le));
            lemma_le_value_bound(le);
            lemma_pow256_mono(le.len() as nat, 20);
        } else {
            lemma_le_value_split(le, 20);
            assert(pad =~= le.take(20));
            lemma_le_value_zeros(le.skip(20));
            assert(pow256(20) * 0 == 0);
            assert(le_value(pad) == le_value(le));
            lemma_le_value_bound(le.take(20));
        }
        assert(le_value(le) < pow256(20));
        lemma_be_value_reversed(pad);
        let b = Seq::new(20, |i: int| if 19 - i < le.len() { le[19 - i] } else { 0u8 });
        assert(b =~= Seq::new(pad.len(), |i: int| pad[pad.len() - 1 - i]));
    }
}

impl Sha1Hash {
    /// The hash whose number has these little-endian bytes; `None` when the
    /// number needs more than 160 bits.
    pub fn from_le_bytes(le: &Vec<u8>) -> (r: Option<Sha1Hash>)
        ensures
            match sha1_bytes_from_le(le@) {
                Some(b) => r matches Some(h) && h.0@ == b,
                None => r is None,
            },
    {
        let mut i: usize = 20;
        while i < le.len()
            invariant
                20 <= i,
                i <= le.len() || i == 20,
                forall|j: int| 20 <= j < i && j < le.len() ==> le@[j] == 0,
            decreases le.len() - i,
        {
            if le[i] != 0 {
                return None;
            }
            i = i + 1;
        }
        let mut out = [0u8; 20];
        let mut k: usize = 0;
        while k < 20
            invariant
                k <= 20,
                forall|j: int| 0 <= j < k ==> out@[j] == (if 19 - j < le@.len() { le@[19 - j] } else { 0u8 }),
            decreases 20 - k,
        {
            let src: usize = 19 - k;
            let b: u8 = if src < le.len() { le[src] } else { 0 };
            out[k] = b;
            k = k + 1;
        }
        let ghost expected = Seq::new(20, |i: int| if 19 - i < le@.len() { le@[19 - i] } else { 0u8 });
        assert(out@ =~= expected);
        Some(Sha1Hash(out))
    }

    /// Parses a hash written as a base-36 number, as the SHA1 hashes of page
    /// revisions are in dumps.
    pub fn from_base36_str(s: &str) -> (r: Result<Sha1Hash, WikiError>)
        ensures
            match base36_le_bytes(s@) {
                None => r matches Err(WikiError::Sha1Base36),
                Some(le) => match sha1_bytes_from_le(le) {
                    Some(b) => r matches Ok(h) && h.0@ == b,
                    None => r matches Err(WikiError::Sha1TooLarge),
                },
            },
    {
        match biguint_base36_le_bytes(s) {
            None => Err(WikiError::Sha1Base36),
            Some(le) => match Sha1Hash::from_le_bytes(&le) {
                Some(h) => Ok(h),
                None => Err(WikiError::Sha1TooLarge),
            },
        }
    }

    /// Calls `sha1::Sha1::digest` on the bytes: their SHA1 hash, named by
    /// [`sha1_digest`].
    #[verifier::external_body]
    pub fn calculate_from_bytes(s: &[u8]) -> (r: Sha1Hash)
        ensures
            r.0@ == sha1_digest(s@),
    {
        Sha1Hash(<sha1::Sha1 as sha1::Digest>::digest(s).into())
    }

    /// The hash as a lowercase hex string.
    pub fn to_display_string(&self) -> (r: String)
        ensures
            r@ == hex_bytes(self.0@),
    {
        hex_encode(&self.0)
    }
}

/// A SHA1 hash computed over bytes fed in pieces, as a file is read. The
/// `sha1` crate's hasher is held out of Verus's sight: declaring its type
/// (`digest`'s generic `CoreWrapper` over `typenum` bounds) is beyond what
/// Verus takes.
#[verifier::external_body]
pub struct Sha1Stream {
    hasher: sha1::Sha1,
}

/// The bytes fed to a [`Sha1Stream`] so far, in order.
pub uninterp spec fn sha1_stream_fed(s: Sha1Stream) -> Seq<u8>;

impl Sha1Stream {
    /// A new hasher, `sha1::Sha1::new()`: nothing fed yet.
    #[verifier::external_body]
    pub fn new() -> (r: Sha1Stream)
        ensures
            sha1_stream_fed(r) == Seq::<u8>::empty(),
    {
        Sha1Stream { hasher: <sha1::Sha1 as sha1::Digest>::new() }
    }

    /// Feeds bytes to the hasher with `sha1::Digest::update`: they follow
    /// those fed before.
    #[verifier::external_body]
    pub fn update(&mut self, chunk: &[u8])
        ensures
            sha1_stream_fed(*final(self)) == sha1_stream_fed(*old(self)) + chunk@,
    {
        sha1::Digest::update(&mut self.hasher, chunk)
    }

    /// The hash of all the bytes fed, with `sha1::Digest::finalize`: the
    /// same as hashing them at once (see [`sha1_digest`]).
    #[verifier::external_body]
    pub fn finalize(self) -> (r: Sha1Hash)
        ensures
            r.0@ == sha1_digest(sha1_stream_fed(self)),
    {
        Sha1Hash(sha1::Digest::finalize(self.hasher).into())
    }
}

} // verus!
