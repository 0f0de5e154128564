//! The signature header that accompanies a webhook delivery:
//! `t=<unix seconds>,v1=<hex digest>[,v1=<hex digest>...]`.
use vstd::prelude::*;
use vstd::slice::{slice_subrange, slice_to_vec};
use crate::bytes::{parse_i64, parse_i64_spec, sign_len};

verus! {

/// Pieces of `s` between occurrences of `sep`; always at least one piece.
pub open spec fn split_on(s: Seq<u8>, sep: u8) -> Seq<Seq<u8>>
    decreases s.len(),
{
    if s.len() == 0 {
        seq![Seq::<u8>::empty()]
    } else {
        let rest = split_on(s.drop_first(), sep);
        if s[0] == sep {
            seq![Seq::<u8>::empty()] + rest
        } else {
            rest.update(0, seq![s[0]] + rest[0])
        }
    }
}

proof fn lemma_split_on_nonempty(s: Seq<u8>, sep: u8)
    ensures
        split_on(s, sep).len() >= 1,
    decreases s.len(),
{
    if s.len() > 0 {
        lemma_split_on_nonempty(s.drop_first(), sep);
    }
}

spec fn prepend_first(c: Seq<u8>, r: Seq<Seq<u8>>) -> Seq<Seq<u8>> {
    r.update(0, c + r[0])
}

/// Splits `s` at every `sep`.
pub fn split_bytes(s: &[u8], sep: u8) -> (r: Vec<Vec<u8>>)
    ensures
        r.deep_view() == split_on(s@, sep),
{
    let mut pieces: Vec<Vec<u8>> = Vec::new();
    let mut cur: Vec<u8> = Vec::new();
    let mut i: usize = 0;
    proof {
        assert(s@.subrange(0, s@.len() as int) =~= s@);
        lemma_split_on_nonempty(s@, sep);
        assert(prepend_first(cur@, split_on(s@, sep)) =~= split_on(s@, sep));
        assert(pieces.deep_view() =~= Seq::<Seq<u8>>::empty());
    }
    while i < s.len()
        invariant
            i <= s.len(),
            split_on(s@, sep) == pieces.deep_view() + prepend_first(
                cur@,
                split_on(s@.subrange(i as int, s.len() as int), sep),
            ),
        decreases s.len() - i,
    {
        let ghost rest_i = s@.subrange(i as int, s.len() as int);
        let ghost rest_n = s@.subrange(i + 1, s.len() as int);
        let ghost old_pieces = pieces.deep_view();
        let ghost old_vec = pieces@;
        let ghost old_cur = cur@;
        assert(cur.deep_view() =~= cur@);
        assert(rest_i.drop_first() =~= rest_n);
        assert(rest_i[0] == s@[i as int]);
        proof {
            lemma_split_on_nonempty(rest_n, sep);
        }
        if s[i] == sep {
            pieces.push(cur);
            cur = Vec::new();
            assert(pieces.deep_view() =~= old_pieces.push(old_cur));
            assert(prepend_first(old_cur, split_on(rest_i, sep)) =~= seq![old_cur] + split_on(
                rest_n,
                sep,
            ));
            assert(prepend_first(cur@, split_on(rest_n, sep)) =~= split_on(rest_n, sep));
            assert(split_on(s@, sep) =~= pieces.deep_view() + prepend_first(
                cur@,
                split_on(rest_n, sep),
            ));
        } else {
            cur.push(s[i]);
            let ghost r = split_on(rest_n, sep);
            assert(split_on(rest_i, sep) == r.update(0, seq![s@[i as int]] + r[0]));
            assert(old_cur + (seq![s@[i as int]] + r[0]) =~= cur@ + r[0]);
            assert(prepend_first(old_cur, split_on(rest_i, sep)) =~= prepend_first(
                cur@,
                split_on(rest_n, sep),
            ));
        }
        i = i + 1;
    }
    let ghost last = cur@;
    let ghost old_pieces = pieces.deep_view();
    assert(cur.deep_view() =~= cur@);
    assert(s@.subrange(i as int, s.len() as int) =~= Seq::<u8>::empty());
    assert(prepend_first(last, seq![Seq::<u8>::empty()]) =~= seq![last]);
    pieces.push(cur);
    assert(pieces.deep_view() =~= old_pieces.push(last));
    pieces
}


/// ASCII whitespace: tab, line feed, vertical tab, form feed, carriage
/// return and space.
pub open spec fn is_space(b: u8) -> bool {
    (9 <= b <= 13) || b == 32
}

pub open spec fn trim_start(s: Seq<u8>) -> Seq<u8>
    decreases s.len(),
{
    if s.len() > 0 && is_space(s[0]) {
        trim_start(s.drop_first())
    } else {
        s
    }
}

pub open spec fn trim_end(s: Seq<u8>) -> Seq<u8>
    decreases s.len(),
{
    if s.len() > 0 && is_space(s.last()) {
        trim_end(s.drop_last())
    } else {
        s
    }
}

/// `s` without surrounding ASCII whitespace.
pub open spec fn trim(s: Seq<u8>) -> Seq<u8> {
    trim_end(trim_start(s))
}

/// Removes surrounding ASCII whitespace.
pub fn trim_bytes(s: &[u8]) -> (r: Vec<u8>)
    ensures
        r@ == trim(s@),
{
    let mut a: usize = 0;
    assert(s@.subrange(0, s@.len() as int) =~= s@);
    while a < s.len() && (s[a] == 32 || (9 <= s[a] && s[a] <= 13))
        invariant
            a <= s.len(),
            trim_start(s@) == trim_start(s@.subrange(a as int, s.len() as int)),
        decreases s.len() - a,
    {
        assert(s@.subrange(a as int, s.len() as int).drop_first() =~= s@.subrange(
            a + 1,
            s.len() as int,
        ));
        a = a + 1;
    }
    let ghost mid = s@.subrange(a as int, s.len() as int);
    let mut b: usize = s.len();
    assert(mid.subrange(0, (b - a) as int) =~= mid);
    while b > a && (s[b - 1] == 32 || (9 <= s[b - 1] && s[b - 1] <= 13))
        invariant
            a <= b <= s.len(),
            mid == s@.subrange(a as int, s.len() as int),
            trim_start(s@) == mid,
            trim_end(mid) == trim_end(s@.subrange(a as int, b as int)),
        decreases b,
    {
        assert(s@.subrange(a as int, b as int).drop_last() =~= s@.subrange(a as int, b - 1));
        b = b - 1;
    }
    slice_to_vec(slice_subrange(s, a, b))
}

/// Whether a field holds an `=`.
pub open spec fn has_eq(f: Seq<u8>) -> bool {
    exists|k: int| 0 <= k < f.len() && f[k] == 61
}

/// Position of the first `=` of a field that has one.
pub open spec fn eq_index(f: Seq<u8>) -> int {
    choose|k: int| 0 <= k < f.len() && f[k] == 61 && forall|j: int| 0 <= j < k ==> f[j] != 61
}

/// What stands before a field's first `=`.
pub open spec fn field_key(f: Seq<u8>) -> Seq<u8> {
    f.subrange(0, eq_index(f))
}

/// What follows a field's first `=`.
pub open spec fn field_value(f: Seq<u8>) -> Seq<u8> {
    f.subrange(eq_index(f) + 1, f.len() as int)
}

/// Key of the timestamp field.
pub open spec fn timestamp_key() -> Seq<u8> {
    seq![116u8]
}

/// Key of a signature field.
pub open spec fn signature_key() -> Seq<u8> {
    seq![118u8, 49u8]
}

/// The trimmed comma-separated fields of a header.
pub open spec fn header_fields(h: Seq<u8>) -> Seq<Seq<u8>> {
    split_on(h, 44).map_values(|f: Seq<u8>| trim(f))
}

/// Values of the signature fields, in header order.
pub open spec fn signatures_of(fs: Seq<Seq<u8>>) -> Seq<Seq<u8>>
    decreases fs.len(),
{
    if fs.len() == 0 {
        Seq::empty()
    } else {
        let r = signatures_of(fs.drop_last());
        if field_key(fs.last()) == signature_key() {
            r.push(field_value(fs.last()))
        } else {
            r
        }
    }
}

/// Index of the first timestamp field, where there is one.
pub open spec fn first_timestamp(fs: Seq<Seq<u8>>) -> int {
    choose|i: int|
        0 <= i < fs.len() && field_key(fs[i]) == timestamp_key() && forall|j: int|
            0 <= j < i ==> field_key(fs[j]) != timestamp_key()
}

/// A parsed signature header: the timestamp as written, its value, and the
/// signatures.
pub struct SignatureHeader {
    pub timestamp_text: Vec<u8>,
    pub timestamp: i64,
    pub signatures: Vec<Vec<u8>>,
}

impl SignatureHeader {
    pub open spec fn view(&self) -> (Seq<u8>, i64, Seq<Seq<u8>>) {
        (self.timestamp_text@, self.timestamp, self.signatures.deep_view())
    }
}

/// What a header reads as. It is well-formed when every field has an `=`,
/// some field has the key `t` with a decimal `i64` value (the first such
/// field counts), and at least one field has the key `v1`.
pub open spec fn parse_header_spec(h: Seq<u8>) -> Option<(Seq<u8>, i64, Seq<Seq<u8>>)> {
    let fs = header_fields(h);
    if !(forall|i: int| 0 <= i < fs.len() ==> has_eq(#[trigger] fs[i])) {
        None
    } else if !(exists|i: int| 0 <= i < fs.len() && field_key(#[trigger] fs[i]) == timestamp_key()) {
        None
    } else if signatures_of(fs).len() == 0 {
        None
    } else {
        let text = field_value(fs[first_timestamp(fs)]);
        match parse_i64_spec(text) {
            None => None,
            Some(t) => Some((text, t, signatures_of(fs))),
        }
    }
}

/// Position of the first `=` in `f`, if any.
fn find_eq(f: &[u8]) -> (r: Option<usize>)
    ensures
        r is None <==> !has_eq(f@),
        r matches Some(k) ==> k == eq_index(f@) && k < f@.len(),
{
    let mut k: usize = 0;
    while k < f.len()
        invariant
            k <= f.len(),
            forall|j: int| 0 <= j < k ==> f@[j] != 61,
        decreases f.len() - k,
    {
        if f[k] == 61 {
            let ghost c = eq_index(f@);
            assert(0 <= c < f@.len() && f@[c] == 61 && forall|j: int| 0 <= j < c ==> f@[j] != 61);
            assert(c == k);
            return Some(k);
        }
        k = k + 1;
    }
    None
}

/// Key and value of a field, split at its first `=`.
fn field_parts(f: &[u8]) -> (r: Option<(Vec<u8>, Vec<u8>)>)
    ensures
        r is None <==> !has_eq(f@),
        r matches Some(p) ==> p.0@ == field_key(f@) && p.1@ == field_value(f@),
{
    let n = f.len();
    match find_eq(f) {
        Some(k) => Some(
            (slice_to_vec(slice_subrange(f, 0, k)), slice_to_vec(slice_subrange(f, k + 1, n))),
        ),
        None => None,
    }
}

proof fn lemma_signatures_step(fs: Seq<Seq<u8>>, i: int)
    requires
        0 <= i < fs.len(),
    ensures
        signatures_of(fs.subrange(0, i + 1)) == if field_key(fs[i]) == signature_key() {
            signatures_of(fs.subrange(0, i)).push(field_value(fs[i]))
        } else {
            signatures_of(fs.subrange(0, i))
        },
{
    assert(fs.subrange(0, i + 1).drop_last() =~= fs.subrange(0, i));
}

/// Parses a signature header; `None` where it is malformed.
#[verifier::rlimit(40)]
pub fn parse_header(h: &[u8]) -> (r: Option<SignatureHeader>)
    ensures
        match r {
            Some(x) => parse_header_spec(h@) == Some(x.view()),
            None => parse_header_spec(h@).is_none(),
        },
{
    let raw = split_bytes(h, 44);
    let ghost fs = header_fields(h@);
    assert(fs.len() == raw.deep_view().len());
    let mut ts_text: Option<Vec<u8>> = None;
    let ghost mut ts_at: int = 0;
    let mut sigs: Vec<Vec<u8>> = Vec::new();
    let mut i: usize = 0;
    assert(sigs.deep_view() =~= signatures_of(fs.subrange(0, 0)));
    while i < raw.len()
        invariant
            i <= raw.len(),
            fs == header_fields(h@),
            fs.len() == raw.deep_view().len(),
            raw.deep_view() == split_on(h@, 44),
            forall|j: int| 0 <= j < i ==> has_eq(#[trigger] fs[j]),
            sigs.deep_view() == signatures_of(fs.subrange(0, i as int)),
            ts_text is None ==> forall|j: int|
                0 <= j < i ==> field_key(#[trigger] fs[j]) != timestamp_key(),
            ts_text matches Some(t) ==> {
                &&& 0 <= ts_at < i
                &&& field_key(fs[ts_at]) == timestamp_key()
                &&& forall|j: int| 0 <= j < ts_at ==> field_key(#[trigger] fs[j]) != timestamp_key()
                &&& t@ == field_value(fs[ts_at])
            },
        decreases raw.len() - i,
    {
        assert(raw[i as int].deep_view() =~= raw[i as int]@);
        let f = trim_bytes(raw[i].as_slice());
        assert(f@ == fs[i as int]);
        let (key, value) = match field_parts(f.as_slice()) {
            Some(p) => p,
            None => {
                return None;
            },
        };
        let is_t = key.len() == 1 && key[0] == 116;
        let is_v1 = key.len() == 2 && key[0] == 118 && key[1] == 49;
        assert(is_t <==> key@ =~= timestamp_key());
        assert(is_v1 <==> key@ =~= signature_key());
        proof {
            lemma_signatures_step(fs, i as int);
        }
        let ghost old_sigs = sigs.deep_view();
        if is_v1 {
            let copy = slice_to_vec(value.as_slice());
            assert(copy.deep_view() =~= copy@);
            sigs.push(copy);
            assert(sigs.deep_view() =~= old_sigs.push(value@));
        }
        if is_t && ts_text.is_none() {
            ts_text = Some(value);
            proof {
                ts_at = i as int;
            }
        }
        i = i + 1;
    }
    assert(fs.subrange(0, i as int) =~= fs);
    let text = match ts_text {
        Some(t) => t,
        None => {
            return None;
        },
    };
    if sigs.len() == 0 {
        return None;
    }
    assert(ts_at == first_timestamp(fs));
    match parse_i64(text.as_slice()) {
        Some(t) => Some(SignatureHeader { timestamp_text: text, timestamp: t, signatures: sigs }),
        None => None,
    }
}


proof fn lemma_split_on_without_sep(s: Seq<u8>, sep: u8)
    requires
        forall|i: int| 0 <= i < s.len() ==> s[i] != sep,
    ensures
        split_on(s, sep) == seq![s],
    decreases s.len(),
{
    if s.len() == 0 {
        assert(s =~= Seq::<u8>::empty());
    } else {
        lemma_split_on_without_sep(s.drop_first(), sep);
        assert(seq![s[0]] + s.drop_first() =~= s);
        assert(split_on(s, sep) =~= seq![s]);
    }
}

proof fn lemma_split_on_prefix(a: Seq<u8>, b: Seq<u8>, sep: u8)
    requires
        forall|i: int| 0 <= i < a.len() ==> a[i] != sep,
    ensures
        split_on(a + seq![sep] + b, sep) == seq![a] + split_on(b, sep),
    decreases a.len(),
{
    let s = a + seq![sep] + b;
    if a.len() == 0 {
        assert(s.drop_first() =~= b);
        assert(a =~= Seq::<u8>::empty());
    } else {
        assert(s.drop_first() =~= a.drop_first() + seq![sep] + b);
        lemma_split_on_prefix(a.drop_first(), b, sep);
        assert(seq![a[0]] + a.drop_first() =~= a);
        assert(split_on(s, sep) =~= seq![a] + split_on(b, sep));
    }
}

/// A header in the form the service writes: `t=<timestamp>,v1=<signature>`.
pub open spec fn header_text(timestamp_text: Seq<u8>, signature: Seq<u8>) -> Seq<u8> {
    seq![116u8, 61u8] + timestamp_text + seq![44u8] + (seq![118u8, 49u8, 61u8] + signature)
}

/// Byte that may stand in a timestamp or a signature of a header.
pub open spec fn plain_byte(b: u8) -> bool {
    b != 44 && b != 61 && !is_space(b)
}

/// A header in the service's form, whose timestamp is a decimal `i64` and
/// whose signature holds no comma, `=` or space, parses to that timestamp
/// and that one signature.
pub proof fn lemma_header_text_parses(timestamp_text: Seq<u8>, signature: Seq<u8>)
    requires
        parse_i64_spec(timestamp_text) is Some,
        forall|i: int| 0 <= i < signature.len() ==> plain_byte(#[trigger] signature[i]),
    ensures
        parse_header_spec(header_text(timestamp_text, signature)) == Some(
            (timestamp_text, parse_i64_spec(timestamp_text)->Some_0, seq![signature]),
        ),
{
    let d = timestamp_text;
    let f1 = seq![116u8, 61u8] + d;
    let f2 = seq![118u8, 49u8, 61u8] + signature;
    let h = header_text(d, signature);
    assert(h =~= f1 + seq![44u8] + f2);
    let start = sign_len(d);
    assert(forall|i: int| 0 <= i < d.len() ==> plain_byte(#[trigger] d[i])) by {
        assert forall|i: int| 0 <= i < d.len() implies plain_byte(#[trigger] d[i]) by {
            if i >= start {
                assert(d.subrange(start, d.len() as int)[i - start] == d[i]);
            }
        }
    }
    assert(d.len() > 0);
    assert(forall|i: int| 0 <= i < f1.len() ==> f1[i] != 44);
    assert(forall|i: int| 0 <= i < f2.len() ==> f2[i] != 44);
    lemma_split_on_prefix(f1, f2, 44);
    lemma_split_on_without_sep(f2, 44);
    assert(split_on(h, 44) == seq![f1, f2]);
    // Neither field has surrounding space.
    assert(trim_start(f1) == f1);
    assert(trim_end(f1) == f1);
    assert(trim_start(f2) == f2);
    assert(trim_end(f2) == f2);
    let fs = header_fields(h);
    assert(fs =~= seq![f1, f2]);
    // Keys and values.
    assert(f1[1] == 61);
    assert(has_eq(f1));
    let k1 = eq_index(f1);
    assert(k1 == 1);
    assert(f2[2] == 61);
    assert(has_eq(f2));
    let k2 = eq_index(f2);
    assert(k2 == 2);
    assert(field_key(f1) =~= timestamp_key());
    assert(field_value(f1) =~= d);
    assert(field_key(f2) =~= signature_key());
    assert(field_value(f2) =~= signature);
    assert(field_key(f2) != timestamp_key());
    assert(fs.drop_last() =~= seq![f1]);
    assert(seq![f1].drop_last() =~= Seq::<Seq<u8>>::empty());
    assert(field_key(f1).len() != signature_key().len());
    assert(seq![f1].last() == f1);
    assert(signatures_of(Seq::<Seq<u8>>::empty()) == Seq::<Seq<u8>>::empty());
    assert(signatures_of(seq![f1]) =~= Seq::<Seq<u8>>::empty());
    assert(signatures_of(fs) =~= seq![signature]);
    assert(first_timestamp(fs) == 0);
}

} // verus!
