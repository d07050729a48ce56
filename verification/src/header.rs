//! Interpretation of the header values that choose the body framing: the
//! `Content-Length` decimal value and the `chunked` token of
//! `Transfer-Encoding`, matched case-insensitively in a comma-separated
//! list.

use vstd::prelude::*;
use crate::util::spec_is_digit;
use crate::util::spec_is_whitespace;
use crate::util::spec_to_lower;
use crate::util::is_digit;
use crate::util::is_whitespace;
use crate::util::to_lower;

verus! {

/// How the value of the header currently being parsed must be interpreted
/// once it is complete.
#[derive(Clone, Copy, PartialEq, Eq, Structural, Debug)]
pub enum HeaderKind {
    ContentLength,
    TransferEncoding,
    Other,
}

/// Each byte case-folded with [`spec_to_lower`].
pub open spec fn lower_seq(v: Seq<u8>) -> Seq<u8> {
    v.map(|i: int, b: u8| spec_to_lower(b))
}

/// The bytes of `content-length`.
pub open spec fn content_length_name() -> Seq<u8> {
    seq![99u8, 111, 110, 116, 101, 110, 116, 45, 108, 101, 110, 103, 116, 104]
}

/// The bytes of `transfer-encoding`.
pub open spec fn transfer_encoding_name() -> Seq<u8> {
    seq![116u8, 114, 97, 110, 115, 102, 101, 114, 45, 101, 110, 99, 111, 100, 105, 110, 103]
}

/// The bytes of `chunked`.
pub open spec fn chunked_name() -> Seq<u8> {
    seq![99u8, 104, 117, 110, 107, 101, 100]
}

/// How a completed field name classifies the value that follows it.
pub open spec fn field_kind_of(f: Seq<u8>) -> HeaderKind {
    if lower_seq(f) == content_length_name() {
        HeaderKind::ContentLength
    } else if lower_seq(f) == transfer_encoding_name() {
        HeaderKind::TransferEncoding
    } else {
        HeaderKind::Other
    }
}

/// Whether `f`, case-folded, equals `lit` byte for byte.
fn eq_lower_to(f: &Vec<u8>, lit: &Vec<u8>) -> (r: bool)
    ensures
        r == (lower_seq(f@) == lit@),
{
    if f.len() != lit.len() {
        proof {
            assert(lower_seq(f@).len() == f@.len());
        }
        return false;
    }
    let n = f.len();
    let mut i: usize = 0;
    while i < n
        invariant
            i <= n,
            n == f@.len(),
            n == lit@.len(),
            forall|j: int| 0 <= j < i ==> spec_to_lower(f@[j]) == lit@[j],
        decreases n - i,
    {
        if to_lower(f[i]) != lit[i] {
            proof {
                assert(lower_seq(f@)[i as int] != lit@[i as int]);
            }
            return false;
        }
        i += 1;
    }
    proof {
        assert(lower_seq(f@) =~= lit@);
    }
    true
}

fn content_length_lit() -> (r: Vec<u8>)
    ensures
        r@ == content_length_name(),
{
    let mut v: Vec<u8> = Vec::new();
    v.push(99);
    v.push(111);
    v.push(110);
    v.push(116);
    v.push(101);
    v.push(110);
    v.push(116);
    v.push(45);
    v.push(108);
    v.push(101);
    v.push(110);
    v.push(103);
    v.push(116);
    v.push(104);
    proof {
        assert(v@ =~= content_length_name());
    }
    v
}

fn transfer_encoding_lit() -> (r: Vec<u8>)
    ensures
        r@ == transfer_encoding_name(),
{
    let mut v: Vec<u8> = Vec::new();
    v.push(116);
    v.push(114);
    v.push(97);
    v.push(110);
    v.push(115);
    v.push(102);
    v.push(101);
    v.push(114);
    v.push(45);
    v.push(101);
    v.push(110);
    v.push(99);
    v.push(111);
    v.push(100);
    v.push(105);
    v.push(110);
    v.push(103);
    proof {
        assert(v@ =~= transfer_encoding_name());
    }
    v
}

/// Classify a completed header field name.
pub fn classify_field(f: &Vec<u8>) -> (k: HeaderKind)
    ensures
        k == field_kind_of(f@),
{
    let cl = content_length_lit();
    if eq_lower_to(f, &cl) {
        return HeaderKind::ContentLength;
    }
    let te = transfer_encoding_lit();
    if eq_lower_to(f, &te) {
        return HeaderKind::TransferEncoding;
    }
    HeaderKind::Other
}

/// The numeric reading of a digit string, most significant digit first.
pub open spec fn dec_int(v: Seq<u8>) -> int
    decreases v.len(),
{
    if v.len() == 0 {
        0
    } else {
        dec_int(v.drop_last()) * 10 + (v.last() - 48)
    }
}

/// Every byte is a decimal digit.
pub open spec fn all_digits(v: Seq<u8>) -> bool {
    forall|i: int| 0 <= i < v.len() ==> spec_is_digit(#[trigger] v[i])
}

/// What a `Content-Length` value must parse to: a non-empty digit string
/// whose value fits in a `u64`; anything else is rejected.
pub open spec fn spec_parse_dec(v: Seq<u8>) -> Option<u64> {
    if v.len() > 0 && all_digits(v) && dec_int(v) <= u64::MAX {
        Some(dec_int(v) as u64)
    } else {
        None
    }
}

proof fn lemma_dec_int_nonneg(v: Seq<u8>)
    requires
        all_digits(v),
    ensures
        dec_int(v) >= 0,
    decreases v.len(),
{
    if v.len() > 0 {
        assert(all_digits(v.drop_last()));
        lemma_dec_int_nonneg(v.drop_last());
    }
}

proof fn lemma_dec_int_prefix_le(v: Seq<u8>, k: int)
    requires
        all_digits(v),
        0 <= k <= v.len(),
    ensures
        dec_int(v.take(k)) <= dec_int(v),
    decreases v.len() - k,
{
    if k == v.len() {
        assert(v.take(k) =~= v);
    } else {
        let w = v.drop_last();
        assert(all_digits(w));
        assert(v.take(k) =~= w.take(k));
        lemma_dec_int_prefix_le(w, k);
        lemma_dec_int_nonneg(w);
    }
}

/// Parse a complete decimal digit string into a `u64`.
pub fn parse_dec(v: &Vec<u8>) -> (r: Option<u64>)
    ensures
        r == spec_parse_dec(v@),
{
    if v.len() == 0 {
        return None;
    }
    let n = v.len();
    let mut acc: u64 = 0;
    let mut i: usize = 0;
    while i < n
        invariant
            i <= n,
            n == v@.len(),
            all_digits(v@.take(i as int)),
            acc == dec_int(v@.take(i as int)),
        decreases n - i,
    {
        let b = v[i];
        if !is_digit(b) {
            proof {
                assert(!all_digits(v@));
            }
            return None;
        }
        let d = b - 48;
        proof {
            assert(v@.take(i + 1).drop_last() =~= v@.take(i as int));
            assert(v@.take(i + 1).last() == v@[i as int]);
        }
        if acc > u64::MAX / 10 || (acc == u64::MAX / 10 && d > 5) {
            proof {
                assert(dec_int(v@.take(i + 1)) > u64::MAX);
                if all_digits(v@) {
                    lemma_dec_int_prefix_le(v@, i + 1);
                }
            }
            return None;
        }
        acc = acc * 10 + (d as u64);
        i += 1;
        proof {
            assert(all_digits(v@.take(i as int)));
        }
    }
    proof {
        assert(v@.take(n as int) =~= v@);
    }
    Some(acc)
}

/// The index of the first comma, or `-1` when there is none.
pub open spec fn first_comma(v: Seq<u8>) -> int
    decreases v.len(),
{
    if v.len() == 0 {
        -1
    } else if v[0] == 44 {
        0
    } else {
        let r = first_comma(v.drop_first());
        if r < 0 {
            -1
        } else {
            r + 1
        }
    }
}

proof fn lemma_first_comma(v: Seq<u8>)
    ensures
        first_comma(v) < 0 ==> forall|i: int| 0 <= i < v.len() ==> #[trigger] v[i] != 44,
        first_comma(v) >= 0 ==> 0 <= first_comma(v) < v.len() && v[first_comma(v)] == 44
            && forall|i: int| 0 <= i < first_comma(v) ==> #[trigger] v[i] != 44,
    decreases v.len(),
{
    if v.len() > 0 && v[0] != 44 {
        let w = v.drop_first();
        lemma_first_comma(w);
        if first_comma(w) < 0 {
            assert forall|i: int| 0 <= i < v.len() implies #[trigger] v[i] != 44 by {
                if i > 0 {
                    assert(w[i - 1] != 44);
                }
            }
        } else {
            let k = first_comma(w);
            assert(v[k + 1] == w[k]);
            assert forall|i: int| 0 <= i < k + 1 implies #[trigger] v[i] != 44 by {
                if i > 0 {
                    assert(w[i - 1] != 44);
                }
            }
        }
    }
}

/// The count of leading whitespace bytes.
pub open spec fn ws_prefix_len(v: Seq<u8>) -> int
    decreases v.len(),
{
    if v.len() > 0 && spec_is_whitespace(v[0]) {
        1 + ws_prefix_len(v.drop_first())
    } else {
        0
    }
}

/// The count of trailing whitespace bytes.
pub open spec fn ws_suffix_len(v: Seq<u8>) -> int
    decreases v.len(),
{
    if v.len() > 0 && spec_is_whitespace(v.last()) {
        1 + ws_suffix_len(v.drop_last())
    } else {
        0
    }
}

/// `v` with leading and trailing whitespace removed.
pub open spec fn trim_ws(v: Seq<u8>) -> Seq<u8> {
    let a = ws_prefix_len(v);
    let b = v.len() - ws_suffix_len(v);
    if a <= b {
        v.subrange(a, b)
    } else {
        Seq::empty()
    }
}

/// One element of a comma-separated list names the chunked coding: the
/// element, trimmed of whitespace and case-folded, is exactly `chunked`.
pub open spec fn token_is_chunked(v: Seq<u8>) -> bool {
    lower_seq(trim_ws(v)) == chunked_name()
}

/// A `Transfer-Encoding` value lists `chunked` among its comma-separated
/// elements.
pub open spec fn te_has_chunked(v: Seq<u8>) -> bool
    decreases v.len(),
{
    let k = first_comma(v);
    if 0 <= k && k < v.len() {
        token_is_chunked(v.take(k)) || te_has_chunked(v.skip(k + 1))
    } else {
        token_is_chunked(v)
    }
}

proof fn lemma_ws_prefix(v: Seq<u8>)
    ensures
        0 <= ws_prefix_len(v) <= v.len(),
        forall|i: int| 0 <= i < ws_prefix_len(v) ==> spec_is_whitespace(#[trigger] v[i]),
        ws_prefix_len(v) < v.len() ==> !spec_is_whitespace(v[ws_prefix_len(v)]),
    decreases v.len(),
{
    if v.len() > 0 && spec_is_whitespace(v[0]) {
        let w = v.drop_first();
        lemma_ws_prefix(w);
        let p = ws_prefix_len(w);
        assert forall|i: int| 0 <= i < 1 + p implies spec_is_whitespace(#[trigger] v[i]) by {
            if i > 0 {
                assert(spec_is_whitespace(w[i - 1]));
            }
        }
        if 1 + p < v.len() {
            assert(v[1 + p] == w[p]);
        }
    }
}

proof fn lemma_ws_suffix(v: Seq<u8>)
    ensures
        0 <= ws_suffix_len(v) <= v.len(),
        forall|i: int| v.len() - ws_suffix_len(v) <= i < v.len() ==> spec_is_whitespace(
            #[trigger] v[i],
        ),
        ws_suffix_len(v) < v.len() ==> !spec_is_whitespace(v[v.len() - ws_suffix_len(v) - 1]),
    decreases v.len(),
{
    if v.len() > 0 && spec_is_whitespace(v.last()) {
        let w = v.drop_last();
        lemma_ws_suffix(w);
        let q = ws_suffix_len(w);
        assert forall|i: int| v.len() - (1 + q) <= i < v.len() implies spec_is_whitespace(
            #[trigger] v[i],
        ) by {
            if i < v.len() - 1 {
                assert(spec_is_whitespace(w[i]));
            }
        }
        if 1 + q < v.len() {
            assert(v[v.len() - (1 + q) - 1] == w[w.len() - q - 1]);
        }
    }
}

fn chunked_lit() -> (r: Vec<u8>)
    ensures
        r@ == chunked_name(),
{
    let mut v: Vec<u8> = Vec::new();
    v.push(99);
    v.push(104);
    v.push(117);
    v.push(110);
    v.push(107);
    v.push(101);
    v.push(100);
    proof {
        assert(v@ =~= chunked_name());
    }
    v
}

/// Whether `v[s..e]` is the `chunked` token, up to whitespace and case.
fn token_is_chunked_range(v: &Vec<u8>, s: usize, e: usize) -> (r: bool)
    requires
        s <= e <= v@.len(),
    ensures
        r == token_is_chunked(v@.subrange(s as int, e as int)),
{
    let ghost sub = v@.subrange(s as int, e as int);
    proof {
        lemma_ws_prefix(sub);
        lemma_ws_suffix(sub);
    }
    let mut a: usize = s;
    while a < e && is_whitespace(v[a])
        invariant
            s <= a <= e <= v@.len(),
            forall|i: int| s <= i < a ==> spec_is_whitespace(#[trigger] v@[i]),
        decreases e - a,
    {
        a += 1;
    }
    proof {
        assert(a - s == ws_prefix_len(sub)) by {
            let wp = ws_prefix_len(sub);
            if wp < a - s {
                assert(spec_is_whitespace(v@[s + wp]));
                assert(sub[wp] == v@[s + wp]);
            }
            if wp > a - s {
                assert(spec_is_whitespace(sub[a - s]));
            }
        }
    }
    let mut b: usize = e;
    while b > a && is_whitespace(v[b - 1])
        invariant
            a <= b <= e,
            a <= e <= v@.len(),
            forall|i: int| b <= i < e ==> spec_is_whitespace(#[trigger] v@[i]),
        decreases b - a,
    {
        b -= 1;
    }
    let ghost wp = ws_prefix_len(sub);
    let ghost wsuf = ws_suffix_len(sub);
    if a == e {
        // the whole range is whitespace: the trimmed token is empty
        proof {
            assert(wp == sub.len());
            assert(wsuf == sub.len()) by {
                if wsuf < sub.len() {
                    assert(spec_is_whitespace(sub[sub.len() - wsuf - 1]));
                }
            }
            assert(trim_ws(sub) == Seq::<u8>::empty());
            assert(lower_seq(trim_ws(sub)).len() == 0);
        }
        return false;
    }
    proof {
        // the right scan stopped at the last non-whitespace byte
        assert(!spec_is_whitespace(v@[a as int]));
        assert(b > a) by {
            if b == a {
                assert(spec_is_whitespace(v@[a as int]));
            }
        }
        assert(!spec_is_whitespace(v@[b - 1]));
        assert(e - b == wsuf) by {
            if wsuf < e - b {
                assert(spec_is_whitespace(sub[sub.len() - wsuf - 1]));
                assert(sub.len() - wsuf - 1 >= b - s);
                assert(sub[sub.len() - wsuf - 1] == v@[e - wsuf - 1]);
            }
            if wsuf > e - b {
                assert(wsuf <= sub.len());
                assert(spec_is_whitespace(sub[b - 1 - s]));
                assert(sub[b - 1 - s] == v@[b - 1]);
            }
        }
        assert(trim_ws(sub) =~= v@.subrange(a as int, b as int));
    }
    if b - a != 7 {
        proof {
            assert(lower_seq(trim_ws(sub)).len() == b - a);
        }
        return false;
    }
    let lit = chunked_lit();
    let mut i: usize = 0;
    while i < 7
        invariant
            i <= 7,
            a + 7 == b,
            b <= v@.len(),
            lit@ == chunked_name(),
            sub == v@.subrange(s as int, e as int),
            trim_ws(sub) == v@.subrange(a as int, b as int),
            forall|j: int| 0 <= j < i ==> spec_to_lower(v@[a + j]) == chunked_name()[j],
        decreases 7 - i,
    {
        if to_lower(v[a + i]) != lit[i] {
            proof {
                assert(lower_seq(trim_ws(sub))[i as int] == spec_to_lower(v@[a + i]));
                assert(chunked_name()[i as int] == lit@[i as int]);
            }
            return false;
        }
        i += 1;
    }
    proof {
        assert(lower_seq(trim_ws(sub)) =~= chunked_name());
    }
    true
}

fn te_chunk_scan(v: &Vec<u8>, s: usize) -> (r: bool)
    requires
        s <= v@.len(),
    ensures
        r == te_has_chunked(v@.skip(s as int)),
    decreases v@.len() - s,
{
    let ghost tail = v@.skip(s as int);
    proof {
        lemma_first_comma(tail);
    }
    let n = v.len();
    let mut p: usize = s;
    while p < n && v[p] != 44
        invariant
            s <= p <= n,
            n == v@.len(),
            forall|j: int| s <= j < p ==> #[trigger] v@[j] != 44,
        decreases n - p,
    {
        p += 1;
    }
    let ghost k = first_comma(tail);
    proof {
        if p < n {
            assert(v@[p as int] == 44);
            assert(k == p - s) by {
                if k < 0 {
                    assert(tail[p - s] != 44);
                } else {
                    if k < p - s {
                        assert(tail[k] == v@[s + k]);
                    }
                    if k > p - s {
                        assert(tail[p - s] != 44);
                    }
                }
            }
        } else {
            assert(k < 0) by {
                if k >= 0 {
                    assert(tail[k] == v@[s + k]);
                }
            }
        }
    }
    if p < n {
        proof {
            assert(tail.take(k) =~= v@.subrange(s as int, p as int));
        }
        let t = token_is_chunked_range(v, s, p);
        if t {
            return true;
        }
        let rest = te_chunk_scan(v, p + 1);
        proof {
            assert(tail.skip(k + 1) =~= v@.skip(p + 1));
        }
        rest
    } else {
        proof {
            assert(tail =~= v@.subrange(s as int, n as int));
        }
        token_is_chunked_range(v, s, n)
    }
}

/// Whether a complete `Transfer-Encoding` value lists `chunked`.
pub fn header_value_has_chunked(v: &Vec<u8>) -> (r: bool)
    ensures
        r == te_has_chunked(v@),
{
    proof {
        assert(v@.skip(0) =~= v@);
    }
    te_chunk_scan(v, 0)
}

} // verus!
