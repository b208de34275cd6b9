//! Fixed-size byte fields: zero padding, zero-terminated text, and the
//! little-endian integers of binary formats.
use vstd::prelude::*;
use vstd::slice::{slice_subrange, slice_to_vec};
use vstd::utf8::*;

use crate::trusted::string_from_utf8;

verus! {

/// Index of the first zero byte of `b`, or its length where it holds none.
pub open spec fn nul_pos(b: Seq<u8>) -> int
    decreases b.len(),
{
    if b.len() == 0 {
        0
    } else if b[0] == 0 {
        0
    } else {
        1 + nul_pos(b.drop_first())
    }
}

/// The bytes of `b` before its first zero byte.
pub open spec fn until_nul(b: Seq<u8>) -> Seq<u8> {
    b.take(nul_pos(b))
}

/// No byte of `b` is zero.
pub open spec fn no_nul(b: Seq<u8>) -> bool {
    forall|i: int| 0 <= i < b.len() ==> b[i] != 0
}

/// Every byte of `b` is zero.
pub open spec fn all_zero(b: Seq<u8>) -> bool {
    forall|i: int| 0 <= i < b.len() ==> b[i] == 0
}

pub open spec fn zeros(n: nat) -> Seq<u8> {
    Seq::new(n, |_i: int| 0u8)
}

/// `b` followed by zero bytes up to length `n`.
pub open spec fn padded(b: Seq<u8>, n: nat) -> Seq<u8> {
    b + zeros((n - b.len()) as nat)
}

/// The text of a zero-terminated field: `None` where the bytes before the
/// first zero are not UTF-8.
pub open spec fn cstr_text(b: Seq<u8>) -> Option<Seq<char>> {
    if valid_utf8(until_nul(b)) {
        Some(decode_utf8(until_nul(b)))
    } else {
        None
    }
}

/// A string fits a zero-padded field of `n` bytes and can be read back from it:
/// its UTF-8 form is at most `n` bytes long and holds no zero byte.
pub open spec fn fits_field(s: Seq<char>, n: nat) -> bool {
    &&& encode_utf8(s).len() <= n
    &&& no_nul(encode_utf8(s))
}

pub proof fn lemma_nul_pos(b: Seq<u8>)
    ensures
        0 <= nul_pos(b) <= b.len(),
        forall|j: int| 0 <= j < nul_pos(b) ==> b[j] != 0,
        nul_pos(b) < b.len() ==> b[nul_pos(b)] == 0,
    decreases b.len(),
{
    if b.len() > 0 && b[0] != 0 {
        let t = b.drop_first();
        lemma_nul_pos(t);
        assert forall|j: int| 0 <= j < nul_pos(b) implies b[j] != 0 by {
            if j > 0 {
                assert(b[j] == t[j - 1]);
            }
        }
        if nul_pos(b) < b.len() {
            assert(b[nul_pos(b)] == t[nul_pos(t)]);
        }
    }
}

/// The first zero byte is the only index before which no byte is zero and at
/// which a zero stands (or the end).
pub proof fn lemma_nul_pos_unique(b: Seq<u8>, i: int)
    requires
        0 <= i <= b.len(),
        forall|j: int| 0 <= j < i ==> b[j] != 0,
        i < b.len() ==> b[i] == 0,
    ensures
        nul_pos(b) == i,
{
    lemma_nul_pos(b);
    let p = nul_pos(b);
    if p < i {
        assert(b[p] != 0);
    } else if i < p {
        assert(b[i] != 0);
    }
}

/// Reading back a field written from bytes with no zero among them gives
/// those bytes.
pub proof fn lemma_until_nul_padded(b: Seq<u8>, n: nat)
    requires
        no_nul(b),
        b.len() <= n,
    ensures
        until_nul(padded(b, n)) == b,
        nul_pos(padded(b, n)) == b.len(),
{
    let p = padded(b, n);
    assert forall|j: int| 0 <= j < b.len() implies p[j] != 0 by {
        assert(p[j] == b[j]);
    }
    lemma_nul_pos_unique(p, b.len() as int);
    assert(p.take(b.len() as int) =~= b);
}

/// A padded field is all zero exactly when it was written from no bytes.
pub proof fn lemma_padded_all_zero(b: Seq<u8>, n: nat)
    requires
        no_nul(b),
        b.len() <= n,
    ensures
        all_zero(padded(b, n)) <==> b.len() == 0,
{
    let p = padded(b, n);
    if b.len() > 0 {
        assert(p[0] == b[0]);
    } else {
        assert forall|i: int| 0 <= i < p.len() implies p[i] == 0 by {
            assert(p[i] == zeros(n)[i]);
        }
    }
}

/// A string written to a field it fits is read back unchanged.
pub proof fn lemma_cstr_text_roundtrip(s: Seq<char>, n: nat)
    requires
        fits_field(s, n),
    ensures
        cstr_text(padded(encode_utf8(s), n)) == Some(s),
        all_zero(padded(encode_utf8(s), n)) <==> s.len() == 0,
{
    let b = encode_utf8(s);
    lemma_until_nul_padded(b, n);
    lemma_padded_all_zero(b, n);
    encode_utf8_valid_utf8(s);
    encode_utf8_decode_utf8(s);
    lemma_encode_utf8_empty(s);
}

/// A character sequence is empty exactly when its UTF-8 form is.
pub proof fn lemma_encode_utf8_empty(s: Seq<char>)
    ensures
        encode_utf8(s).len() == 0 <==> s.len() == 0,
{
    encode_utf8_decode_utf8(s);
    if encode_utf8(s).len() == 0 {
        assert(encode_utf8(s) =~= Seq::<u8>::empty());
    }
}

/// A string read back unchanged from the field it was written to fits that
/// field: its UTF-8 form holds no zero byte, which would end the text early.
pub proof fn lemma_cstr_text_exact(s: Seq<char>, n: nat)
    requires
        encode_utf8(s).len() <= n,
        cstr_text(padded(encode_utf8(s), n)) == Some(s),
    ensures
        fits_field(s, n),
{
    let b = encode_utf8(s);
    let p = padded(b, n);
    if !no_nul(b) {
        let k = choose|k: int| 0 <= k < b.len() && b[k] == 0;
        lemma_nul_pos(p);
        assert(p[k] == 0);
        let t = until_nul(p);
        assert(t.len() <= k);
        decode_utf8_encode_utf8(t);
        assert(encode_utf8(s) == t);
        assert(false);
    }
}

/// The index of the first zero byte of `b`, or its length.
pub fn nul_position(b: &[u8]) -> (r: usize)
    ensures
        r == nul_pos(b@),
{
    let mut i: usize = 0;
    while i < b.len() && b[i] != 0
        invariant
            i <= b@.len(),
            forall|j: int| 0 <= j < i ==> b@[j] != 0,
        decreases b@.len() - i,
    {
        i = i + 1;
    }
    proof {
        lemma_nul_pos_unique(b@, i as int);
    }
    i
}

/// Whether every byte of `b` is zero.
pub fn is_all_zero(b: &[u8]) -> (r: bool)
    ensures
        r == all_zero(b@),
{
    let mut i: usize = 0;
    while i < b.len()
        invariant
            i <= b@.len(),
            forall|j: int| 0 <= j < i ==> b@[j] == 0,
        decreases b@.len() - i,
    {
        if b[i] != 0 {
            return false;
        }
        i = i + 1;
    }
    true
}

/// The text of a zero-terminated field, or `None` where it is not UTF-8.
pub fn cstr_to_string(b: &[u8]) -> (r: Option<String>)
    ensures
        r is Some <==> cstr_text(b@) is Some,
        r matches Some(s) ==> cstr_text(b@) == Some(s@),
{
    let p = nul_position(b);
    proof {
        lemma_nul_pos(b@);
    }
    let prefix = slice_to_vec(slice_subrange(b, 0, p));
    assert(prefix@ =~= until_nul(b@));
    string_from_utf8(prefix)
}

/// `src` followed by zero bytes, as an array of `N` bytes.
pub fn copy_padded<const N: usize>(src: &[u8]) -> (r: [u8; N])
    requires
        src@.len() <= N,
    ensures
        r@ == padded(src@, N as nat),
{
    let mut out = [0u8; N];
    let mut i: usize = 0;
    while i < src.len()
        invariant
            i <= src@.len() <= N,
            out@.len() == N,
            forall|j: int| 0 <= j < i ==> out@[j] == src@[j],
            forall|j: int| i <= j < N ==> out@[j] == 0,
        decreases src@.len() - i,
    {
        out[i] = src[i];
        i = i + 1;
    }
    assert(out@ =~= padded(src@, N as nat));
    out
}

/// The UTF-8 bytes of `s` in a zero-padded field of `N` bytes, or `None` where
/// they are longer than `N`.
pub fn string_to_field<const N: usize>(s: &String) -> (r: Option<[u8; N]>)
    ensures
        r is Some <==> encode_utf8(s@).len() <= N,
        r matches Some(a) ==> a@ == padded(encode_utf8(s@), N as nat),
{
    let bytes = s.as_str().as_bytes();
    if bytes.len() > N {
        None
    } else {
        Some(copy_padded::<N>(bytes))
    }
}


/// Appends the bytes of `s` to `v`.
pub fn append_bytes(v: &mut Vec<u8>, s: &[u8])
    ensures
        final(v)@ == old(v)@ + s@,
{
    let mut i: usize = 0;
    while i < s.len()
        invariant
            i <= s@.len(),
            v@ == old(v)@ + s@.take(i as int),
        decreases s@.len() - i,
    {
        v.push(s[i]);
        assert(s@.take(i + 1) =~= s@.take(i as int).push(s@[i as int]));
        i = i + 1;
    }
    assert(s@.take(s@.len() as int) =~= s@);
}

/// `b` is the field written for the string `s`: the UTF-8 bytes of `s` at
/// its start, and zero bytes from there to its end.
pub open spec fn field_written(b: Seq<u8>, s: Seq<char>) -> bool {
    let e = encode_utf8(s);
    &&& e.len() <= b.len()
    &&& b.subrange(0, e.len() as int) == e
    &&& forall|i: int| e.len() <= i < b.len() ==> b[i] == 0
}

/// `b` holds the string `s` as zero-terminated text: `b` starts with the
/// UTF-8 bytes of `s`, none of which is zero, and a zero byte follows them
/// unless they fill `b`.
pub open spec fn field_holds_text(b: Seq<u8>, s: Seq<char>) -> bool {
    let e = encode_utf8(s);
    &&& e.len() <= b.len()
    &&& b.subrange(0, e.len() as int) == e
    &&& forall|i: int| 0 <= i < e.len() ==> e[i] != 0
    &&& e.len() < b.len() ==> b[e.len() as int] == 0
}

/// A string padded to a field that holds it is the field written for it.
pub proof fn lemma_padded_is_written(s: Seq<char>, n: nat)
    requires
        encode_utf8(s).len() <= n,
    ensures
        padded(encode_utf8(s), n).len() == n,
        field_written(padded(encode_utf8(s), n), s),
{
    let e = encode_utf8(s);
    let p = padded(e, n);
    assert(p.subrange(0, e.len() as int) =~= e);
    assert forall|i: int| e.len() <= i < p.len() implies p[i] == 0 by {
        assert(p[i] == zeros((n - e.len()) as nat)[i - e.len()]);
    }
}

/// The text read from a field is what the field holds up to its first zero
/// byte.
pub proof fn lemma_cstr_text_holds(b: Seq<u8>)
    ensures
        cstr_text(b) matches Some(s) ==> field_holds_text(b, s),
{
    if let Some(s) = cstr_text(b) {
        let u = until_nul(b);
        lemma_nul_pos(b);
        decode_utf8_encode_utf8(u);
        assert(encode_utf8(s) == u);
        assert(b.subrange(0, u.len() as int) =~= u);
    }
}

} // verus!
