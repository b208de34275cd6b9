//! Lists in the fixed layout: what reading an array of entries gives, and what
//! writing a list of entries refuses.
use vstd::prelude::*;

verus! {

/// One step of reading an array: an entry that `kept` rejects is skipped; a
/// kept entry is decoded and appended, or its error ends the reading.
pub open spec fn decode_kept_next<P, V>(
    acc: Result<Seq<V>, &'static str>,
    p: P,
    kept: spec_fn(P) -> bool,
    decode: spec_fn(P) -> Result<V, &'static str>,
) -> Result<Seq<V>, &'static str> {
    match acc {
        Err(e) => Err(e),
        Ok(v) => if kept(p) {
            match decode(p) {
                Err(e) => Err(e),
                Ok(x) => Ok(v.push(x)),
            }
        } else {
            Ok(v)
        },
    }
}

/// The entries read from the array `ps`, in order, or the error of the first
/// kept entry that cannot be decoded.
pub open spec fn decode_kept<P, V>(
    ps: Seq<P>,
    kept: spec_fn(P) -> bool,
    decode: spec_fn(P) -> Result<V, &'static str>,
) -> Result<Seq<V>, &'static str>
    decreases ps.len(),
{
    if ps.len() == 0 {
        Ok(seq![])
    } else {
        decode_kept_next(decode_kept(ps.drop_last(), kept, decode), ps.last(), kept, decode)
    }
}

pub proof fn lemma_decode_kept_start<P, V>(
    ps: Seq<P>,
    kept: spec_fn(P) -> bool,
    decode: spec_fn(P) -> Result<V, &'static str>,
)
    ensures
        decode_kept(ps.take(0), kept, decode) == Ok::<Seq<V>, &'static str>(seq![]),
{
    assert(ps.take(0).len() == 0);
}

pub proof fn lemma_decode_kept_step<P, V>(
    ps: Seq<P>,
    i: int,
    kept: spec_fn(P) -> bool,
    decode: spec_fn(P) -> Result<V, &'static str>,
)
    requires
        0 <= i < ps.len(),
    ensures
        decode_kept(ps.take(i + 1), kept, decode) == decode_kept_next(
            decode_kept(ps.take(i), kept, decode),
            ps[i],
            kept,
            decode,
        ),
{
    assert(ps.take(i + 1).drop_last() =~= ps.take(i));
    assert(ps.take(i + 1).last() == ps[i]);
}

pub proof fn lemma_decode_kept_whole<P, V>(
    ps: Seq<P>,
    kept: spec_fn(P) -> bool,
    decode: spec_fn(P) -> Result<V, &'static str>,
)
    ensures
        decode_kept(ps.take(ps.len() as int), kept, decode) == decode_kept(ps, kept, decode),
{
    assert(ps.take(ps.len() as int) =~= ps);
}

/// Once a prefix of the array is an error, reading the whole array is that
/// error.
pub proof fn lemma_decode_kept_error_stays<P, V>(
    ps: Seq<P>,
    k: int,
    kept: spec_fn(P) -> bool,
    decode: spec_fn(P) -> Result<V, &'static str>,
    e: &'static str,
)
    requires
        0 <= k <= ps.len(),
        decode_kept(ps.take(k), kept, decode) == Err::<Seq<V>, &'static str>(e),
    ensures
        decode_kept(ps, kept, decode) == Err::<Seq<V>, &'static str>(e),
    decreases ps.len() - k,
{
    if k < ps.len() {
        lemma_decode_kept_step(ps, k, kept, decode);
        lemma_decode_kept_error_stays(ps, k + 1, kept, decode, e);
    } else {
        lemma_decode_kept_whole(ps, kept, decode);
    }
}

/// An array whose first entries are kept and decode to `vs`, and whose other
/// entries are all skipped, reads as `vs`.
pub proof fn lemma_decode_kept_exact<P, V>(
    ps: Seq<P>,
    vs: Seq<V>,
    kept: spec_fn(P) -> bool,
    decode: spec_fn(P) -> Result<V, &'static str>,
)
    requires
        vs.len() <= ps.len(),
        forall|i: int|
            0 <= i < vs.len() ==> #[trigger] kept(ps[i]) && decode(ps[i]) == Ok::<
                V,
                &'static str,
            >(vs[i]),
        forall|i: int| vs.len() <= i < ps.len() ==> !#[trigger] kept(ps[i]),
    ensures
        decode_kept(ps, kept, decode) == Ok::<Seq<V>, &'static str>(vs),
    decreases ps.len(),
{
    if ps.len() > 0 {
        let n = ps.len() - 1;
        let qs = ps.drop_last();
        if vs.len() == ps.len() {
            assert(kept(ps[n]));
            lemma_decode_kept_exact(qs, vs.drop_last(), kept, decode);
            assert(vs.drop_last().push(vs.last()) =~= vs);
        } else {
            assert(!kept(ps[n]));
            lemma_decode_kept_exact(qs, vs, kept, decode);
        }
    } else {
        assert(vs =~= Seq::<V>::empty());
    }
}

/// The error of the first entry of `xs` that has one.
pub open spec fn first_error<T>(xs: Seq<T>, error: spec_fn(T) -> Option<&'static str>) -> Option<
    &'static str,
>
    decreases xs.len(),
{
    if xs.len() == 0 {
        None
    } else {
        match first_error(xs.drop_last(), error) {
            Some(e) => Some(e),
            None => error(xs.last()),
        }
    }
}

pub proof fn lemma_first_error_step<T>(
    xs: Seq<T>,
    i: int,
    error: spec_fn(T) -> Option<&'static str>,
)
    requires
        0 <= i < xs.len(),
    ensures
        first_error(xs.take(i + 1), error) == (match first_error(xs.take(i), error) {
            Some(e) => Some(e),
            None => error(xs[i]),
        }),
{
    assert(xs.take(i + 1).drop_last() =~= xs.take(i));
    assert(xs.take(i + 1).last() == xs[i]);
}

pub proof fn lemma_first_error_start<T>(xs: Seq<T>, error: spec_fn(T) -> Option<&'static str>)
    ensures
        first_error(xs.take(0), error) is None,
{
    assert(xs.take(0).len() == 0);
}

/// Once a prefix has an error, the whole list has that error.
pub proof fn lemma_first_error_stays<T>(
    xs: Seq<T>,
    k: int,
    error: spec_fn(T) -> Option<&'static str>,
    e: &'static str,
)
    requires
        0 <= k <= xs.len(),
        first_error(xs.take(k), error) == Some(e),
    ensures
        first_error(xs, error) == Some(e),
    decreases xs.len() - k,
{
    if k < xs.len() {
        lemma_first_error_step(xs, k, error);
        lemma_first_error_stays(xs, k + 1, error, e);
    } else {
        assert(xs.take(k) =~= xs);
    }
}

/// A list none of whose entries has an error has none.
pub proof fn lemma_first_error_none<T>(xs: Seq<T>, error: spec_fn(T) -> Option<&'static str>)
    requires
        forall|i: int| 0 <= i < xs.len() ==> (#[trigger] error(xs[i])) is None,
    ensures
        first_error(xs, error) is None,
    decreases xs.len(),
{
    if xs.len() > 0 {
        let ys = xs.drop_last();
        assert forall|i: int| 0 <= i < ys.len() implies (#[trigger] error(ys[i])) is None by {
            assert(ys[i] == xs[i]);
        }
        lemma_first_error_none(ys, error);
        assert(error(xs[xs.len() - 1]) is None);
    }
}

pub proof fn lemma_first_error_whole<T>(xs: Seq<T>, error: spec_fn(T) -> Option<&'static str>)
    ensures
        first_error(xs.take(xs.len() as int), error) == first_error(xs, error),
{
    assert(xs.take(xs.len() as int) =~= xs);
}


/// Reading an array gives at most one entry per array entry.
pub proof fn lemma_decode_kept_len<P, V>(
    ps: Seq<P>,
    vs: Seq<V>,
    kept: spec_fn(P) -> bool,
    decode: spec_fn(P) -> Result<V, &'static str>,
)
    requires
        decode_kept(ps, kept, decode) == Ok::<Seq<V>, &'static str>(vs),
    ensures
        vs.len() <= ps.len(),
    decreases ps.len(),
{
    if ps.len() > 0 {
        match decode_kept(ps.drop_last(), kept, decode) {
            Ok(ws) => {
                lemma_decode_kept_len(ps.drop_last(), ws, kept, decode);
            },
            Err(_) => {},
        }
    }
}

/// If reading an array gives `n` entries and no entry from `n` on is kept,
/// then the first `n` entries are all kept and decode, in order, to what was
/// read.
pub proof fn lemma_decode_kept_exact_converse<P, V>(
    ps: Seq<P>,
    vs: Seq<V>,
    kept: spec_fn(P) -> bool,
    decode: spec_fn(P) -> Result<V, &'static str>,
)
    requires
        vs.len() <= ps.len(),
        forall|i: int| vs.len() <= i < ps.len() ==> !#[trigger] kept(ps[i]),
        decode_kept(ps, kept, decode) == Ok::<Seq<V>, &'static str>(vs),
    ensures
        forall|i: int|
            0 <= i < vs.len() ==> #[trigger] kept(ps[i]) && decode(ps[i]) == Ok::<
                V,
                &'static str,
            >(vs[i]),
    decreases ps.len(),
{
    if ps.len() > 0 {
        let qs = ps.drop_last();
        let last = ps.last();
        match decode_kept(qs, kept, decode) {
            Ok(ws) => {
                lemma_decode_kept_len(qs, ws, kept, decode);
                if vs.len() < ps.len() {
                    assert(!kept(ps[ps.len() - 1]));
                    assert forall|i: int| vs.len() <= i < qs.len() implies !#[trigger] kept(
                        qs[i],
                    ) by {
                        assert(qs[i] == ps[i]);
                    }
                    lemma_decode_kept_exact_converse(qs, vs, kept, decode);
                    assert forall|i: int| 0 <= i < vs.len() implies #[trigger] kept(ps[i])
                        && decode(ps[i]) == Ok::<V, &'static str>(vs[i]) by {
                        assert(qs[i] == ps[i]);
                    }
                } else {
                    if !kept(last) {
                        assert(vs == ws);
                    }
                    assert(kept(last));
                    let x = decode(last)->Ok_0;
                    assert(vs == ws.push(x));
                    assert(ws =~= vs.drop_last());
                    lemma_decode_kept_exact_converse(qs, ws, kept, decode);
                    assert forall|i: int| 0 <= i < vs.len() implies #[trigger] kept(ps[i])
                        && decode(ps[i]) == Ok::<V, &'static str>(vs[i]) by {
                        if i < qs.len() {
                            assert(qs[i] == ps[i]);
                            assert(ws[i] == vs[i]);
                        }
                    }
                }
            },
            Err(_) => {},
        }
    }
}

/// A list with no error has no entry with one.
pub proof fn lemma_first_error_none_each<T>(xs: Seq<T>, error: spec_fn(T) -> Option<&'static str>)
    requires
        first_error(xs, error) is None,
    ensures
        forall|i: int| 0 <= i < xs.len() ==> (#[trigger] error(xs[i])) is None,
    decreases xs.len(),
{
    if xs.len() > 0 {
        let ys = xs.drop_last();
        lemma_first_error_none_each(ys, error);
        assert forall|i: int| 0 <= i < xs.len() implies (#[trigger] error(xs[i])) is None by {
            if i < ys.len() {
                assert(ys[i] == xs[i]);
            }
        }
    }
}

/// Reading an array whose entries are all kept decodes every entry, in order.
pub proof fn lemma_decode_kept_all<P, V>(
    ps: Seq<P>,
    vs: Seq<V>,
    kept: spec_fn(P) -> bool,
    decode: spec_fn(P) -> Result<V, &'static str>,
)
    requires
        decode_kept(ps, kept, decode) == Ok::<Seq<V>, &'static str>(vs),
        forall|i: int| 0 <= i < ps.len() ==> #[trigger] kept(ps[i]),
    ensures
        vs.len() == ps.len(),
        forall|i: int|
            0 <= i < vs.len() ==> #[trigger] decode(ps[i]) == Ok::<V, &'static str>(vs[i]),
    decreases ps.len(),
{
    if ps.len() > 0 {
        let qs = ps.drop_last();
        assert forall|i: int| 0 <= i < qs.len() implies #[trigger] kept(qs[i]) by {
            assert(qs[i] == ps[i]);
        }
        assert(kept(ps[ps.len() - 1]));
        match decode_kept(qs, kept, decode) {
            Ok(ws) => {
                lemma_decode_kept_all(qs, ws, kept, decode);
                assert(vs == ws.push(decode(ps.last())->Ok_0));
                assert forall|i: int| 0 <= i < vs.len() implies #[trigger] decode(ps[i]) == Ok::<
                    V,
                    &'static str,
                >(vs[i]) by {
                    if i < ws.len() {
                        assert(qs[i] == ps[i]);
                    }
                }
            },
            Err(_) => {},
        }
    } else {
        assert(vs.len() == 0);
    }
}

} // verus!
