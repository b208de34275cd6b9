//! The round trip between a TCB info and its fixed layout, stated both ways:
//! reading the layout back gives the TCB info exactly when it fits.
use vstd::prelude::*;
use vstd::utf8::encode_utf8;

use super::lists::{
    decode_kept, lemma_decode_kept_exact_converse, lemma_decode_kept_len,
    lemma_first_error_none_each,
};
use super::tcb_info_impl::{
    advisory_id_decode, advisory_id_field, advisory_id_kept, advisory_ids_fit,
    advisory_ids_from_pod, advisory_ids_pod_error, advisory_ids_pod_of, component_fits,
    component_from_pod, component_pod_error, component_pod_is_bare, component_pod_of,
    every_component, has_tdx_data, has_v3_data, lemma_bare_component, lemma_timestamp_nonzero,
    lemma_timestamp_roundtrip, lemma_zero_field, optional_field, optional_fits, tcb_info_fits,
    tcb_info_from_pod, tcb_info_id_from_pod, tcb_info_pod_error, tcb_info_pod_of,
    tcb_info_pod_requires, tcb_info_pod_roundtrip, tcb_level_decode, tcb_level_error,
    tcb_level_fits, tcb_level_from_pod, tcb_level_kept, tcb_level_pod_error, tcb_level_pod_is_empty,
    tcb_level_pod_of, tdx_module_fits, tdx_module_from_pod, tdx_module_identities_from_pod,
    tdx_module_identities_pod_have_data, tdx_module_identity_decode, tdx_module_identity_error,
    tdx_module_identity_fits, tdx_module_identity_from_pod, tdx_module_identity_kept,
    tdx_module_identity_pod_blank, tdx_module_identity_pod_error, tdx_module_identity_pod_is_empty,
    tdx_module_identity_pod_of, tdx_module_pod_blank, tdx_module_pod_error, tdx_module_pod_of,
    tdx_tcb_level_decode, tdx_tcb_level_fits, tdx_tcb_level_from_pod, tdx_tcb_level_kept,
    tdx_tcb_level_pod_error, tdx_tcb_level_pod_is_empty, tdx_tcb_level_pod_of,
};
use super::{
    TcbComponent, TcbInfoPod, TcbLevelPod, TdxModuleIdentityPod, TdxModulePod, TdxTcbLevelPod,
    MAX_ADVISORY_IDS_SIZE, TCB_MAX_LEVEL_SIZE, TDX_MODULE_TCB_MAX_LEVEL_SIZE,
};
use crate::bytes::{
    all_zero, cstr_text, fits_field, lemma_cstr_text_exact, lemma_encode_utf8_empty, nul_pos,
    padded,
};
use crate::trusted::utc_timestamp_in_range;
use crate::types::tcb_info::{
    ComponentView, TcbInfoView, TcbLevelView, TcbView, TdxModuleIdentityView, TdxModuleView,
    TdxTcbLevelView,
};

verus! {

/// The field of an empty string is all zero.
proof fn lemma_empty_string_field(s: Seq<char>, n: nat)
    requires
        s.len() == 0,
    ensures
        padded(encode_utf8(s), n) == padded(seq![], n),
        all_zero(padded(encode_utf8(s), n)),
        nul_pos(padded(encode_utf8(s), n)) == 0,
{
    lemma_encode_utf8_empty(s);
    assert(encode_utf8(s) =~= Seq::<u8>::empty());
    lemma_zero_field(n);
}

/// An optional string read back unchanged from its field fits it.
proof fn lemma_optional_exact(o: Option<Seq<char>>, n: nat)
    requires
        o matches Some(t) ==> encode_utf8(t).len() <= n,
        (if all_zero(optional_field(o, n)) {
            None
        } else {
            cstr_text(optional_field(o, n))
        }) == o,
    ensures
        optional_fits(o, n),
{
    if let Some(t) = o {
        lemma_cstr_text_exact(t, n);
        if t.len() == 0 {
            lemma_empty_string_field(t, n);
        }
    }
}

proof fn lemma_component_exact(c: ComponentView, p: TcbComponent)
    requires
        component_pod_error()(c) is None,
        component_pod_of(p, c),
        component_from_pod()(p) == Ok::<ComponentView, &'static str>(c),
    ensures
        component_fits(c),
{
    lemma_optional_exact(c.category, 16);
    lemma_optional_exact(c.component_type, 64);
}

proof fn lemma_components_exact(cs: Seq<ComponentView>, ps: Seq<TcbComponent>)
    requires
        cs.len() == 16,
        ps.len() == 16,
        forall|i: int| 0 <= i < 16 ==> (#[trigger] component_pod_error()(cs[i])) is None,
        forall|i: int| 0 <= i < 16 ==> component_pod_of(#[trigger] ps[i], cs[i]),
        decode_kept(ps, every_component(), component_from_pod()) == Ok::<
            Seq<ComponentView>,
            &'static str,
        >(cs),
    ensures
        forall|i: int| 0 <= i < 16 ==> component_fits(#[trigger] cs[i]),
{
    lemma_decode_kept_exact_converse(ps, cs, every_component(), component_from_pod());
    assert forall|i: int| 0 <= i < 16 implies component_fits(#[trigger] cs[i]) by {
        assert(every_component()(ps[i]));
        assert(component_pod_error()(cs[i]) is None);
        lemma_component_exact(cs[i], ps[i]);
    }
}

proof fn lemma_advisory_ids_exact(ids: Option<Seq<Seq<char>>>, a: [[u8; 32]; MAX_ADVISORY_IDS_SIZE])
    requires
        advisory_ids_pod_error(ids) is None,
        advisory_ids_pod_of(a, ids),
        advisory_ids_from_pod(a) == Ok::<Option<Seq<Seq<char>>>, &'static str>(ids),
    ensures
        advisory_ids_fit(ids),
{
    if let Some(v) = ids {
        let kept = advisory_id_kept();
        let decode = advisory_id_decode();
        let w = decode_kept(a@, kept, decode)->Ok_0;
        assert(w == v);
        assert forall|i: int| v.len() <= i < a@.len() implies !#[trigger] kept(a@[i]) by {
            assert(a@[i]@ == advisory_id_field(ids, i));
            lemma_zero_field(32);
        }
        lemma_decode_kept_exact_converse(a@, v, kept, decode);
        assert forall|i: int| #![trigger v[i]] 0 <= i < v.len() implies fits_field(v[i], 32)
            && v[i].len() > 0 by {
            assert(kept(a@[i]));
            assert(a@[i]@ == advisory_id_field(ids, i));
            if encode_utf8(v[i]).len() > 32 {
                assert(exists|j: int| 0 <= j < v.len() && #[trigger] encode_utf8(v[j]).len() > 32);
            }
            lemma_cstr_text_exact(v[i], 32);
            if v[i].len() == 0 {
                lemma_empty_string_field(v[i], 32);
            }
        }
    }
}

proof fn lemma_tdx_tcb_level_exact(l: TdxTcbLevelView, p: TdxTcbLevelPod)
    requires
        advisory_ids_pod_error(l.advisory_ids) is None,
        tdx_tcb_level_pod_of(p, l),
        tdx_tcb_level_from_pod(p) == Ok::<TdxTcbLevelView, &'static str>(l),
    ensures
        tdx_tcb_level_fits(l),
{
    lemma_timestamp_roundtrip(l.tcb_date);
    lemma_advisory_ids_exact(l.advisory_ids, p.advisory_ids);
}

proof fn lemma_tdx_module_identity_exact(m: TdxModuleIdentityView, p: TdxModuleIdentityPod)
    requires
        tdx_module_identity_pod_error(m) is None,
        tdx_module_identity_pod_of(p, m),
        tdx_module_identity_from_pod(p) == Ok::<TdxModuleIdentityView, &'static str>(m),
    ensures
        tdx_module_identity_fits(m),
{
    lemma_cstr_text_exact(m.id, 12);
    lemma_cstr_text_exact(m.mrsigner, 96);
    lemma_cstr_text_exact(m.attributes, 16);
    lemma_cstr_text_exact(m.attributes_mask, 16);
    let ls = m.tcb_levels;
    let ps = p.tcb_levels@;
    lemma_first_error_none_each(ls, tdx_tcb_level_pod_error());
    assert forall|i: int| ls.len() <= i < ps.len() implies !#[trigger] tdx_tcb_level_kept()(ps[i]) by {
        assert(tdx_tcb_level_pod_is_empty(ps[i]));
    }
    lemma_decode_kept_exact_converse(ps, ls, tdx_tcb_level_kept(), tdx_tcb_level_decode());
    assert forall|i: int| 0 <= i < ls.len() implies tdx_tcb_level_fits(#[trigger] ls[i])
        && ls[i].tcb_date != 0 by {
        assert(tdx_tcb_level_kept()(ps[i]));
        assert(tdx_tcb_level_pod_of(ps[i], ls[i]));
        assert(tdx_tcb_level_pod_error()(ls[i]) is None);
        lemma_timestamp_nonzero(ls[i].tcb_date);
        lemma_tdx_tcb_level_exact(ls[i], ps[i]);
    }
}

proof fn lemma_tcb_level_exact(l: TcbLevelView, p: TcbLevelPod)
    requires
        l.tcb.wf(),
        tcb_level_pod_error(l) is None,
        tcb_level_pod_of(p, l),
        tcb_level_from_pod(p) == Ok::<TcbLevelView, &'static str>(l),
    ensures
        tcb_level_fits(l),
{
    lemma_timestamp_roundtrip(l.tcb_date);
    match l.tcb {
        TcbView::V2(t) => {
            assert forall|i: int| 0 <= i < 16 implies all_zero(
                (#[trigger] p.sgx_tcb_components@[i]).category@,
            ) && all_zero(p.sgx_tcb_components@[i].component_type@) by {
                lemma_bare_component(p.sgx_tcb_components@[i], t.svns()[i]);
            }
            assert(!has_v3_data(p));
        },
        TcbView::V3 { sgx, pcesvn, tdx } => {
            if !has_v3_data(p) {
                assert(false);
            }
            let k = choose|i: int|
                0 <= i < 16 && (!all_zero(#[trigger] p.sgx_tcb_components@[i].category@) || !all_zero(
                    p.sgx_tcb_components@[i].component_type@,
                ));
            assert(component_pod_of(p.sgx_tcb_components@[k], sgx[k]));
            if sgx[k].category is None && sgx[k].component_type is None {
                lemma_zero_field(16);
                lemma_zero_field(64);
                assert(false);
            }
            let sgx_error = super::lists::first_error(sgx, component_pod_error());
            assert(sgx_error is None);
            lemma_first_error_none_each(sgx, component_pod_error());
            assert forall|i: int| 0 <= i < 16 implies component_pod_of(
                #[trigger] p.sgx_tcb_components@[i],
                sgx[i],
            ) by {}
            lemma_components_exact(sgx, p.sgx_tcb_components@);
            if let Some(t) = tdx {
                if !has_tdx_data(p) {
                    assert(false);
                }
                let j = choose|i: int| 0 <= i < 16 && (#[trigger] p.tdx_tcb_components@[i]).cpusvn != 0;
                assert(component_pod_of(p.tdx_tcb_components@[j], t[j]));
                lemma_first_error_none_each(t, component_pod_error());
                assert forall|i: int| 0 <= i < 16 implies component_pod_of(
                    #[trigger] p.tdx_tcb_components@[i],
                    t[i],
                ) by {}
                lemma_components_exact(t, p.tdx_tcb_components@);
            }
            lemma_advisory_ids_exact(l.advisory_ids, p.advisory_ids);
        },
    }
}

#[verifier::spinoff_prover]
#[verifier::rlimit(30)]
proof fn lemma_tcb_info_exact(m: TcbInfoView, p: TcbInfoPod)
    requires
        tcb_info_pod_requires(m),
        tcb_info_pod_error(m) is None,
        tcb_info_pod_of(p, m),
        tcb_info_from_pod(p) == Ok::<TcbInfoView, &'static str>(m),
    ensures
        tcb_info_fits(m),
{
    lemma_cstr_text_exact(m.pce_id, 4);
    lemma_cstr_text_exact(m.fmspc, 12);
    lemma_timestamp_roundtrip(m.issue_date);
    lemma_timestamp_roundtrip(m.next_update);
    if let Some(id) = m.id {
        assert(tcb_info_id_from_pod(p.id@) == Ok::<Option<Seq<char>>, &'static str>(Some(id)));
        lemma_cstr_text_exact(id, 6);
        if id.len() == 0 {
            lemma_empty_string_field(id, 6);
        }
    }
    if let Some(t) = m.tdx_module {
        if tdx_module_pod_blank(p.tdx_module) {
            assert(false);
        }
        if t.mrsigner.len() == 0 && t.attributes.len() == 0 && t.attributes_mask.len() == 0 {
            lemma_empty_string_field(t.mrsigner, 96);
            lemma_empty_string_field(t.attributes, 16);
            lemma_empty_string_field(t.attributes_mask, 16);
            assert(false);
        }
        assert(tdx_module_pod_error(t) is None);
        lemma_cstr_text_exact(t.mrsigner, 96);
        lemma_cstr_text_exact(t.attributes, 16);
        lemma_cstr_text_exact(t.attributes_mask, 16);
    }
    if let Some(v) = m.tdx_module_identities {
        let ps = p.tdx_module_identities@;
        if !tdx_module_identities_pod_have_data(p.tdx_module_identities) {
            assert(false);
        }
        let w = decode_kept(ps, tdx_module_identity_kept(), tdx_module_identity_decode())->Ok_0;
        assert(w == v);
        assert(v.len() <= TDX_MODULE_TCB_MAX_LEVEL_SIZE);
        assert(super::lists::first_error(v, tdx_module_identity_error()) is None);
        lemma_first_error_none_each(v, tdx_module_identity_error());
        assert forall|i: int| v.len() <= i < ps.len() implies !#[trigger] tdx_module_identity_kept()(
            ps[i],
        ) by {
            assert(tdx_module_identity_pod_is_empty(ps[i]));
            lemma_zero_field(12);
            lemma_zero_field(96);
            lemma_zero_field(16);
        }
        lemma_decode_kept_exact_converse(
            ps,
            v,
            tdx_module_identity_kept(),
            tdx_module_identity_decode(),
        );
        assert forall|i: int| 0 <= i < v.len() implies tdx_module_identity_fits(#[trigger] v[i]) && (
        v[i].id.len() > 0 || v[i].mrsigner.len() > 0 || v[i].attributes.len() > 0
            || v[i].attributes_mask.len() > 0) by {
            assert(tdx_module_identity_kept()(ps[i]));
            assert(tdx_module_identity_pod_of(ps[i], v[i]));
            assert(tdx_module_identity_error()(v[i]) is None);
            lemma_tdx_module_identity_exact(v[i], ps[i]);
            if v[i].id.len() == 0 && v[i].mrsigner.len() == 0 && v[i].attributes.len() == 0
                && v[i].attributes_mask.len() == 0 {
                lemma_empty_string_field(v[i].id, 12);
                lemma_empty_string_field(v[i].mrsigner, 96);
                lemma_empty_string_field(v[i].attributes, 16);
                lemma_empty_string_field(v[i].attributes_mask, 16);
            }
        }
    }
    let ls = m.tcb_levels;
    let ps = p.tcb_levels@;
    assert(ls.len() <= TCB_MAX_LEVEL_SIZE);
    lemma_first_error_none_each(ls, tcb_level_error());
    assert forall|i: int| ls.len() <= i < ps.len() implies !#[trigger] tcb_level_kept()(ps[i]) by {
        assert(tcb_level_pod_is_empty(ps[i]));
    }
    lemma_decode_kept_exact_converse(ps, ls, tcb_level_kept(), tcb_level_decode());
    assert forall|i: int| 0 <= i < ls.len() implies (#[trigger] ls[i]).tcb.wf() && tcb_level_fits(
        ls[i],
    ) && ls[i].tcb_date != 0 by {
        assert(tcb_level_kept()(ps[i]));
        assert(tcb_level_pod_of(ps[i], ls[i]));
        assert(tcb_level_error()(ls[i]) is None);
        lemma_timestamp_nonzero(ls[i].tcb_date);
        lemma_tcb_level_exact(ls[i], ps[i]);
    }
}

/// For a TCB info that the conversion to the fixed layout accepts, reading the
/// layout back gives the same TCB info if and only if the TCB info fits the
/// layout (`tcb_info_fits`). The inputs on which the round trip fails are
/// exactly those with a string that holds a NUL character, an empty optional
/// string or list, a TCB level dated at the epoch, a version 2 TCB level with
/// advisory IDs, a version 3 level without categories or types, or TDX
/// components whose SVNs are all zero, and dates that chrono does not accept.
pub proof fn tcb_info_pod_roundtrip_exact(m: TcbInfoView, p: TcbInfoPod)
    requires
        tcb_info_pod_requires(m),
        tcb_info_pod_error(m) is None,
        tcb_info_pod_of(p, m),
    ensures
        tcb_info_from_pod(p) == Ok::<TcbInfoView, &'static str>(m) <==> tcb_info_fits(m),
{
    if tcb_info_fits(m) {
        tcb_info_pod_roundtrip(m);
    }
    if tcb_info_from_pod(p) == Ok::<TcbInfoView, &'static str>(m) {
        lemma_tcb_info_exact(m, p);
    }
}

} // verus!
