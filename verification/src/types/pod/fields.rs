//! What each field of the fixed layout holds: every string field carries the
//! same-named string of the TCB information, every number the same-named
//! number, in both directions of the conversion.
use vstd::prelude::*;
use vstd::utf8::*;

use super::lists::{
    decode_kept, lemma_decode_kept_all, lemma_decode_kept_len, lemma_first_error_none_each,
};
use super::tcb_info_impl::{
    advisory_ids_pod_of, component_from_pod, component_pod_error, component_pod_is_bare,
    component_pod_of, every_component, has_tdx_data, has_v3_data, tcb_level_from_pod,
    tcb_info_from_pod, tcb_info_pod_error, tcb_info_pod_of, tcb_info_pod_requires,
    tcb_level_decode, tcb_level_kept, tcb_level_pod_error, tcb_level_pod_of,
    tdx_module_identities_pod_have_data, tdx_module_identity_decode, tdx_module_pod_blank,
    tdx_module_identity_pod_blank, tdx_module_identity_error,
    tdx_module_identity_kept,
    advisory_id_field, advisory_ids_pod_error, tdx_module_from_pod, tdx_module_identity_from_pod,
    tdx_module_identity_pod_error, tdx_module_identity_pod_of, tdx_module_pod_error,
    tdx_module_pod_of, tdx_tcb_level_from_pod, tdx_tcb_level_pod_of,
};
use super::{TcbComponent, TcbInfoPod, TCB_MAX_LEVEL_SIZE, TDX_MODULE_TCB_MAX_LEVEL_SIZE, TcbLevelPod, TdxModuleIdentityPod, TdxModulePod, TdxTcbLevelPod, MAX_ADVISORY_IDS_SIZE};
use crate::bytes::{
    all_zero, cstr_text, field_holds_text, field_written, lemma_cstr_text_holds,
    lemma_nul_pos, lemma_padded_is_written, padded,
};
use crate::types::tcb_info::{ComponentView, TcbInfoVersion, TcbInfoView, TcbLevelView, TcbStatus, TcbView, TdxModuleIdentityView, TdxModuleView, TdxTcbLevelView};

verus! {

/// The code of each TCB status in the fixed layout.
pub open spec fn status_code_table(s: TcbStatus) -> u8 {
    match s {
        TcbStatus::UpToDate => 0,
        TcbStatus::SWHardeningNeeded => 1,
        TcbStatus::ConfigurationAndSWHardeningNeeded => 2,
        TcbStatus::ConfigurationNeeded => 3,
        TcbStatus::OutOfDate => 4,
        TcbStatus::OutOfDateConfigurationNeeded => 5,
        TcbStatus::Revoked => 6,
    }
}

/// Each TCB status is written as its own code.
pub proof fn tcb_status_codes(s: TcbStatus)
    ensures
        s.spec_code() == status_code_table(s),
{
}

/// Writing a TDX module puts each string in the field of the same name.
pub proof fn tdx_module_layout_fields(m: TdxModuleView, p: TdxModulePod)
    requires
        tdx_module_pod_error(m) is None,
        tdx_module_pod_of(p, m),
    ensures
        field_written(p.mrsigner_hex@, m.mrsigner),
        field_written(p.attributes_hex@, m.attributes),
        field_written(p.attributes_mask_hex@, m.attributes_mask),
{
    lemma_padded_is_written(m.mrsigner, 96);
    lemma_padded_is_written(m.attributes, 16);
    lemma_padded_is_written(m.attributes_mask, 16);
}

/// Reading a TDX module takes each string from the field of the same name.
pub proof fn tdx_module_read_fields(p: TdxModulePod, m: TdxModuleView)
    requires
        tdx_module_from_pod(p) == Ok::<TdxModuleView, &'static str>(m),
    ensures
        field_holds_text(p.mrsigner_hex@, m.mrsigner),
        field_holds_text(p.attributes_hex@, m.attributes),
        field_holds_text(p.attributes_mask_hex@, m.attributes_mask),
{
    lemma_cstr_text_holds(p.mrsigner_hex@);
    lemma_cstr_text_holds(p.attributes_hex@);
    lemma_cstr_text_holds(p.attributes_mask_hex@);
}

/// Writing a TDX TCB level puts the SVN, the status code and the date in
/// their fields, and advisory ID `j` in entry `j`, the entries past the last
/// ID being all zero.
pub proof fn tdx_tcb_level_layout_fields(l: TdxTcbLevelView, p: TdxTcbLevelPod)
    requires
        advisory_ids_pod_error(l.advisory_ids) is None,
        tdx_tcb_level_pod_of(p, l),
    ensures
        p.tcb_isvsvn == l.isvsvn,
        p.tcb_status == status_code_table(l.tcb_status),
        p.tcb_date == l.tcb_date as u64,
        advisory_ids_written(p.advisory_ids, l.advisory_ids),
{
    lemma_advisory_ids_written(p.advisory_ids, l.advisory_ids);
}

proof fn lemma_empty_written()
    ensures
        encode_utf8(Seq::<char>::empty()) == Seq::<u8>::empty(),
{
    encode_utf8_decode_utf8(Seq::<char>::empty());
    crate::bytes::lemma_encode_utf8_empty(Seq::<char>::empty());
}

/// Reading a TDX TCB level takes the SVN, the status and the date from their
/// fields.
pub proof fn tdx_tcb_level_read_fields(p: TdxTcbLevelPod, l: TdxTcbLevelView)
    requires
        tdx_tcb_level_from_pod(p) == Ok::<TdxTcbLevelView, &'static str>(l),
    ensures
        l.isvsvn == p.tcb_isvsvn,
        status_code_table(l.tcb_status) == p.tcb_status,
        l.tcb_date == p.tcb_date as i64,
{
}

/// Writing a TDX module identity puts each string in the field of the same
/// name, and TCB level `i` in entry `i` (SVN, status code and date), the
/// entries past the last level being zero.
pub proof fn tdx_module_identity_layout_fields(m: TdxModuleIdentityView, p: TdxModuleIdentityPod)
    requires
        tdx_module_identity_pod_error(m) is None,
        tdx_module_identity_pod_of(p, m),
    ensures
        field_written(p.id@, m.id),
        field_written(p.mrsigner_hex@, m.mrsigner),
        field_written(p.attributes_hex@, m.attributes),
        field_written(p.attributes_mask_hex@, m.attributes_mask),
        forall|i: int|
            #![trigger p.tcb_levels@[i]]
            0 <= i < m.tcb_levels.len() ==> p.tcb_levels@[i].tcb_isvsvn == m.tcb_levels[i].isvsvn
                && p.tcb_levels@[i].tcb_status == status_code_table(m.tcb_levels[i].tcb_status)
                && p.tcb_levels@[i].tcb_date == m.tcb_levels[i].tcb_date as u64,
        forall|i: int|
            #![trigger p.tcb_levels@[i]]
            m.tcb_levels.len() <= i < 4 ==> p.tcb_levels@[i].tcb_isvsvn == 0
                && p.tcb_levels@[i].tcb_status == 0 && p.tcb_levels@[i].tcb_date == 0,
{
    lemma_padded_is_written(m.id, 12);
    lemma_padded_is_written(m.mrsigner, 96);
    lemma_padded_is_written(m.attributes, 16);
    lemma_padded_is_written(m.attributes_mask, 16);
}

/// Reading a TDX module identity takes each string from the field of the
/// same name.
pub proof fn tdx_module_identity_read_fields(p: TdxModuleIdentityPod, m: TdxModuleIdentityView)
    requires
        tdx_module_identity_from_pod(p) == Ok::<TdxModuleIdentityView, &'static str>(m),
    ensures
        field_holds_text(p.id@, m.id),
        field_holds_text(p.mrsigner_hex@, m.mrsigner),
        field_holds_text(p.attributes_hex@, m.attributes),
        field_holds_text(p.attributes_mask_hex@, m.attributes_mask),
{
    lemma_cstr_text_holds(p.id@);
    lemma_cstr_text_holds(p.mrsigner_hex@);
    lemma_cstr_text_holds(p.attributes_hex@);
    lemma_cstr_text_holds(p.attributes_mask_hex@);
}

/// The field of an optional string: the string written, or all zero where
/// there is none.
pub open spec fn optional_text_written(b: Seq<u8>, o: Option<Seq<char>>) -> bool {
    match o {
        Some(t) => field_written(b, t),
        None => field_written(b, Seq::<char>::empty()),
    }
}

/// An optional string read from a field: none where the field is all zero,
/// else the text it holds.
pub open spec fn optional_text_read(b: Seq<u8>, o: Option<Seq<char>>) -> bool {
    match o {
        Some(t) => field_holds_text(b, t) && exists|k: int| 0 <= k < b.len() && b[k] != 0,
        None => forall|k: int| 0 <= k < b.len() ==> b[k] == 0,
    }
}

/// The layout of a component: its SVN, category and type in their fields.
pub open spec fn component_written(p: TcbComponent, c: ComponentView) -> bool {
    &&& p.cpusvn == c.svn
    &&& optional_text_written(p.category@, c.category)
    &&& optional_text_written(p.component_type@, c.component_type)
}

/// A component read from its layout: SVN, category and type from their
/// fields.
pub open spec fn component_read(p: TcbComponent, c: ComponentView) -> bool {
    &&& c.svn == p.cpusvn
    &&& optional_text_read(p.category@, c.category)
    &&& optional_text_read(p.component_type@, c.component_type)
}

/// The layout of the advisory IDs `ids`: ID `j` in entry `j`, the entries
/// past the last ID all zero.
pub open spec fn advisory_ids_written(
    a: [[u8; 32]; MAX_ADVISORY_IDS_SIZE],
    ids: Option<Seq<Seq<char>>>,
) -> bool {
    forall|j: int|
        #![trigger a@[j]]
        0 <= j < MAX_ADVISORY_IDS_SIZE ==> match ids {
            Some(v) => if j < v.len() {
                field_written(a@[j]@, v[j])
            } else {
                field_written(a@[j]@, Seq::<char>::empty())
            },
            None => field_written(a@[j]@, Seq::<char>::empty()),
        }
}

proof fn lemma_empty_padded(n: nat)
    ensures
        field_written(padded(seq![], n), Seq::<char>::empty()),
{
    lemma_empty_written();
    lemma_padded_is_written(Seq::<char>::empty(), n);
    assert(padded(encode_utf8(Seq::<char>::empty()), n) =~= padded(seq![], n));
}

proof fn lemma_advisory_ids_written(a: [[u8; 32]; MAX_ADVISORY_IDS_SIZE], ids: Option<Seq<Seq<char>>>)
    requires
        advisory_ids_pod_error(ids) is None,
        advisory_ids_pod_of(a, ids),
    ensures
        advisory_ids_written(a, ids),
{
    lemma_empty_padded(32);
    assert forall|j: int| #![trigger a@[j]] 0 <= j < MAX_ADVISORY_IDS_SIZE implies match ids {
        Some(v) => if j < v.len() {
            field_written(a@[j]@, v[j])
        } else {
            field_written(a@[j]@, Seq::<char>::empty())
        },
        None => field_written(a@[j]@, Seq::<char>::empty()),
    } by {
        assert(a@[j]@ == advisory_id_field(ids, j));
        if let Some(v) = ids {
            if j < v.len() {
                if encode_utf8(v[j]).len() > 32 {
                    assert(exists|i: int| 0 <= i < v.len() && #[trigger] encode_utf8(v[i]).len() > 32);
                }
                lemma_padded_is_written(v[j], 32);
            }
        }
    }
}

proof fn lemma_component_written(p: TcbComponent, c: ComponentView)
    requires
        component_pod_error()(c) is None,
        component_pod_of(p, c),
    ensures
        component_written(p, c),
{
    lemma_empty_padded(16);
    lemma_empty_padded(64);
    if let Some(t) = c.category {
        lemma_padded_is_written(t, 16);
    }
    if let Some(t) = c.component_type {
        lemma_padded_is_written(t, 64);
    }
}

proof fn lemma_bare_written(p: TcbComponent, svn: u8)
    requires
        component_pod_is_bare(p, svn),
    ensures
        component_written(p, ComponentView { svn, category: None, component_type: None }),
{
    lemma_empty_padded(16);
    lemma_empty_padded(64);
}

proof fn lemma_optional_read(b: Seq<u8>, o: Option<Seq<char>>)
    requires
        o == (if all_zero(b) {
            None
        } else {
            cstr_text(b)
        }),
        !all_zero(b) ==> cstr_text(b) is Some,
    ensures
        optional_text_read(b, o),
{
    lemma_cstr_text_holds(b);
    if !all_zero(b) {
        let k = choose|k: int| 0 <= k < b.len() && b[k] != 0;
        assert(0 <= k < b.len() && b[k] != 0);
    }
}

proof fn lemma_component_read(p: TcbComponent, c: ComponentView)
    requires
        component_from_pod()(p) == Ok::<ComponentView, &'static str>(c),
    ensures
        component_read(p, c),
{
    lemma_optional_read(p.category@, c.category);
    lemma_optional_read(p.component_type@, c.component_type);
}

/// Writing a platform TCB level puts the status code, the PCE SVN and the
/// date in their fields, the SGX and TDX components in entries of the same
/// index (a version 2 TCB: its sixteen SVNs, in order, with no category or
/// type, and no TDX components), and the advisory IDs in order.
pub proof fn tcb_level_layout_fields(l: TcbLevelView, p: TcbLevelPod)
    requires
        l.tcb.wf(),
        tcb_level_pod_error(l) is None,
        tcb_level_pod_of(p, l),
    ensures
        p.tcb_status == status_code_table(l.tcb_status),
        p.tcb_date == l.tcb_date as u64,
        match l.tcb {
            TcbView::V2(t) => {
                &&& p.pce_svn == t.pcesvn
                &&& p.sgx_tcb_components@[0].cpusvn == t.sgxtcbcomp01svn
                &&& p.sgx_tcb_components@[1].cpusvn == t.sgxtcbcomp02svn
                &&& p.sgx_tcb_components@[2].cpusvn == t.sgxtcbcomp03svn
                &&& p.sgx_tcb_components@[3].cpusvn == t.sgxtcbcomp04svn
                &&& p.sgx_tcb_components@[4].cpusvn == t.sgxtcbcomp05svn
                &&& p.sgx_tcb_components@[5].cpusvn == t.sgxtcbcomp06svn
                &&& p.sgx_tcb_components@[6].cpusvn == t.sgxtcbcomp07svn
                &&& p.sgx_tcb_components@[7].cpusvn == t.sgxtcbcomp08svn
                &&& p.sgx_tcb_components@[8].cpusvn == t.sgxtcbcomp09svn
                &&& p.sgx_tcb_components@[9].cpusvn == t.sgxtcbcomp10svn
                &&& p.sgx_tcb_components@[10].cpusvn == t.sgxtcbcomp11svn
                &&& p.sgx_tcb_components@[11].cpusvn == t.sgxtcbcomp12svn
                &&& p.sgx_tcb_components@[12].cpusvn == t.sgxtcbcomp13svn
                &&& p.sgx_tcb_components@[13].cpusvn == t.sgxtcbcomp14svn
                &&& p.sgx_tcb_components@[14].cpusvn == t.sgxtcbcomp15svn
                &&& p.sgx_tcb_components@[15].cpusvn == t.sgxtcbcomp16svn
                &&& forall|i: int|
                    #![trigger p.sgx_tcb_components@[i]]
                    0 <= i < 16 ==> component_written(
                        p.sgx_tcb_components@[i],
                        ComponentView {
                            svn: p.sgx_tcb_components@[i].cpusvn,
                            category: None,
                            component_type: None,
                        },
                    )
                &&& forall|i: int|
                    #![trigger p.tdx_tcb_components@[i]]
                    0 <= i < 16 ==> component_written(
                        p.tdx_tcb_components@[i],
                        ComponentView { svn: 0, category: None, component_type: None },
                    )
            },
            TcbView::V3 { sgx, pcesvn, tdx } => {
                &&& p.pce_svn == pcesvn
                &&& forall|i: int|
                    #![trigger p.sgx_tcb_components@[i]]
                    0 <= i < 16 ==> component_written(p.sgx_tcb_components@[i], sgx[i])
                &&& forall|i: int|
                    #![trigger p.tdx_tcb_components@[i]]
                    0 <= i < 16 ==> component_written(
                        p.tdx_tcb_components@[i],
                        match tdx {
                            Some(t) => t[i],
                            None => ComponentView { svn: 0, category: None, component_type: None },
                        },
                    )
            },
        },
        advisory_ids_written(p.advisory_ids, l.advisory_ids),
{
    lemma_advisory_ids_written(p.advisory_ids, l.advisory_ids);
    match l.tcb {
        TcbView::V2(t) => {
            assert(component_pod_is_bare(p.sgx_tcb_components@[0], t.svns()[0]));
            assert(component_pod_is_bare(p.sgx_tcb_components@[1], t.svns()[1]));
            assert(component_pod_is_bare(p.sgx_tcb_components@[2], t.svns()[2]));
            assert(component_pod_is_bare(p.sgx_tcb_components@[3], t.svns()[3]));
            assert(component_pod_is_bare(p.sgx_tcb_components@[4], t.svns()[4]));
            assert(component_pod_is_bare(p.sgx_tcb_components@[5], t.svns()[5]));
            assert(component_pod_is_bare(p.sgx_tcb_components@[6], t.svns()[6]));
            assert(component_pod_is_bare(p.sgx_tcb_components@[7], t.svns()[7]));
            assert(component_pod_is_bare(p.sgx_tcb_components@[8], t.svns()[8]));
            assert(component_pod_is_bare(p.sgx_tcb_components@[9], t.svns()[9]));
            assert(component_pod_is_bare(p.sgx_tcb_components@[10], t.svns()[10]));
            assert(component_pod_is_bare(p.sgx_tcb_components@[11], t.svns()[11]));
            assert(component_pod_is_bare(p.sgx_tcb_components@[12], t.svns()[12]));
            assert(component_pod_is_bare(p.sgx_tcb_components@[13], t.svns()[13]));
            assert(component_pod_is_bare(p.sgx_tcb_components@[14], t.svns()[14]));
            assert(component_pod_is_bare(p.sgx_tcb_components@[15], t.svns()[15]));
            assert forall|i: int| #![trigger p.sgx_tcb_components@[i]] 0 <= i < 16 implies component_written(
                p.sgx_tcb_components@[i],
                ComponentView {
                    svn: p.sgx_tcb_components@[i].cpusvn,
                    category: None,
                    component_type: None,
                },
            ) by {
                lemma_bare_written(p.sgx_tcb_components@[i], t.svns()[i]);
            }
            assert forall|i: int| #![trigger p.tdx_tcb_components@[i]] 0 <= i < 16 implies component_written(
                p.tdx_tcb_components@[i],
                ComponentView { svn: 0, category: None, component_type: None },
            ) by {
                lemma_bare_written(p.tdx_tcb_components@[i], 0);
            }
        },
        TcbView::V3 { sgx, pcesvn, tdx } => {
            lemma_first_error_none_each(sgx, component_pod_error());
            assert forall|i: int| #![trigger p.sgx_tcb_components@[i]] 0 <= i < 16 implies component_written(
                p.sgx_tcb_components@[i],
                sgx[i],
            ) by {
                lemma_component_written(p.sgx_tcb_components@[i], sgx[i]);
            }
            if let Some(t) = tdx {
                lemma_first_error_none_each(t, component_pod_error());
            }
            assert forall|i: int| #![trigger p.tdx_tcb_components@[i]] 0 <= i < 16 implies component_written(
                p.tdx_tcb_components@[i],
                match tdx {
                    Some(t) => t[i],
                    None => ComponentView { svn: 0, category: None, component_type: None },
                },
            ) by {
                match tdx {
                    Some(t) => lemma_component_written(p.tdx_tcb_components@[i], t[i]),
                    None => lemma_bare_written(p.tdx_tcb_components@[i], 0),
                }
            }
        },
    }
}

/// Reading a platform TCB level takes the status, the date and the PCE SVN
/// from their fields; a version 2 TCB takes its sixteen SVNs from the SGX
/// components in order and has no advisory IDs; a version 3 TCB reads all
/// sixteen SGX components, and, where it has TDX components, all sixteen of
/// them, each from the entry of the same index.
pub proof fn tcb_level_read_fields(p: TcbLevelPod, l: TcbLevelView)
    requires
        tcb_level_from_pod(p) == Ok::<TcbLevelView, &'static str>(l),
    ensures
        status_code_table(l.tcb_status) == p.tcb_status,
        l.tcb_date == p.tcb_date as i64,
        match l.tcb {
            TcbView::V2(t) => {
                &&& t.pcesvn == p.pce_svn
                &&& t.sgxtcbcomp01svn == p.sgx_tcb_components@[0].cpusvn
                &&& t.sgxtcbcomp02svn == p.sgx_tcb_components@[1].cpusvn
                &&& t.sgxtcbcomp03svn == p.sgx_tcb_components@[2].cpusvn
                &&& t.sgxtcbcomp04svn == p.sgx_tcb_components@[3].cpusvn
                &&& t.sgxtcbcomp05svn == p.sgx_tcb_components@[4].cpusvn
                &&& t.sgxtcbcomp06svn == p.sgx_tcb_components@[5].cpusvn
                &&& t.sgxtcbcomp07svn == p.sgx_tcb_components@[6].cpusvn
                &&& t.sgxtcbcomp08svn == p.sgx_tcb_components@[7].cpusvn
                &&& t.sgxtcbcomp09svn == p.sgx_tcb_components@[8].cpusvn
                &&& t.sgxtcbcomp10svn == p.sgx_tcb_components@[9].cpusvn
                &&& t.sgxtcbcomp11svn == p.sgx_tcb_components@[10].cpusvn
                &&& t.sgxtcbcomp12svn == p.sgx_tcb_components@[11].cpusvn
                &&& t.sgxtcbcomp13svn == p.sgx_tcb_components@[12].cpusvn
                &&& t.sgxtcbcomp14svn == p.sgx_tcb_components@[13].cpusvn
                &&& t.sgxtcbcomp15svn == p.sgx_tcb_components@[14].cpusvn
                &&& t.sgxtcbcomp16svn == p.sgx_tcb_components@[15].cpusvn
                &&& l.advisory_ids is None
            },
            TcbView::V3 { sgx, pcesvn, tdx } => {
                &&& pcesvn == p.pce_svn
                &&& sgx.len() == 16
                &&& forall|i: int|
                    #![trigger p.sgx_tcb_components@[i]]
                    0 <= i < 16 ==> component_read(p.sgx_tcb_components@[i], sgx[i])
                &&& tdx matches Some(t) ==> {
                    &&& t.len() == 16
                    &&& forall|i: int|
                        #![trigger p.tdx_tcb_components@[i]]
                        0 <= i < 16 ==> component_read(p.tdx_tcb_components@[i], t[i])
                }
            },
        },
{
    if has_v3_data(p) {
        let sgx = decode_kept(p.sgx_tcb_components@, every_component(), component_from_pod())->Ok_0;
        lemma_decode_kept_all(p.sgx_tcb_components@, sgx, every_component(), component_from_pod());
        assert forall|i: int| #![trigger p.sgx_tcb_components@[i]] 0 <= i < 16 implies component_read(
            p.sgx_tcb_components@[i],
            sgx[i],
        ) by {
            lemma_component_read(p.sgx_tcb_components@[i], sgx[i]);
        }
        if has_tdx_data(p) {
            let t = decode_kept(p.tdx_tcb_components@, every_component(), component_from_pod())->Ok_0;
            lemma_decode_kept_all(p.tdx_tcb_components@, t, every_component(), component_from_pod());
            assert forall|i: int| #![trigger p.tdx_tcb_components@[i]] 0 <= i < 16 implies component_read(
                p.tdx_tcb_components@[i],
                t[i],
            ) by {
                lemma_component_read(p.tdx_tcb_components@[i], t[i]);
            }
        }
    }
}

/// The code of each version of TCB information in the fixed layout.
pub open spec fn version_number_table(v: TcbInfoVersion) -> u32 {
    match v {
        TcbInfoVersion::V2 => 2,
        TcbInfoVersion::V3 => 3,
    }
}

/// Writing TCB information puts each string and number in the field of the
/// same name: PCE ID, ID (all zero where there is none), FMSPC, TCB type,
/// version, issue and next-update dates, evaluation data number; the TDX
/// module's strings in the module's fields (all zero where there is no
/// module); identity `i`'s strings in entry `i` of the identities, the
/// entries past the last being all zero; and TCB level `i` in entry `i` of
/// the levels, the entries past the last being dated zero.
pub proof fn tcb_info_layout_fields(m: TcbInfoView, p: TcbInfoPod)
    requires
        tcb_info_pod_requires(m),
        tcb_info_pod_error(m) is None,
        tcb_info_pod_of(p, m),
    ensures
        field_written(p.pceid_hex@, m.pce_id),
        optional_text_written(p.id@, m.id),
        field_written(p.fmspc_hex@, m.fmspc),
        p.tcb_type == m.tcb_type,
        p.version == version_number_table(m.version),
        p.issued_timestamp == m.issue_date as u64,
        p.next_update_timestamp == m.next_update as u64,
        p.tcb_evaluation_data_number == m.tcb_evaluation_data_number,
        match m.tdx_module {
            Some(t) => {
                &&& field_written(p.tdx_module.mrsigner_hex@, t.mrsigner)
                &&& field_written(p.tdx_module.attributes_hex@, t.attributes)
                &&& field_written(p.tdx_module.attributes_mask_hex@, t.attributes_mask)
            },
            None => {
                &&& field_written(p.tdx_module.mrsigner_hex@, Seq::<char>::empty())
                &&& field_written(p.tdx_module.attributes_hex@, Seq::<char>::empty())
                &&& field_written(p.tdx_module.attributes_mask_hex@, Seq::<char>::empty())
            },
        },
        forall|i: int|
            #![trigger p.tdx_module_identities@[i]]
            0 <= i < TDX_MODULE_TCB_MAX_LEVEL_SIZE ==> if m.tdx_module_identities matches Some(v)
                && i < v.len() {
                let e = m.tdx_module_identities->0[i];
                &&& field_written(p.tdx_module_identities@[i].id@, e.id)
                &&& field_written(p.tdx_module_identities@[i].mrsigner_hex@, e.mrsigner)
                &&& field_written(p.tdx_module_identities@[i].attributes_hex@, e.attributes)
                &&& field_written(
                    p.tdx_module_identities@[i].attributes_mask_hex@,
                    e.attributes_mask,
                )
            } else {
                &&& field_written(p.tdx_module_identities@[i].id@, Seq::<char>::empty())
                &&& field_written(p.tdx_module_identities@[i].mrsigner_hex@, Seq::<char>::empty())
                &&& field_written(p.tdx_module_identities@[i].attributes_hex@, Seq::<char>::empty())
                &&& field_written(
                    p.tdx_module_identities@[i].attributes_mask_hex@,
                    Seq::<char>::empty(),
                )
            },
        forall|i: int|
            #![trigger p.tcb_levels@[i]]
            0 <= i < TCB_MAX_LEVEL_SIZE ==> if i < m.tcb_levels.len() {
                &&& p.tcb_levels@[i].tcb_date == m.tcb_levels[i].tcb_date as u64
                &&& p.tcb_levels@[i].tcb_status == status_code_table(m.tcb_levels[i].tcb_status)
                &&& p.tcb_levels@[i].pce_svn == m.tcb_levels[i].tcb.pcesvn()
            } else {
                &&& p.tcb_levels@[i].tcb_date == 0
                &&& p.tcb_levels@[i].tcb_status == 0
                &&& p.tcb_levels@[i].pce_svn == 0
            },
{
    lemma_empty_padded(96);
    lemma_empty_padded(16);
    lemma_empty_padded(12);
    lemma_padded_is_written(m.pce_id, 4);
    lemma_padded_is_written(m.fmspc, 12);
    match m.id {
        Some(t) => lemma_padded_is_written(t, 6),
        None => lemma_empty_padded(6),
    }
    if let Some(t) = m.tdx_module {
        tdx_module_layout_fields(t, p.tdx_module);
    }
    if let Some(v) = m.tdx_module_identities {
        lemma_first_error_none_each(v, tdx_module_identity_error());
    }
    assert forall|i: int| #![trigger p.tdx_module_identities@[i]] 0 <= i
        < TDX_MODULE_TCB_MAX_LEVEL_SIZE implies if m.tdx_module_identities matches Some(v) && i
        < v.len() {
        let e = m.tdx_module_identities->0[i];
        &&& field_written(p.tdx_module_identities@[i].id@, e.id)
        &&& field_written(p.tdx_module_identities@[i].mrsigner_hex@, e.mrsigner)
        &&& field_written(p.tdx_module_identities@[i].attributes_hex@, e.attributes)
        &&& field_written(p.tdx_module_identities@[i].attributes_mask_hex@, e.attributes_mask)
    } else {
        &&& field_written(p.tdx_module_identities@[i].id@, Seq::<char>::empty())
        &&& field_written(p.tdx_module_identities@[i].mrsigner_hex@, Seq::<char>::empty())
        &&& field_written(p.tdx_module_identities@[i].attributes_hex@, Seq::<char>::empty())
        &&& field_written(p.tdx_module_identities@[i].attributes_mask_hex@, Seq::<char>::empty())
    } by {
        if let Some(v) = m.tdx_module_identities {
            if i < v.len() {
                assert(tdx_module_identity_error()(v[i]) is None);
                tdx_module_identity_layout_fields(v[i], p.tdx_module_identities@[i]);
            }
        }
    }
}

/// Reading TCB information takes each string and number from the field of
/// the same name: PCE ID, ID (none where its first byte is zero), FMSPC, TCB
/// type, version, dates and evaluation data number; the TDX module's strings
/// from the module's fields (no module where they are all zero); and at most
/// as many identities and levels as the layout has entries.
pub proof fn tcb_info_read_fields(p: TcbInfoPod, m: TcbInfoView)
    requires
        tcb_info_from_pod(p) == Ok::<TcbInfoView, &'static str>(m),
    ensures
        field_holds_text(p.pceid_hex@, m.pce_id),
        match m.id {
            Some(s) => field_holds_text(p.id@, s) && p.id@[0] != 0,
            None => p.id@[0] == 0,
        },
        field_holds_text(p.fmspc_hex@, m.fmspc),
        m.tcb_type == p.tcb_type,
        version_number_table(m.version) == p.version,
        m.issue_date == p.issued_timestamp as i64,
        m.next_update == p.next_update_timestamp as i64,
        m.tcb_evaluation_data_number == p.tcb_evaluation_data_number,
        match m.tdx_module {
            Some(t) => {
                &&& field_holds_text(p.tdx_module.mrsigner_hex@, t.mrsigner)
                &&& field_holds_text(p.tdx_module.attributes_hex@, t.attributes)
                &&& field_holds_text(p.tdx_module.attributes_mask_hex@, t.attributes_mask)
            },
            None => {
                &&& forall|k: int| 0 <= k < 96 ==> p.tdx_module.mrsigner_hex@[k] == 0
                &&& forall|k: int| 0 <= k < 16 ==> p.tdx_module.attributes_hex@[k] == 0
                &&& forall|k: int| 0 <= k < 16 ==> p.tdx_module.attributes_mask_hex@[k] == 0
            },
        },
        m.tdx_module_identities matches Some(v) ==> 0 < v.len() <= TDX_MODULE_TCB_MAX_LEVEL_SIZE,
        m.tcb_levels.len() <= TCB_MAX_LEVEL_SIZE,
{
    lemma_cstr_text_holds(p.pceid_hex@);
    lemma_cstr_text_holds(p.fmspc_hex@);
    lemma_cstr_text_holds(p.id@);
    lemma_nul_pos(p.id@);
    if let Some(t) = m.tdx_module {
        tdx_module_read_fields(p.tdx_module, t);
    }
    let levels = decode_kept(p.tcb_levels@, tcb_level_kept(), tcb_level_decode());
    lemma_decode_kept_len(p.tcb_levels@, levels->Ok_0, tcb_level_kept(), tcb_level_decode());
    if tdx_module_identities_pod_have_data(p.tdx_module_identities) {
        let ids = decode_kept(
            p.tdx_module_identities@,
            tdx_module_identity_kept(),
            tdx_module_identity_decode(),
        );
        lemma_decode_kept_len(
            p.tdx_module_identities@,
            ids->Ok_0,
            tdx_module_identity_kept(),
            tdx_module_identity_decode(),
        );
    }
}

/// A TDX module layout is blank exactly when all bytes of its MRSIGNER,
/// attributes and attributes mask are zero; an identity entry is blank
/// exactly when all bytes of its ID, MRSIGNER, attributes and attributes mask
/// are zero; and the identities hold data exactly when some entry is not
/// blank.
pub proof fn layout_blank_laws(
    m: TdxModulePod,
    ps: [TdxModuleIdentityPod; TDX_MODULE_TCB_MAX_LEVEL_SIZE],
    i: int,
)
    requires
        0 <= i < TDX_MODULE_TCB_MAX_LEVEL_SIZE,
    ensures
        tdx_module_pod_blank(m) <==> (forall|k: int| 0 <= k < 96 ==> m.mrsigner_hex@[k] == 0) && (
        forall|k: int| 0 <= k < 16 ==> m.attributes_hex@[k] == 0) && (forall|k: int|
            0 <= k < 16 ==> m.attributes_mask_hex@[k] == 0),
        tdx_module_identity_pod_blank(ps@[i]) <==> (forall|k: int|
            0 <= k < 12 ==> ps@[i].id@[k] == 0) && (forall|k: int|
            0 <= k < 96 ==> ps@[i].mrsigner_hex@[k] == 0) && (forall|k: int|
            0 <= k < 16 ==> ps@[i].attributes_hex@[k] == 0) && (forall|k: int|
            0 <= k < 16 ==> ps@[i].attributes_mask_hex@[k] == 0),
        !tdx_module_identity_pod_blank(ps@[i]) ==> tdx_module_identities_pod_have_data(ps),
        tdx_module_identities_pod_have_data(ps) <==> exists|j: int|
            0 <= j < TDX_MODULE_TCB_MAX_LEVEL_SIZE && !tdx_module_identity_pod_blank(
                #[trigger] ps@[j],
            ),
{
}

} // verus!
