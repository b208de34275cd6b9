//! Conversions between the JSON-shaped TCB information and its fixed layout,
//! with the laws that relate them.
use vstd::prelude::*;
use vstd::utf8::*;

use super::{
    TcbComponent, TcbInfoPod, TcbLevelPod, TcbPod, TdxModuleIdentityPod, TdxModulePod,
    TdxTcbLevelPod, MAX_ADVISORY_IDS_SIZE, TCB_MAX_LEVEL_SIZE, TDX_MODULE_TCB_MAX_LEVEL_SIZE,
};
use super::lists::{
    decode_kept, decode_kept_next, first_error, lemma_decode_kept_error_stays,
    lemma_decode_kept_exact, lemma_decode_kept_start, lemma_decode_kept_step,
    lemma_decode_kept_whole, lemma_first_error_none, lemma_first_error_start,
    lemma_first_error_stays, lemma_first_error_step, lemma_first_error_whole,
};
use crate::bytes::{
    all_zero, zeros, cstr_text, copy_padded, nul_pos, nul_position, lemma_until_nul_padded,
    lemma_encode_utf8_empty, lemma_nul_pos_unique, cstr_to_string, fits_field, is_all_zero, lemma_cstr_text_roundtrip,
    padded, string_to_field,
};
use crate::trusted::{utc_timestamp_in_range, utc_timestamp_is_valid};
use crate::types::tcb_info::{
    ComponentView, Tcb, TcbComponentV3, TcbInfo, TcbInfoAndSignature, TcbInfoVersion, TcbInfoView,
    TcbLevel, TcbLevelView, TcbStatus, TcbTdx, TcbV2, TcbV3, TcbView, TdxModule,
    TdxModuleIdentity, TdxModuleIdentityView, TdxModuleView, TdxTcbLevel, TdxTcbLevelView,
};

verus! {

// ---------------------------------------------------------------------------
// TDX module
// ---------------------------------------------------------------------------

/// Why a TDX module has no fixed layout: the first field too long for its array.
pub open spec fn tdx_module_pod_error(m: TdxModuleView) -> Option<&'static str> {
    if encode_utf8(m.mrsigner).len() > 96 {
        Some("mrsigner too long for fixed-size array")
    } else if encode_utf8(m.attributes).len() > 16 {
        Some("attributes too long for fixed-size array")
    } else if encode_utf8(m.attributes_mask).len() > 16 {
        Some("attributes_mask too long for fixed-size array")
    } else {
        None
    }
}

/// `p` is the fixed layout of the TDX module `m`.
pub open spec fn tdx_module_pod_of(p: TdxModulePod, m: TdxModuleView) -> bool {
    &&& p.mrsigner_hex@ == padded(encode_utf8(m.mrsigner), 96)
    &&& p.attributes_hex@ == padded(encode_utf8(m.attributes), 16)
    &&& p.attributes_mask_hex@ == padded(encode_utf8(m.attributes_mask), 16)
}

/// The TDX module that a fixed layout holds, or why it holds none.
pub open spec fn tdx_module_from_pod(p: TdxModulePod) -> Result<TdxModuleView, &'static str> {
    let mrsigner = cstr_text(p.mrsigner_hex@);
    let attributes = cstr_text(p.attributes_hex@);
    let attributes_mask = cstr_text(p.attributes_mask_hex@);
    if mrsigner is None {
        Err("Invalid UTF-8 in mrsigner")
    } else if attributes is None {
        Err("Invalid UTF-8 in attributes")
    } else if attributes_mask is None {
        Err("Invalid UTF-8 in attributes_mask")
    } else {
        Ok(
            TdxModuleView {
                mrsigner: mrsigner->0,
                attributes: attributes->0,
                attributes_mask: attributes_mask->0,
            },
        )
    }
}

/// The strings of a TDX module fit their fields and can be read back.
pub open spec fn tdx_module_fits(m: TdxModuleView) -> bool {
    &&& fits_field(m.mrsigner, 96)
    &&& fits_field(m.attributes, 16)
    &&& fits_field(m.attributes_mask, 16)
}

fn tdx_module_to_pod(tdx_module: &TdxModule) -> (r: Result<TdxModulePod, &'static str>)
    ensures
        r matches Ok(p) ==> tdx_module_pod_error(tdx_module.deep_view()) is None
            && tdx_module_pod_of(p, tdx_module.deep_view()),
        r matches Err(e) ==> tdx_module_pod_error(tdx_module.deep_view()) == Some(e),
{
    let mrsigner = match string_to_field::<96>(&tdx_module.mrsigner) {
        Some(a) => a,
        None => return Err("mrsigner too long for fixed-size array"),
    };
    let attributes = match string_to_field::<16>(&tdx_module.attributes) {
        Some(a) => a,
        None => return Err("attributes too long for fixed-size array"),
    };
    let attributes_mask = match string_to_field::<16>(&tdx_module.attributes_mask) {
        Some(a) => a,
        None => return Err("attributes_mask too long for fixed-size array"),
    };
    Ok(
        TdxModulePod {
            mrsigner_hex: mrsigner,
            attributes_hex: attributes,
            attributes_mask_hex: attributes_mask,
        },
    )
}

impl TdxModulePod {
    pub fn try_from(tdx_module: TdxModule) -> (r: Result<Self, &'static str>)
        ensures
            r matches Ok(p) ==> tdx_module_pod_error(tdx_module.deep_view()) is None
                && tdx_module_pod_of(p, tdx_module.deep_view()),
            r matches Err(e) ==> tdx_module_pod_error(tdx_module.deep_view()) == Some(e),
    {
        tdx_module_to_pod(&tdx_module)
    }
}

impl TdxModule {
    pub fn try_from(tdx_module_pod: TdxModulePod) -> (r: Result<Self, &'static str>)
        ensures
            r matches Ok(m) ==> tdx_module_from_pod(tdx_module_pod) == Ok::<
                TdxModuleView,
                &'static str,
            >(m.deep_view()),
            r matches Err(e) ==> tdx_module_from_pod(tdx_module_pod) == Err::<
                TdxModuleView,
                &'static str,
            >(e),
    {
        let mrsigner = match cstr_to_string(tdx_module_pod.mrsigner_hex.as_slice()) {
            Some(s) => s,
            None => return Err("Invalid UTF-8 in mrsigner"),
        };
        let attributes = match cstr_to_string(tdx_module_pod.attributes_hex.as_slice()) {
            Some(s) => s,
            None => return Err("Invalid UTF-8 in attributes"),
        };
        let attributes_mask = match cstr_to_string(tdx_module_pod.attributes_mask_hex.as_slice()) {
            Some(s) => s,
            None => return Err("Invalid UTF-8 in attributes_mask"),
        };
        Ok(TdxModule { mrsigner, attributes, attributes_mask })
    }
}

/// A TDX module whose strings fit their fields is read back unchanged from
/// its fixed layout.
pub proof fn lemma_tdx_module_roundtrip(m: TdxModuleView, p: TdxModulePod)
    requires
        tdx_module_fits(m),
        tdx_module_pod_of(p, m),
    ensures
        tdx_module_pod_error(m) is None,
        tdx_module_from_pod(p) == Ok::<TdxModuleView, &'static str>(m),
{
    lemma_cstr_text_roundtrip(m.mrsigner, 96);
    lemma_cstr_text_roundtrip(m.attributes, 16);
    lemma_cstr_text_roundtrip(m.attributes_mask, 16);
}


// ---------------------------------------------------------------------------
// Dates and advisory IDs
// ---------------------------------------------------------------------------

/// A date written to the fixed layout and read back is the same date.
pub proof fn lemma_timestamp_roundtrip(d: i64)
    ensures
        (d as u64) as i64 == d,
{
    assert((d as u64) as i64 == d) by (bit_vector);
}

/// Why a list of advisory IDs has no fixed layout.
pub open spec fn advisory_ids_pod_error(ids: Option<Seq<Seq<char>>>) -> Option<&'static str> {
    match ids {
        None => None,
        Some(v) => if v.len() > MAX_ADVISORY_IDS_SIZE {
            Some("Advisory IDs exceeded MAX_ADVISORY_IDS_SIZE")
        } else if exists|i: int| 0 <= i < v.len() && #[trigger] encode_utf8(v[i]).len() > 32 {
            Some("Advisory ID too long for fixed-size array")
        } else {
            None
        },
    }
}

/// The field of entry `i` in the fixed layout of a list of advisory IDs.
pub open spec fn advisory_id_field(ids: Option<Seq<Seq<char>>>, i: int) -> Seq<u8> {
    match ids {
        Some(v) => if i < v.len() {
            padded(encode_utf8(v[i]), 32)
        } else {
            padded(seq![], 32)
        },
        None => padded(seq![], 32),
    }
}

/// `a` is the fixed layout of the advisory IDs `ids`.
pub open spec fn advisory_ids_pod_of(
    a: [[u8; 32]; MAX_ADVISORY_IDS_SIZE],
    ids: Option<Seq<Seq<char>>>,
) -> bool {
    forall|i: int| 0 <= i < MAX_ADVISORY_IDS_SIZE ==> #[trigger] a@[i]@ == advisory_id_field(ids, i)
}

/// Reading a list of advisory IDs skips entries that are all zero.
pub open spec fn advisory_id_kept() -> spec_fn([u8; 32]) -> bool {
    |f: [u8; 32]| !all_zero(f@)
}

/// The advisory ID of one entry: its text up to the first zero byte.
pub open spec fn advisory_id_decode() -> spec_fn([u8; 32]) -> Result<Seq<char>, &'static str> {
    |f: [u8; 32]|
        match cstr_text(f@) {
            None => Err("Invalid UTF-8 in advisory ID"),
            Some(s) => Ok(s),
        }
}

/// The advisory IDs that a fixed layout holds: `None` where it holds none.
pub open spec fn advisory_ids_from_pod(a: [[u8; 32]; MAX_ADVISORY_IDS_SIZE]) -> Result<
    Option<Seq<Seq<char>>>,
    &'static str,
> {
    match decode_kept(a@, advisory_id_kept(), advisory_id_decode()) {
        Err(e) => Err(e),
        Ok(v) => Ok(
            if v.len() == 0 {
                None
            } else {
                Some(v)
            },
        ),
    }
}

/// A list of advisory IDs that is read back unchanged from its fixed layout:
/// absent, or one to sixteen IDs, each non-empty and fitting its field.
pub open spec fn advisory_ids_fit(ids: Option<Seq<Seq<char>>>) -> bool {
    ids matches Some(v) ==> {
        &&& 0 < v.len() <= MAX_ADVISORY_IDS_SIZE
        &&& forall|i: int| #![trigger v[i]] 0 <= i < v.len() ==> fits_field(v[i], 32) && v[i].len() > 0
    }
}

fn advisory_ids_to_pod(ids: &Option<Vec<String>>) -> (r: Result<
    [[u8; 32]; MAX_ADVISORY_IDS_SIZE],
    &'static str,
>)
    ensures
        r matches Ok(a) ==> advisory_ids_pod_error(ids.deep_view()) is None && advisory_ids_pod_of(
            a,
            ids.deep_view(),
        ),
        r matches Err(e) ==> advisory_ids_pod_error(ids.deep_view()) == Some(e),
{
    let mut advisory_ids = [[0u8; 32]; MAX_ADVISORY_IDS_SIZE];
    proof {
        assert forall|i: int| 0 <= i < MAX_ADVISORY_IDS_SIZE implies advisory_ids@[i]@ =~= padded(
            seq![],
            32,
        ) by {}
    }
    match ids {
        None => {
            return Ok(advisory_ids);
        },
        Some(v) => {
            let len = v.len();
            if len > MAX_ADVISORY_IDS_SIZE {
                return Err("Advisory IDs exceeded MAX_ADVISORY_IDS_SIZE");
            }
            let ghost dv = v.deep_view();
            assert(ids.deep_view() == Some(dv));
            let mut i: usize = 0;
            while i < len
                invariant
                    ids.deep_view() == Some(dv),
                    len == v@.len() <= MAX_ADVISORY_IDS_SIZE,
                    dv == v.deep_view(),
                    i <= len,
                    forall|j: int| 0 <= j < i ==> encode_utf8(#[trigger] dv[j]).len() <= 32,
                    forall|j: int|
                        0 <= j < MAX_ADVISORY_IDS_SIZE ==> #[trigger] advisory_ids@[j]@ == (if j
                            < i {
                            padded(encode_utf8(dv[j]), 32)
                        } else {
                            padded(seq![], 32)
                        }),
                decreases len - i,
            {
                match string_to_field::<32>(&v[i]) {
                    Some(a) => {
                        advisory_ids[i] = a;
                    },
                    None => {
                        assert(dv[i as int] == v@[i as int]@);
                        assert(encode_utf8(dv[i as int]).len() > 32);
                        return Err("Advisory ID too long for fixed-size array");
                    },
                }
                i = i + 1;
            }
            Ok(advisory_ids)
        },
    }
}

fn advisory_ids_from_pod_exec(a: &[[u8; 32]; MAX_ADVISORY_IDS_SIZE]) -> (r: Result<
    Option<Vec<String>>,
    &'static str,
>)
    ensures
        r matches Ok(ids) ==> advisory_ids_from_pod(*a) == Ok::<
            Option<Seq<Seq<char>>>,
            &'static str,
        >(ids.deep_view()),
        r matches Err(e) ==> advisory_ids_from_pod(*a) == Err::<Option<Seq<Seq<char>>>, &'static str>(
            e,
        ),
{
    let ghost kept = advisory_id_kept();
    let ghost decode = advisory_id_decode();
    let mut advisory_ids: Vec<String> = Vec::new();
    let mut i: usize = 0;
    proof {
        lemma_decode_kept_start(a@, kept, decode);
        assert(advisory_ids.deep_view() =~= Seq::<Seq<char>>::empty());
    }
    while i < MAX_ADVISORY_IDS_SIZE
        invariant
            i <= MAX_ADVISORY_IDS_SIZE,
            kept == advisory_id_kept(),
            decode == advisory_id_decode(),
            decode_kept(a@.take(i as int), kept, decode) == Ok::<Seq<Seq<char>>, &'static str>(
                advisory_ids.deep_view(),
            ),
        decreases MAX_ADVISORY_IDS_SIZE - i,
    {
        let ghost prev = advisory_ids.deep_view();
        proof {
            lemma_decode_kept_step(a@, i as int, kept, decode);
        }
        if !is_all_zero(a[i].as_slice()) {
            match cstr_to_string(a[i].as_slice()) {
                Some(s) => {
                    advisory_ids.push(s);
                    assert(advisory_ids.deep_view() =~= prev.push(s@));
                },
                None => {
                    proof {
                        lemma_decode_kept_error_stays(
                            a@,
                            i + 1,
                            kept,
                            decode,
                            "Invalid UTF-8 in advisory ID",
                        );
                    }
                    return Err("Invalid UTF-8 in advisory ID");
                },
            }
        }
        i = i + 1;
    }
    proof {
        lemma_decode_kept_whole(a@, kept, decode);
    }
    if advisory_ids.len() == 0 {
        Ok(None)
    } else {
        Ok(Some(advisory_ids))
    }
}

/// Advisory IDs that fit are read back unchanged from their fixed layout.
pub proof fn lemma_advisory_ids_roundtrip(
    a: [[u8; 32]; MAX_ADVISORY_IDS_SIZE],
    ids: Option<Seq<Seq<char>>>,
)
    requires
        advisory_ids_fit(ids),
        advisory_ids_pod_of(a, ids),
    ensures
        advisory_ids_pod_error(ids) is None,
        advisory_ids_from_pod(a) == Ok::<Option<Seq<Seq<char>>>, &'static str>(ids),
{
    let vs = match ids {
        Some(v) => v,
        None => Seq::<Seq<char>>::empty(),
    };
    let zero_field = padded(Seq::<u8>::empty(), 32);
    assert(all_zero(zero_field)) by {
        assert forall|i: int| 0 <= i < zero_field.len() implies zero_field[i] == 0 by {
            assert(zero_field[i] == zeros(32)[i]);
        }
    }
    assert forall|i: int| 0 <= i < vs.len() implies #[trigger] advisory_id_kept()(a@[i])
        && advisory_id_decode()(a@[i]) == Ok::<Seq<char>, &'static str>(vs[i]) by {
        assert(a@[i]@ == advisory_id_field(ids, i));
        assert(fits_field(vs[i], 32) && vs[i].len() > 0);
        lemma_cstr_text_roundtrip(vs[i], 32);
    }
    assert forall|i: int| vs.len() <= i < a@.len() implies !#[trigger] advisory_id_kept()(a@[i]) by {
        assert(a@[i]@ == advisory_id_field(ids, i));
    }
    lemma_decode_kept_exact(a@, vs, advisory_id_kept(), advisory_id_decode());
    if let Some(v) = ids {
        assert forall|i: int| 0 <= i < v.len() implies !(encode_utf8(v[i]).len() > 32) by {
            assert(fits_field(v[i], 32));
        }
    }
}

// ---------------------------------------------------------------------------
// TDX TCB levels
// ---------------------------------------------------------------------------

/// `p` is the fixed layout of the TDX TCB level `l`.
pub open spec fn tdx_tcb_level_pod_of(p: TdxTcbLevelPod, l: TdxTcbLevelView) -> bool {
    &&& p.tcb_isvsvn == l.isvsvn
    &&& p.tcb_status == l.tcb_status.spec_code()
    &&& p._pad@ == padded(seq![], 6)
    &&& p.tcb_date == l.tcb_date as u64
    &&& advisory_ids_pod_of(p.advisory_ids, l.advisory_ids)
}

/// The TDX TCB level that a fixed layout holds, or why it holds none.
pub open spec fn tdx_tcb_level_from_pod(p: TdxTcbLevelPod) -> Result<TdxTcbLevelView, &'static str> {
    match TcbStatus::spec_try_from(p.tcb_status) {
        Err(e) => Err(e),
        Ok(status) => if !utc_timestamp_in_range(p.tcb_date as i64) {
            Err("Invalid tcb_date timestamp")
        } else {
            match advisory_ids_from_pod(p.advisory_ids) {
                Err(e) => Err(e),
                Ok(ids) => Ok(
                    TdxTcbLevelView {
                        isvsvn: p.tcb_isvsvn,
                        tcb_date: p.tcb_date as i64,
                        tcb_status: status,
                        advisory_ids: ids,
                    },
                ),
            }
        },
    }
}

/// A TDX TCB level that is read back unchanged from its fixed layout.
pub open spec fn tdx_tcb_level_fits(l: TdxTcbLevelView) -> bool {
    &&& utc_timestamp_in_range(l.tcb_date)
    &&& advisory_ids_fit(l.advisory_ids)
}

fn tdx_tcb_level_to_pod(tdx_tcb_level: &TdxTcbLevel) -> (r: Result<TdxTcbLevelPod, &'static str>)
    ensures
        r matches Ok(p) ==> advisory_ids_pod_error(tdx_tcb_level.deep_view().advisory_ids) is None
            && tdx_tcb_level_pod_of(p, tdx_tcb_level.deep_view()),
        r matches Err(e) ==> advisory_ids_pod_error(tdx_tcb_level.deep_view().advisory_ids) == Some(
            e,
        ),
{
    let tcb_isvsvn = tdx_tcb_level.tcb.isvsvn;
    let tcb_status = tdx_tcb_level.tcb_status.code();
    let tcb_date = tdx_tcb_level.tcb_date as u64;
    let advisory_ids = advisory_ids_to_pod(&tdx_tcb_level.advisory_ids)?;
    let pad = [0u8; 6];
    assert(pad@ =~= padded(seq![], 6));
    Ok(TdxTcbLevelPod { tcb_isvsvn, tcb_status, _pad: pad, tcb_date, advisory_ids })
}

impl TdxTcbLevelPod {
    pub fn try_from(tdx_tcb_level: TdxTcbLevel) -> (r: Result<Self, &'static str>)
        ensures
            r matches Ok(p) ==> advisory_ids_pod_error(tdx_tcb_level.deep_view().advisory_ids) is None
                && tdx_tcb_level_pod_of(p, tdx_tcb_level.deep_view()),
            r matches Err(e) ==> advisory_ids_pod_error(tdx_tcb_level.deep_view().advisory_ids)
                == Some(e),
    {
        tdx_tcb_level_to_pod(&tdx_tcb_level)
    }
}

impl TdxTcbLevel {
    pub fn try_from(tdx_tcb_level_pod: TdxTcbLevelPod) -> (r: Result<Self, &'static str>)
        ensures
            r matches Ok(l) ==> tdx_tcb_level_from_pod(tdx_tcb_level_pod) == Ok::<
                TdxTcbLevelView,
                &'static str,
            >(l.deep_view()),
            r matches Err(e) ==> tdx_tcb_level_from_pod(tdx_tcb_level_pod) == Err::<
                TdxTcbLevelView,
                &'static str,
            >(e),
    {
        let tcb = TcbTdx { isvsvn: tdx_tcb_level_pod.tcb_isvsvn };
        let tcb_status = TcbStatus::try_from(tdx_tcb_level_pod.tcb_status)?;
        let tcb_date = tdx_tcb_level_pod.tcb_date as i64;
        if !utc_timestamp_is_valid(tcb_date) {
            return Err("Invalid tcb_date timestamp");
        }
        let advisory_ids = advisory_ids_from_pod_exec(&tdx_tcb_level_pod.advisory_ids)?;
        Ok(TdxTcbLevel { tcb, tcb_date, tcb_status, advisory_ids })
    }
}

/// A TDX TCB level that fits is read back unchanged from its fixed layout.
pub proof fn lemma_tdx_tcb_level_roundtrip(l: TdxTcbLevelView, p: TdxTcbLevelPod)
    requires
        tdx_tcb_level_fits(l),
        tdx_tcb_level_pod_of(p, l),
    ensures
        advisory_ids_pod_error(l.advisory_ids) is None,
        tdx_tcb_level_from_pod(p) == Ok::<TdxTcbLevelView, &'static str>(l),
{
    lemma_timestamp_roundtrip(l.tcb_date);
    lemma_advisory_ids_roundtrip(p.advisory_ids, l.advisory_ids);
}


/// A date other than the epoch is stored as a non-zero number.
pub proof fn lemma_timestamp_nonzero(d: i64)
    ensures
        (d as u64 > 0) <==> (d != 0),
{
    assert((d as u64 > 0) <==> (d != 0)) by (bit_vector);
}

// ---------------------------------------------------------------------------
// TDX module identities
// ---------------------------------------------------------------------------

/// The entry of an unused TDX TCB level: every field zero.
pub open spec fn tdx_tcb_level_pod_is_empty(p: TdxTcbLevelPod) -> bool {
    &&& p.tcb_isvsvn == 0
    &&& p.tcb_status == 0
    &&& p._pad@ == padded(seq![], 6)
    &&& p.tcb_date == 0
    &&& advisory_ids_pod_of(p.advisory_ids, None)
}

fn empty_tdx_tcb_level_pod() -> (p: TdxTcbLevelPod)
    ensures
        tdx_tcb_level_pod_is_empty(p),
{
    let p = TdxTcbLevelPod {
        tcb_isvsvn: 0,
        tcb_status: 0,
        _pad: [0u8; 6],
        tcb_date: 0,
        advisory_ids: [[0u8; 32]; MAX_ADVISORY_IDS_SIZE],
    };
    assert(p._pad@ =~= padded(seq![], 6));
    assert forall|i: int| 0 <= i < MAX_ADVISORY_IDS_SIZE implies #[trigger] p.advisory_ids@[i]@
        == advisory_id_field(None, i) by {
        assert(p.advisory_ids@[i]@ =~= padded(seq![], 32));
    }
    p
}

/// The error, if any, of writing one TDX TCB level.
pub open spec fn tdx_tcb_level_pod_error() -> spec_fn(TdxTcbLevelView) -> Option<&'static str> {
    |l: TdxTcbLevelView| advisory_ids_pod_error(l.advisory_ids)
}

/// Why a TDX module identity has no fixed layout.
pub open spec fn tdx_module_identity_pod_error(m: TdxModuleIdentityView) -> Option<&'static str> {
    if encode_utf8(m.id).len() > 12 {
        Some("id too long for fixed-size array")
    } else if encode_utf8(m.mrsigner).len() > 96 {
        Some("mrsigner too long for fixed-size array")
    } else if encode_utf8(m.attributes).len() > 16 {
        Some("attributes too long for fixed-size array")
    } else if encode_utf8(m.attributes_mask).len() > 16 {
        Some("attributes_mask too long for fixed-size array")
    } else if m.tcb_levels.len() > TDX_MODULE_TCB_MAX_LEVEL_SIZE {
        Some("TCB Levels exceeded TDX_MODULE_TCB_MAX_LEVEL_SIZE")
    } else {
        first_error(m.tcb_levels, tdx_tcb_level_pod_error())
    }
}

/// `p` is the fixed layout of the TDX module identity `m`.
pub open spec fn tdx_module_identity_pod_of(p: TdxModuleIdentityPod, m: TdxModuleIdentityView) -> bool {
    &&& p.id@ == padded(encode_utf8(m.id), 12)
    &&& p.mrsigner_hex@ == padded(encode_utf8(m.mrsigner), 96)
    &&& p._pad@ == padded(seq![], 4)
    &&& p.attributes_hex@ == padded(encode_utf8(m.attributes), 16)
    &&& p.attributes_mask_hex@ == padded(encode_utf8(m.attributes_mask), 16)
    &&& forall|i: int|
        0 <= i < TDX_MODULE_TCB_MAX_LEVEL_SIZE ==> if i < m.tcb_levels.len() {
            tdx_tcb_level_pod_of(#[trigger] p.tcb_levels@[i], m.tcb_levels[i])
        } else {
            tdx_tcb_level_pod_is_empty(p.tcb_levels@[i])
        }
}

/// Reading the TDX TCB levels of an identity skips entries dated zero.
pub open spec fn tdx_tcb_level_kept() -> spec_fn(TdxTcbLevelPod) -> bool {
    |p: TdxTcbLevelPod| p.tcb_date > 0
}

pub open spec fn tdx_tcb_level_decode() -> spec_fn(TdxTcbLevelPod) -> Result<
    TdxTcbLevelView,
    &'static str,
> {
    |p: TdxTcbLevelPod| tdx_tcb_level_from_pod(p)
}

/// The TDX module identity that a fixed layout holds, or why it holds none.
pub open spec fn tdx_module_identity_from_pod(p: TdxModuleIdentityPod) -> Result<
    TdxModuleIdentityView,
    &'static str,
> {
    let id = cstr_text(p.id@);
    let mrsigner = cstr_text(p.mrsigner_hex@);
    let attributes = cstr_text(p.attributes_hex@);
    let attributes_mask = cstr_text(p.attributes_mask_hex@);
    if id is None {
        Err("Invalid UTF-8 in id")
    } else if mrsigner is None {
        Err("Invalid UTF-8 in mrsigner")
    } else if attributes is None {
        Err("Invalid UTF-8 in attributes")
    } else if attributes_mask is None {
        Err("Invalid UTF-8 in attributes_mask")
    } else {
        match decode_kept(p.tcb_levels@, tdx_tcb_level_kept(), tdx_tcb_level_decode()) {
            Err(e) => Err(e),
            Ok(levels) => Ok(
                TdxModuleIdentityView {
                    id: id->0,
                    mrsigner: mrsigner->0,
                    attributes: attributes->0,
                    attributes_mask: attributes_mask->0,
                    tcb_levels: levels,
                },
            ),
        }
    }
}

/// A TDX module identity that is read back unchanged from its fixed layout:
/// its strings fit, it has at most four TCB levels, and each of them fits and
/// is dated other than the epoch.
pub open spec fn tdx_module_identity_fits(m: TdxModuleIdentityView) -> bool {
    &&& fits_field(m.id, 12)
    &&& fits_field(m.mrsigner, 96)
    &&& fits_field(m.attributes, 16)
    &&& fits_field(m.attributes_mask, 16)
    &&& m.tcb_levels.len() <= TDX_MODULE_TCB_MAX_LEVEL_SIZE
    &&& forall|i: int|
        0 <= i < m.tcb_levels.len() ==> tdx_tcb_level_fits(#[trigger] m.tcb_levels[i])
            && m.tcb_levels[i].tcb_date != 0
}

#[verifier::loop_isolation(false)]
fn tdx_module_identity_to_pod(tdx_module_identity: &TdxModuleIdentity) -> (r: Result<
    TdxModuleIdentityPod,
    &'static str,
>)
    ensures
        r matches Ok(p) ==> tdx_module_identity_pod_error(tdx_module_identity.deep_view()) is None
            && tdx_module_identity_pod_of(p, tdx_module_identity.deep_view()),
        r matches Err(e) ==> tdx_module_identity_pod_error(tdx_module_identity.deep_view())
            == Some(e),
{
    let ghost m = tdx_module_identity.deep_view();
    let id = match string_to_field::<12>(&tdx_module_identity.id) {
        Some(a) => a,
        None => return Err("id too long for fixed-size array"),
    };
    let mrsigner = match string_to_field::<96>(&tdx_module_identity.mrsigner) {
        Some(a) => a,
        None => return Err("mrsigner too long for fixed-size array"),
    };
    let attributes = match string_to_field::<16>(&tdx_module_identity.attributes) {
        Some(a) => a,
        None => return Err("attributes too long for fixed-size array"),
    };
    let attributes_mask = match string_to_field::<16>(&tdx_module_identity.attributes_mask) {
        Some(a) => a,
        None => return Err("attributes_mask too long for fixed-size array"),
    };
    let empty = empty_tdx_tcb_level_pod();
    let mut tcb_levels = [empty; TDX_MODULE_TCB_MAX_LEVEL_SIZE];
    let levels = &tdx_module_identity.tcb_levels;
    let len = levels.len();
    if len > TDX_MODULE_TCB_MAX_LEVEL_SIZE {
        return Err("TCB Levels exceeded TDX_MODULE_TCB_MAX_LEVEL_SIZE");
    }
    let ghost error = tdx_tcb_level_pod_error();
    let mut i: usize = 0;
    proof {
        lemma_first_error_start(m.tcb_levels, error);
    }
    while i < len
        invariant
            len == levels@.len() <= TDX_MODULE_TCB_MAX_LEVEL_SIZE,
            m == tdx_module_identity.deep_view(),
            m.tcb_levels == levels.deep_view(),
            error == tdx_tcb_level_pod_error(),
            i <= len,
            first_error(m.tcb_levels.take(i as int), error) is None,
            forall|j: int|
                0 <= j < TDX_MODULE_TCB_MAX_LEVEL_SIZE ==> if j < i {
                    tdx_tcb_level_pod_of(#[trigger] tcb_levels@[j], m.tcb_levels[j])
                } else {
                    tdx_tcb_level_pod_is_empty(tcb_levels@[j])
                },
        decreases len - i,
    {
        proof {
            lemma_first_error_step(m.tcb_levels, i as int, error);
        }
        match tdx_tcb_level_to_pod(&levels[i]) {
            Ok(p) => {
                tcb_levels[i] = p;
            },
            Err(e) => {
                proof {
                    assert(m.tcb_levels[i as int] == levels@[i as int].deep_view());
                    assert(error(m.tcb_levels[i as int]) == Some(e));
                    lemma_first_error_stays(m.tcb_levels, i + 1, error, e);
                }
                return Err(e);
            },
        }
        i = i + 1;
    }
    proof {
        lemma_first_error_whole(m.tcb_levels, error);
    }
    let pad = [0u8; 4];
    assert(pad@ =~= padded(seq![], 4));
    Ok(
        TdxModuleIdentityPod {
            id,
            mrsigner_hex: mrsigner,
            _pad: pad,
            attributes_hex: attributes,
            attributes_mask_hex: attributes_mask,
            tcb_levels,
        },
    )
}

impl TdxModuleIdentityPod {
    pub fn try_from(tdx_module_identity: TdxModuleIdentity) -> (r: Result<Self, &'static str>)
        ensures
            r matches Ok(p) ==> tdx_module_identity_pod_error(tdx_module_identity.deep_view()) is None
                && tdx_module_identity_pod_of(p, tdx_module_identity.deep_view()),
            r matches Err(e) ==> tdx_module_identity_pod_error(tdx_module_identity.deep_view())
                == Some(e),
    {
        tdx_module_identity_to_pod(&tdx_module_identity)
    }
}

impl TdxModuleIdentity {
    #[verifier::loop_isolation(false)]
    pub fn try_from(tdx_module_identity_pod: TdxModuleIdentityPod) -> (r: Result<
        Self,
        &'static str,
    >)
        ensures
            r matches Ok(m) ==> tdx_module_identity_from_pod(tdx_module_identity_pod) == Ok::<
                TdxModuleIdentityView,
                &'static str,
            >(m.deep_view()),
            r matches Err(e) ==> tdx_module_identity_from_pod(tdx_module_identity_pod) == Err::<
                TdxModuleIdentityView,
                &'static str,
            >(e),
    {
        let p = &tdx_module_identity_pod;
        let id = match cstr_to_string(p.id.as_slice()) {
            Some(s) => s,
            None => return Err("Invalid UTF-8 in id"),
        };
        let mrsigner = match cstr_to_string(p.mrsigner_hex.as_slice()) {
            Some(s) => s,
            None => return Err("Invalid UTF-8 in mrsigner"),
        };
        let attributes = match cstr_to_string(p.attributes_hex.as_slice()) {
            Some(s) => s,
            None => return Err("Invalid UTF-8 in attributes"),
        };
        let attributes_mask = match cstr_to_string(p.attributes_mask_hex.as_slice()) {
            Some(s) => s,
            None => return Err("Invalid UTF-8 in attributes_mask"),
        };
        let ghost kept = tdx_tcb_level_kept();
        let ghost decode = tdx_tcb_level_decode();
        let mut tcb_levels: Vec<TdxTcbLevel> = Vec::new();
        let mut i: usize = 0;
        proof {
            lemma_decode_kept_start(p.tcb_levels@, kept, decode);
            assert(tcb_levels.deep_view() =~= Seq::<TdxTcbLevelView>::empty());
        }
        while i < TDX_MODULE_TCB_MAX_LEVEL_SIZE
            invariant
                i <= TDX_MODULE_TCB_MAX_LEVEL_SIZE,
                kept == tdx_tcb_level_kept(),
                decode == tdx_tcb_level_decode(),
                decode_kept(p.tcb_levels@.take(i as int), kept, decode) == Ok::<
                    Seq<TdxTcbLevelView>,
                    &'static str,
                >(tcb_levels.deep_view()),
            decreases TDX_MODULE_TCB_MAX_LEVEL_SIZE - i,
        {
            let ghost prev = tcb_levels.deep_view();
            proof {
                lemma_decode_kept_step(p.tcb_levels@, i as int, kept, decode);
            }
            if p.tcb_levels[i].tcb_date > 0 {
                match TdxTcbLevel::try_from(p.tcb_levels[i]) {
                    Ok(level) => {
                        tcb_levels.push(level);
                        assert(tcb_levels.deep_view() =~= prev.push(level.deep_view()));
                    },
                    Err(e) => {
                        proof {
                            assert(kept(p.tcb_levels@[i as int]));
                            assert(decode(p.tcb_levels@[i as int]) == Err::<
                                TdxTcbLevelView,
                                &'static str,
                            >(e));
                            lemma_decode_kept_error_stays(p.tcb_levels@, i + 1, kept, decode, e);
                        }
                        return Err(e);
                    },
                }
            }
            i = i + 1;
        }
        proof {
            lemma_decode_kept_whole(p.tcb_levels@, kept, decode);
        }
        Ok(TdxModuleIdentity { id, mrsigner, attributes, attributes_mask, tcb_levels })
    }
}

/// A TDX module identity that fits is read back unchanged from its fixed
/// layout.
pub proof fn lemma_tdx_module_identity_roundtrip(m: TdxModuleIdentityView, p: TdxModuleIdentityPod)
    requires
        tdx_module_identity_fits(m),
        tdx_module_identity_pod_of(p, m),
    ensures
        tdx_module_identity_pod_error(m) is None,
        tdx_module_identity_from_pod(p) == Ok::<TdxModuleIdentityView, &'static str>(m),
{
    lemma_cstr_text_roundtrip(m.id, 12);
    lemma_cstr_text_roundtrip(m.mrsigner, 96);
    lemma_cstr_text_roundtrip(m.attributes, 16);
    lemma_cstr_text_roundtrip(m.attributes_mask, 16);
    let ls = m.tcb_levels;
    assert forall|i: int| 0 <= i < ls.len() implies (#[trigger] tdx_tcb_level_pod_error()(
        ls[i],
    )) is None by {
        assert(tdx_tcb_level_fits(ls[i]));
        assert(tdx_tcb_level_pod_of(p.tcb_levels@[i], ls[i]));
        lemma_tdx_tcb_level_roundtrip(ls[i], p.tcb_levels@[i]);
    }
    lemma_first_error_none(ls, tdx_tcb_level_pod_error());
    assert forall|i: int| 0 <= i < ls.len() implies #[trigger] tdx_tcb_level_kept()(
        p.tcb_levels@[i],
    ) && tdx_tcb_level_decode()(p.tcb_levels@[i]) == Ok::<TdxTcbLevelView, &'static str>(
        ls[i],
    ) by {
        assert(tdx_tcb_level_fits(ls[i]) && ls[i].tcb_date != 0);
        assert(tdx_tcb_level_pod_of(p.tcb_levels@[i], ls[i]));
        lemma_tdx_tcb_level_roundtrip(ls[i], p.tcb_levels@[i]);
        lemma_timestamp_nonzero(ls[i].tcb_date);
    }
    assert forall|i: int| ls.len() <= i < p.tcb_levels@.len() implies !#[trigger] tdx_tcb_level_kept()(
        p.tcb_levels@[i],
    ) by {
        assert(tdx_tcb_level_pod_is_empty(p.tcb_levels@[i]));
    }
    lemma_decode_kept_exact(p.tcb_levels@, ls, tdx_tcb_level_kept(), tdx_tcb_level_decode());
}


// ---------------------------------------------------------------------------
// TCB components and platform TCB levels
// ---------------------------------------------------------------------------

/// The field of an optional string: its UTF-8 bytes, padded, or all zero.
pub open spec fn optional_field(s: Option<Seq<char>>, n: nat) -> Seq<u8> {
    match s {
        Some(t) => padded(encode_utf8(t), n),
        None => padded(seq![], n),
    }
}

/// An optional string is read back unchanged from its field: absent, or
/// non-empty and fitting.
pub open spec fn optional_fits(s: Option<Seq<char>>, n: nat) -> bool {
    s matches Some(t) ==> fits_field(t, n) && t.len() > 0
}

/// The error, if any, of writing one component.
pub open spec fn component_pod_error() -> spec_fn(ComponentView) -> Option<&'static str> {
    |c: ComponentView|
        if c.category matches Some(t) && encode_utf8(t).len() > 16 {
            Some("Category too long for fixed-size array")
        } else if c.component_type matches Some(t) && encode_utf8(t).len() > 64 {
            Some("Component type too long for fixed-size array")
        } else {
            None
        }
}

/// `p` is the fixed layout of the component `c`.
pub open spec fn component_pod_of(p: TcbComponent, c: ComponentView) -> bool {
    &&& p.cpusvn == c.svn
    &&& p.category@ == optional_field(c.category, 16)
    &&& p.component_type@ == optional_field(c.component_type, 64)
}

/// `p` holds an SVN and no category or type.
pub open spec fn component_pod_is_bare(p: TcbComponent, svn: u8) -> bool {
    &&& p.cpusvn == svn
    &&& p.category@ == padded(seq![], 16)
    &&& p.component_type@ == padded(seq![], 64)
}

/// The component that a fixed layout holds: an all-zero category or type is
/// absent.
pub open spec fn component_from_pod() -> spec_fn(TcbComponent) -> Result<
    ComponentView,
    &'static str,
> {
    |p: TcbComponent|
        if !all_zero(p.category@) && cstr_text(p.category@) is None {
            Err("Invalid UTF-8 in category")
        } else if !all_zero(p.component_type@) && cstr_text(p.component_type@) is None {
            Err("Invalid UTF-8 in component_type")
        } else {
            Ok(
                ComponentView {
                    svn: p.cpusvn,
                    category: if all_zero(p.category@) {
                        None
                    } else {
                        cstr_text(p.category@)
                    },
                    component_type: if all_zero(p.component_type@) {
                        None
                    } else {
                        cstr_text(p.component_type@)
                    },
                },
            )
        }
}

/// Every entry of a component array is read.
pub open spec fn every_component() -> spec_fn(TcbComponent) -> bool {
    |p: TcbComponent| true
}

/// A component that is read back unchanged from its fixed layout.
pub open spec fn component_fits(c: ComponentView) -> bool {
    &&& optional_fits(c.category, 16)
    &&& optional_fits(c.component_type, 64)
}

/// The error, if any, of writing a platform TCB level.
pub open spec fn tcb_level_pod_error(l: TcbLevelView) -> Option<&'static str> {
    let sgx_error = match l.tcb {
        TcbView::V2(_) => None,
        TcbView::V3 { sgx, .. } => first_error(sgx, component_pod_error()),
    };
    let tdx_error = match l.tcb {
        TcbView::V3 { tdx: Some(t), .. } => first_error(t, component_pod_error()),
        _ => None,
    };
    if sgx_error is Some {
        sgx_error
    } else if tdx_error is Some {
        tdx_error
    } else {
        advisory_ids_pod_error(l.advisory_ids)
    }
}

/// `p` is the fixed layout of the platform TCB level `l`.
pub open spec fn tcb_level_pod_of(p: TcbLevelPod, l: TcbLevelView) -> bool {
    &&& p.tcb_status == l.tcb_status.spec_code()
    &&& p._pad0 == 0
    &&& p.pce_svn == l.tcb.pcesvn()
    &&& p._pad1@ == padded(seq![], 4)
    &&& p.tcb_date == l.tcb_date as u64
    &&& forall|i: int|
        0 <= i < 16 ==> match l.tcb {
            TcbView::V2(t) => component_pod_is_bare(#[trigger] p.sgx_tcb_components@[i], t.svns()[i]),
            TcbView::V3 { sgx, .. } => component_pod_of(p.sgx_tcb_components@[i], sgx[i]),
        }
    &&& forall|i: int|
        0 <= i < 16 ==> match l.tcb {
            TcbView::V3 { tdx: Some(t), .. } => component_pod_of(
                #[trigger] p.tdx_tcb_components@[i],
                t[i],
            ),
            _ => component_pod_is_bare(p.tdx_tcb_components@[i], 0),
        }
    &&& advisory_ids_pod_of(p.advisory_ids, l.advisory_ids)
}

/// The layout holds version 3 components: some SGX component has a category
/// or a type.
pub open spec fn has_v3_data(p: TcbLevelPod) -> bool {
    exists|i: int|
        0 <= i < 16 && (!all_zero(#[trigger] p.sgx_tcb_components@[i].category@) || !all_zero(
            p.sgx_tcb_components@[i].component_type@,
        ))
}

/// The layout holds TDX components: some TDX component has a non-zero SVN.
pub open spec fn has_tdx_data(p: TcbLevelPod) -> bool {
    exists|i: int| 0 <= i < 16 && (#[trigger] p.tdx_tcb_components@[i]).cpusvn != 0
}

/// The version 2 TCB held in the SVNs of a layout's SGX components.
pub open spec fn tcb_v2_from_pod(p: TcbLevelPod) -> TcbV2 {
    TcbV2 {
        sgxtcbcomp01svn: p.sgx_tcb_components@[0].cpusvn,
        sgxtcbcomp02svn: p.sgx_tcb_components@[1].cpusvn,
        sgxtcbcomp03svn: p.sgx_tcb_components@[2].cpusvn,
        sgxtcbcomp04svn: p.sgx_tcb_components@[3].cpusvn,
        sgxtcbcomp05svn: p.sgx_tcb_components@[4].cpusvn,
        sgxtcbcomp06svn: p.sgx_tcb_components@[5].cpusvn,
        sgxtcbcomp07svn: p.sgx_tcb_components@[6].cpusvn,
        sgxtcbcomp08svn: p.sgx_tcb_components@[7].cpusvn,
        sgxtcbcomp09svn: p.sgx_tcb_components@[8].cpusvn,
        sgxtcbcomp10svn: p.sgx_tcb_components@[9].cpusvn,
        sgxtcbcomp11svn: p.sgx_tcb_components@[10].cpusvn,
        sgxtcbcomp12svn: p.sgx_tcb_components@[11].cpusvn,
        sgxtcbcomp13svn: p.sgx_tcb_components@[12].cpusvn,
        sgxtcbcomp14svn: p.sgx_tcb_components@[13].cpusvn,
        sgxtcbcomp15svn: p.sgx_tcb_components@[14].cpusvn,
        sgxtcbcomp16svn: p.sgx_tcb_components@[15].cpusvn,
        pcesvn: p.pce_svn,
    }
}

/// The TCB and advisory IDs that a layout holds. A layout without version 3
/// components holds a version 2 TCB and, as such, no advisory IDs.
pub open spec fn tcb_from_pod(p: TcbLevelPod) -> Result<
    (TcbView, Option<Seq<Seq<char>>>),
    &'static str,
> {
    if has_v3_data(p) {
        match decode_kept(p.sgx_tcb_components@, every_component(), component_from_pod()) {
            Err(e) => Err(e),
            Ok(sgx) => {
                let tdx = if has_tdx_data(p) {
                    match decode_kept(
                        p.tdx_tcb_components@,
                        every_component(),
                        component_from_pod(),
                    ) {
                        Err(e) => Err(e),
                        Ok(t) => Ok(Some(t)),
                    }
                } else {
                    Ok(None)
                };
                match tdx {
                    Err(e) => Err(e),
                    Ok(tdx) => match advisory_ids_from_pod(p.advisory_ids) {
                        Err(e) => Err(e),
                        Ok(ids) => Ok((TcbView::V3 { sgx, pcesvn: p.pce_svn, tdx }, ids)),
                    },
                }
            },
        }
    } else {
        Ok((TcbView::V2(tcb_v2_from_pod(p)), None))
    }
}

/// The platform TCB level that a fixed layout holds, or why it holds none.
pub open spec fn tcb_level_from_pod(p: TcbLevelPod) -> Result<TcbLevelView, &'static str> {
    match TcbStatus::spec_try_from(p.tcb_status) {
        Err(e) => Err(e),
        Ok(status) => match tcb_from_pod(p) {
            Err(e) => Err(e),
            Ok((tcb, ids)) => if !utc_timestamp_in_range(p.tcb_date as i64) {
                Err("Invalid tcb_date timestamp")
            } else {
                Ok(
                    TcbLevelView {
                        tcb,
                        tcb_date: p.tcb_date as i64,
                        tcb_status: status,
                        advisory_ids: ids,
                    },
                )
            },
        },
    }
}

/// A platform TCB level that is read back unchanged from its fixed layout.
/// A version 2 TCB carries no advisory IDs; a version 3 TCB has sixteen
/// components that fit, at least one of them with a category or a type, and
/// where it has TDX components, sixteen that fit, at least one with a
/// non-zero SVN.
pub open spec fn tcb_level_fits(l: TcbLevelView) -> bool {
    &&& utc_timestamp_in_range(l.tcb_date)
    &&& advisory_ids_fit(l.advisory_ids)
    &&& match l.tcb {
        TcbView::V2(_) => l.advisory_ids is None,
        TcbView::V3 { sgx, tdx, .. } => {
            &&& sgx.len() == 16
            &&& forall|i: int| 0 <= i < 16 ==> component_fits(#[trigger] sgx[i])
            &&& exists|i: int|
                0 <= i < 16 && ((#[trigger] sgx[i]).category is Some || sgx[i].component_type is Some)
            &&& tdx matches Some(t) ==> {
                &&& t.len() == 16
                &&& forall|i: int| 0 <= i < 16 ==> component_fits(#[trigger] t[i])
                &&& exists|i: int| 0 <= i < 16 && (#[trigger] t[i]).svn != 0
            }
        },
    }
}

fn optional_string_to_field<const N: usize>(s: &Option<String>, too_long: &'static str) -> (r: Result<
    [u8; N],
    &'static str,
>)
    ensures
        r matches Ok(a) ==> (s.deep_view() matches Some(t) ==> encode_utf8(t).len() <= N) && a@
            == optional_field(s.deep_view(), N as nat),
        r matches Err(e) ==> e == too_long && (s.deep_view() matches Some(t) && encode_utf8(t).len()
            > N),
{
    match s {
        Some(t) => match string_to_field::<N>(t) {
            Some(a) => Ok(a),
            None => Err(too_long),
        },
        None => {
            let a = [0u8; N];
            assert(a@ =~= padded(seq![], N as nat));
            Ok(a)
        },
    }
}

fn component_to_pod(c: &TcbComponentV3, svn: u8) -> (r: Result<TcbComponent, &'static str>)
    requires
        svn == c.svn,
    ensures
        r matches Ok(p) ==> component_pod_error()(c.deep_view()) is None && component_pod_of(
            p,
            c.deep_view(),
        ),
        r matches Err(e) ==> component_pod_error()(c.deep_view()) == Some(e),
{
    let category = optional_string_to_field::<16>(
        &c.category,
        "Category too long for fixed-size array",
    )?;
    let component_type = optional_string_to_field::<64>(
        &c.component_type,
        "Component type too long for fixed-size array",
    )?;
    Ok(TcbComponent { cpusvn: svn, category, component_type })
}

fn bare_component(svn: u8) -> (p: TcbComponent)
    ensures
        component_pod_is_bare(p, svn),
{
    let p = TcbComponent { cpusvn: svn, category: [0u8; 16], component_type: [0u8; 64] };
    assert(p.category@ =~= padded(seq![], 16));
    assert(p.component_type@ =~= padded(seq![], 64));
    p
}

#[verifier::loop_isolation(false)]
fn components_to_pod(components: &Vec<TcbComponentV3>) -> (r: Result<[TcbComponent; 16], &'static str>)
    requires
        components@.len() == 16,
    ensures
        r matches Ok(a) ==> first_error(components.deep_view(), component_pod_error()) is None
            && forall|i: int|
            0 <= i < 16 ==> component_pod_of(#[trigger] a@[i], components.deep_view()[i]),
        r matches Err(e) ==> first_error(components.deep_view(), component_pod_error()) == Some(e),
{
    let ghost cs = components.deep_view();
    let ghost error = component_pod_error();
    let empty = bare_component(0);
    let mut out = [empty; 16];
    let mut i: usize = 0;
    proof {
        lemma_first_error_start(cs, error);
    }
    while i < 16
        invariant
            i <= 16,
            first_error(cs.take(i as int), error) is None,
            forall|j: int| 0 <= j < i ==> component_pod_of(#[trigger] out@[j], cs[j]),
        decreases 16 - i,
    {
        proof {
            lemma_first_error_step(cs, i as int, error);
        }
        assert(cs[i as int] == components@[i as int].deep_view());
        match component_to_pod(&components[i], components[i].svn) {
            Ok(p) => {
                out[i] = p;
            },
            Err(e) => {
                proof {
                    lemma_first_error_stays(cs, i + 1, error, e);
                }
                return Err(e);
            },
        }
        i = i + 1;
    }
    proof {
        lemma_first_error_whole(cs, error);
    }
    Ok(out)
}

#[verifier::loop_isolation(false)]
fn tcb_level_to_pod(tcb_level: &TcbLevel) -> (r: Result<TcbLevelPod, &'static str>)
    requires
        tcb_level.deep_view().tcb.wf(),
    ensures
        r matches Ok(p) ==> tcb_level_pod_error(tcb_level.deep_view()) is None && tcb_level_pod_of(
            p,
            tcb_level.deep_view(),
        ),
        r matches Err(e) ==> tcb_level_pod_error(tcb_level.deep_view()) == Some(e),
{
    let ghost l = tcb_level.deep_view();
    let tcb_status = tcb_level.tcb_status.code();
    let pce_svn = tcb_level.tcb.pcesvn();
    let sgx_components = tcb_level.tcb.sgx_tcb_components();
    let sgx_tcb_components = match &tcb_level.tcb {
        Tcb::V2(t) => {
            let empty = bare_component(0);
            let mut out = [empty; 16];
            let mut i: usize = 0;
            while i < 16
                invariant
                    i <= 16,
                    forall|j: int| 0 <= j < i ==> component_pod_is_bare(#[trigger] out@[j], t.svns()[j]),
                decreases 16 - i,
            {
                out[i] = bare_component(sgx_components[i]);
                i = i + 1;
            }
            out
        },
        Tcb::V3(v3) => components_to_pod(&v3.sgxtcbcomponents)?,
    };
    let tdx_tcb_components = match &tcb_level.tcb {
        Tcb::V3(v3) => match &v3.tdxtcbcomponents {
            Some(c) => components_to_pod(c)?,
            None => {
                let empty = bare_component(0);
                [empty; 16]
            },
        },
        Tcb::V2(_) => {
            let empty = bare_component(0);
            [empty; 16]
        },
    };
    let advisory_ids = advisory_ids_to_pod(&tcb_level.advisory_ids)?;
    let tcb_date = tcb_level.tcb_date as u64;
    let pad1 = [0u8; 4];
    assert(pad1@ =~= padded(seq![], 4));
    Ok(
        TcbLevelPod {
            tcb_status,
            _pad0: 0,
            pce_svn,
            _pad1: pad1,
            tcb_date,
            sgx_tcb_components,
            tdx_tcb_components,
            advisory_ids,
        },
    )
}

impl TcbLevelPod {
    pub fn try_from(tcb_level: TcbLevel) -> (r: Result<Self, &'static str>)
        requires
            tcb_level.deep_view().tcb.wf(),
        ensures
            r matches Ok(p) ==> tcb_level_pod_error(tcb_level.deep_view()) is None
                && tcb_level_pod_of(p, tcb_level.deep_view()),
            r matches Err(e) ==> tcb_level_pod_error(tcb_level.deep_view()) == Some(e),
    {
        tcb_level_to_pod(&tcb_level)
    }
}


fn optional_string_from_field(b: &[u8], invalid: &'static str) -> (r: Result<
    Option<String>,
    &'static str,
>)
    ensures
        r matches Ok(o) ==> o.deep_view() == (if all_zero(b@) {
            None
        } else {
            cstr_text(b@)
        }) && (!all_zero(b@) ==> cstr_text(b@) is Some),
        r matches Err(e) ==> e == invalid && !all_zero(b@) && cstr_text(b@) is None,
{
    if is_all_zero(b) {
        Ok(None)
    } else {
        match cstr_to_string(b) {
            Some(s) => Ok(Some(s)),
            None => Err(invalid),
        }
    }
}

fn component_from_pod_exec(p: &TcbComponent) -> (r: Result<TcbComponentV3, &'static str>)
    ensures
        r matches Ok(c) ==> component_from_pod()(*p) == Ok::<ComponentView, &'static str>(
            c.deep_view(),
        ),
        r matches Err(e) ==> component_from_pod()(*p) == Err::<ComponentView, &'static str>(e),
{
    let category = optional_string_from_field(p.category.as_slice(), "Invalid UTF-8 in category")?;
    let component_type = optional_string_from_field(
        p.component_type.as_slice(),
        "Invalid UTF-8 in component_type",
    )?;
    Ok(TcbComponentV3 { svn: p.cpusvn, category, component_type })
}

#[verifier::loop_isolation(false)]
fn components_from_pod(ps: &[TcbComponent; 16]) -> (r: Result<Vec<TcbComponentV3>, &'static str>)
    ensures
        r matches Ok(cs) ==> decode_kept(ps@, every_component(), component_from_pod()) == Ok::<
            Seq<ComponentView>,
            &'static str,
        >(cs.deep_view()),
        r matches Err(e) ==> decode_kept(ps@, every_component(), component_from_pod()) == Err::<
            Seq<ComponentView>,
            &'static str,
        >(e),
{
    let ghost kept = every_component();
    let ghost decode = component_from_pod();
    let mut out: Vec<TcbComponentV3> = Vec::new();
    let mut i: usize = 0;
    proof {
        lemma_decode_kept_start(ps@, kept, decode);
        assert(out.deep_view() =~= Seq::<ComponentView>::empty());
    }
    while i < 16
        invariant
            i <= 16,
            decode_kept(ps@.take(i as int), kept, decode) == Ok::<Seq<ComponentView>, &'static str>(
                out.deep_view(),
            ),
        decreases 16 - i,
    {
        let ghost prev = out.deep_view();
        proof {
            lemma_decode_kept_step(ps@, i as int, kept, decode);
        }
        match component_from_pod_exec(&ps[i]) {
            Ok(c) => {
                out.push(c);
                assert(out.deep_view() =~= prev.push(c.deep_view()));
            },
            Err(e) => {
                proof {
                    lemma_decode_kept_error_stays(ps@, i + 1, kept, decode, e);
                }
                return Err(e);
            },
        }
        i = i + 1;
    }
    proof {
        lemma_decode_kept_whole(ps@, kept, decode);
    }
    Ok(out)
}

fn has_v3_data_exec(p: &TcbLevelPod) -> (r: bool)
    ensures
        r == has_v3_data(*p),
{
    let mut i: usize = 0;
    while i < 16
        invariant
            i <= 16,
            forall|j: int|
                0 <= j < i ==> all_zero((#[trigger] p.sgx_tcb_components@[j]).category@) && all_zero(
                    p.sgx_tcb_components@[j].component_type@,
                ),
        decreases 16 - i,
    {
        let c = &p.sgx_tcb_components[i];
        if !is_all_zero(c.category.as_slice()) || !is_all_zero(c.component_type.as_slice()) {
            return true;
        }
        i = i + 1;
    }
    false
}

fn has_tdx_data_exec(p: &TcbLevelPod) -> (r: bool)
    ensures
        r == has_tdx_data(*p),
{
    let mut i: usize = 0;
    while i < 16
        invariant
            i <= 16,
            forall|j: int| 0 <= j < i ==> (#[trigger] p.tdx_tcb_components@[j]).cpusvn == 0,
        decreases 16 - i,
    {
        if p.tdx_tcb_components[i].cpusvn != 0 {
            return true;
        }
        i = i + 1;
    }
    false
}

impl TcbLevel {
    pub fn try_from(tcb_level_pod: TcbLevelPod) -> (r: Result<Self, &'static str>)
        ensures
            r matches Ok(l) ==> tcb_level_from_pod(tcb_level_pod) == Ok::<
                TcbLevelView,
                &'static str,
            >(l.deep_view()),
            r matches Err(e) ==> tcb_level_from_pod(tcb_level_pod) == Err::<
                TcbLevelView,
                &'static str,
            >(e),
    {
        let p = &tcb_level_pod;
        let tcb_status = TcbStatus::try_from(p.tcb_status)?;
        let mut advisory_ids: Option<Vec<String>> = None;
        let tcb = if has_v3_data_exec(p) {
            let sgxtcbcomponents = components_from_pod(&p.sgx_tcb_components)?;
            let tdxtcbcomponents = if has_tdx_data_exec(p) {
                Some(components_from_pod(&p.tdx_tcb_components)?)
            } else {
                None
            };
            advisory_ids = advisory_ids_from_pod_exec(&p.advisory_ids)?;
            Tcb::V3(TcbV3 { sgxtcbcomponents, pcesvn: p.pce_svn, tdxtcbcomponents })
        } else {
            let c = &p.sgx_tcb_components;
            Tcb::V2(
                TcbV2 {
                    sgxtcbcomp01svn: c[0].cpusvn,
                    sgxtcbcomp02svn: c[1].cpusvn,
                    sgxtcbcomp03svn: c[2].cpusvn,
                    sgxtcbcomp04svn: c[3].cpusvn,
                    sgxtcbcomp05svn: c[4].cpusvn,
                    sgxtcbcomp06svn: c[5].cpusvn,
                    sgxtcbcomp07svn: c[6].cpusvn,
                    sgxtcbcomp08svn: c[7].cpusvn,
                    sgxtcbcomp09svn: c[8].cpusvn,
                    sgxtcbcomp10svn: c[9].cpusvn,
                    sgxtcbcomp11svn: c[10].cpusvn,
                    sgxtcbcomp12svn: c[11].cpusvn,
                    sgxtcbcomp13svn: c[12].cpusvn,
                    sgxtcbcomp14svn: c[13].cpusvn,
                    sgxtcbcomp15svn: c[14].cpusvn,
                    sgxtcbcomp16svn: c[15].cpusvn,
                    pcesvn: p.pce_svn,
                },
            )
        };
        let tcb_date = p.tcb_date as i64;
        if !utc_timestamp_is_valid(tcb_date) {
            return Err("Invalid tcb_date timestamp");
        }
        Ok(TcbLevel { tcb, tcb_date, tcb_status, advisory_ids })
    }
}

/// An optional string that fits is read back unchanged from its field.
pub proof fn lemma_optional_field_roundtrip(s: Option<Seq<char>>, n: nat)
    requires
        optional_fits(s, n),
    ensures
        all_zero(optional_field(s, n)) <==> s is None,
        !all_zero(optional_field(s, n)) ==> cstr_text(optional_field(s, n)) == s,
{
    match s {
        Some(t) => {
            lemma_cstr_text_roundtrip(t, n);
        },
        None => {
            let f = padded(Seq::<u8>::empty(), n);
            assert forall|i: int| 0 <= i < f.len() implies f[i] == 0 by {
                assert(f[i] == zeros(n)[i]);
            }
        },
    }
}

/// A component that fits is read back unchanged from its fixed layout.
pub proof fn lemma_component_roundtrip(c: ComponentView, p: TcbComponent)
    requires
        component_fits(c),
        component_pod_of(p, c),
    ensures
        component_pod_error()(c) is None,
        component_from_pod()(p) == Ok::<ComponentView, &'static str>(c),
{
    lemma_optional_field_roundtrip(c.category, 16);
    lemma_optional_field_roundtrip(c.component_type, 64);
}

pub proof fn lemma_bare_component(p: TcbComponent, svn: u8)
    requires
        component_pod_is_bare(p, svn),
    ensures
        all_zero(p.category@),
        all_zero(p.component_type@),
{
    lemma_optional_field_roundtrip(None, 16);
    lemma_optional_field_roundtrip(None, 64);
}

proof fn lemma_components_roundtrip(cs: Seq<ComponentView>, ps: Seq<TcbComponent>)
    requires
        cs.len() == 16,
        ps.len() == 16,
        forall|i: int| 0 <= i < 16 ==> component_fits(#[trigger] cs[i]),
        forall|i: int| 0 <= i < 16 ==> component_pod_of(#[trigger] ps[i], cs[i]),
    ensures
        first_error(cs, component_pod_error()) is None,
        decode_kept(ps, every_component(), component_from_pod()) == Ok::<
            Seq<ComponentView>,
            &'static str,
        >(cs),
{
    assert forall|i: int| 0 <= i < cs.len() implies (#[trigger] component_pod_error()(
        cs[i],
    )) is None by {
        lemma_component_roundtrip(cs[i], ps[i]);
    }
    lemma_first_error_none(cs, component_pod_error());
    assert forall|i: int| 0 <= i < cs.len() implies #[trigger] every_component()(ps[i])
        && component_from_pod()(ps[i]) == Ok::<ComponentView, &'static str>(cs[i]) by {
        lemma_component_roundtrip(cs[i], ps[i]);
    }
    lemma_decode_kept_exact(ps, cs, every_component(), component_from_pod());
}

/// A platform TCB level that fits is read back unchanged from its fixed
/// layout.
pub proof fn lemma_tcb_level_roundtrip(l: TcbLevelView, p: TcbLevelPod)
    requires
        tcb_level_fits(l),
        tcb_level_pod_of(p, l),
    ensures
        tcb_level_pod_error(l) is None,
        tcb_level_from_pod(p) == Ok::<TcbLevelView, &'static str>(l),
{
    lemma_timestamp_roundtrip(l.tcb_date);
    lemma_advisory_ids_roundtrip(p.advisory_ids, l.advisory_ids);
    match l.tcb {
        TcbView::V2(t) => {
            assert forall|i: int| 0 <= i < 16 implies all_zero(
                (#[trigger] p.sgx_tcb_components@[i]).category@,
            ) && all_zero(p.sgx_tcb_components@[i].component_type@) by {
                lemma_bare_component(p.sgx_tcb_components@[i], t.svns()[i]);
            }
            assert(!has_v3_data(p));
            assert(p.sgx_tcb_components@[0].cpusvn == t.svns()[0]);
            assert(p.sgx_tcb_components@[1].cpusvn == t.svns()[1]);
            assert(p.sgx_tcb_components@[2].cpusvn == t.svns()[2]);
            assert(p.sgx_tcb_components@[3].cpusvn == t.svns()[3]);
            assert(p.sgx_tcb_components@[4].cpusvn == t.svns()[4]);
            assert(p.sgx_tcb_components@[5].cpusvn == t.svns()[5]);
            assert(p.sgx_tcb_components@[6].cpusvn == t.svns()[6]);
            assert(p.sgx_tcb_components@[7].cpusvn == t.svns()[7]);
            assert(p.sgx_tcb_components@[8].cpusvn == t.svns()[8]);
            assert(p.sgx_tcb_components@[9].cpusvn == t.svns()[9]);
            assert(p.sgx_tcb_components@[10].cpusvn == t.svns()[10]);
            assert(p.sgx_tcb_components@[11].cpusvn == t.svns()[11]);
            assert(p.sgx_tcb_components@[12].cpusvn == t.svns()[12]);
            assert(p.sgx_tcb_components@[13].cpusvn == t.svns()[13]);
            assert(p.sgx_tcb_components@[14].cpusvn == t.svns()[14]);
            assert(p.sgx_tcb_components@[15].cpusvn == t.svns()[15]);
            assert(tcb_v2_from_pod(p) == t);
        },
        TcbView::V3 { sgx, pcesvn, tdx } => {
            let k = choose|i: int|
                0 <= i < 16 && ((#[trigger] sgx[i]).category is Some || sgx[i].component_type is Some);
            assert(component_pod_of(p.sgx_tcb_components@[k], sgx[k]));
            lemma_component_roundtrip(sgx[k], p.sgx_tcb_components@[k]);
            lemma_optional_field_roundtrip(sgx[k].category, 16);
            lemma_optional_field_roundtrip(sgx[k].component_type, 64);
            assert(has_v3_data(p));
            assert forall|i: int| 0 <= i < 16 implies component_pod_of(
                #[trigger] p.sgx_tcb_components@[i],
                sgx[i],
            ) by {}
            lemma_components_roundtrip(sgx, p.sgx_tcb_components@);
            match tdx {
                Some(t) => {
                    let j = choose|i: int| 0 <= i < 16 && (#[trigger] t[i]).svn != 0;
                    assert(component_pod_of(p.tdx_tcb_components@[j], t[j]));
                    assert(has_tdx_data(p));
                    assert forall|i: int| 0 <= i < 16 implies component_pod_of(
                        #[trigger] p.tdx_tcb_components@[i],
                        t[i],
                    ) by {}
                    lemma_components_roundtrip(t, p.tdx_tcb_components@);
                },
                None => {
                    assert forall|i: int| 0 <= i < 16 implies (
                    #[trigger] p.tdx_tcb_components@[i]).cpusvn == 0 by {
                        assert(component_pod_is_bare(p.tdx_tcb_components@[i], 0));
                    }
                    assert(!has_tdx_data(p));
                },
            }
        },
    }
}


// ---------------------------------------------------------------------------
// TCB info
// ---------------------------------------------------------------------------

/// The layout of an absent TDX module: every field zero.
pub open spec fn tdx_module_pod_is_empty(p: TdxModulePod) -> bool {
    &&& p.mrsigner_hex@ == padded(seq![], 96)
    &&& p.attributes_hex@ == padded(seq![], 16)
    &&& p.attributes_mask_hex@ == padded(seq![], 16)
}

/// The entry of an unused TDX module identity: every field zero.
pub open spec fn tdx_module_identity_pod_is_empty(p: TdxModuleIdentityPod) -> bool {
    &&& p.id@ == padded(seq![], 12)
    &&& p.mrsigner_hex@ == padded(seq![], 96)
    &&& p._pad@ == padded(seq![], 4)
    &&& p.attributes_hex@ == padded(seq![], 16)
    &&& p.attributes_mask_hex@ == padded(seq![], 16)
    &&& forall|i: int|
        0 <= i < TDX_MODULE_TCB_MAX_LEVEL_SIZE ==> tdx_tcb_level_pod_is_empty(
            #[trigger] p.tcb_levels@[i],
        )
}

/// The entry of an unused platform TCB level: every field zero.
pub open spec fn tcb_level_pod_is_empty(p: TcbLevelPod) -> bool {
    &&& p.tcb_status == 0
    &&& p._pad0 == 0
    &&& p.pce_svn == 0
    &&& p._pad1@ == padded(seq![], 4)
    &&& p.tcb_date == 0
    &&& forall|i: int| 0 <= i < 16 ==> component_pod_is_bare(#[trigger] p.sgx_tcb_components@[i], 0)
    &&& forall|i: int| 0 <= i < 16 ==> component_pod_is_bare(#[trigger] p.tdx_tcb_components@[i], 0)
    &&& advisory_ids_pod_of(p.advisory_ids, None)
}

/// The error, if any, of writing one TDX module identity.
pub open spec fn tdx_module_identity_error() -> spec_fn(TdxModuleIdentityView) -> Option<
    &'static str,
> {
    |m: TdxModuleIdentityView| tdx_module_identity_pod_error(m)
}

/// The error, if any, of writing one platform TCB level.
pub open spec fn tcb_level_error() -> spec_fn(TcbLevelView) -> Option<&'static str> {
    |l: TcbLevelView| tcb_level_pod_error(l)
}

/// Why a TCB info has no fixed layout: the first check of the conversion
/// that fails.
pub open spec fn tcb_info_pod_error(m: TcbInfoView) -> Option<&'static str> {
    if encode_utf8(m.pce_id).len() > 4 {
        Some("PCE ID too long for fixed-size array")
    } else if encode_utf8(m.fmspc).len() > 12 {
        Some("FMSPC too long for fixed-size array")
    } else if m.tdx_module matches Some(t) && tdx_module_pod_error(t) is Some {
        tdx_module_pod_error(m.tdx_module->0)
    } else if m.tdx_module_identities matches Some(v) && v.len() > TDX_MODULE_TCB_MAX_LEVEL_SIZE {
        Some("TDX Module Identities exceeded TDX_MODULE_TCB_MAX_LEVEL_SIZE")
    } else if m.tdx_module_identities matches Some(v) && first_error(
        v,
        tdx_module_identity_error(),
    ) is Some {
        first_error(m.tdx_module_identities->0, tdx_module_identity_error())
    } else if m.tcb_levels.len() > TCB_MAX_LEVEL_SIZE {
        Some("TCB Levels exceeded TCB_MAX_LEVEL_SIZE")
    } else {
        first_error(m.tcb_levels, tcb_level_error())
    }
}

/// What the conversion to the fixed layout asks of a TCB info: an ID of at
/// most six bytes, and TCB levels of the shape their types give them.
pub open spec fn tcb_info_pod_requires(m: TcbInfoView) -> bool {
    &&& m.id matches Some(id) ==> encode_utf8(id).len() <= 6
    &&& forall|i: int| 0 <= i < m.tcb_levels.len() ==> (#[trigger] m.tcb_levels[i]).tcb.wf()
}

/// `p` is the fixed layout of the TCB info `m`.
pub open spec fn tcb_info_pod_of(p: TcbInfoPod, m: TcbInfoView) -> bool {
    &&& p.pceid_hex@ == padded(encode_utf8(m.pce_id), 4)
    &&& p.id@ == optional_field(m.id, 6)
    &&& p.fmspc_hex@ == padded(encode_utf8(m.fmspc), 12)
    &&& p.tcb_type == m.tcb_type
    &&& p._pad0 == 0
    &&& p.version == m.version.spec_number()
    &&& p._pad1@ == padded(seq![], 4)
    &&& p.issued_timestamp == m.issue_date as u64
    &&& p.next_update_timestamp == m.next_update as u64
    &&& p.tcb_evaluation_data_number == m.tcb_evaluation_data_number
    &&& p._pad2@ == padded(seq![], 4)
    &&& match m.tdx_module {
        Some(t) => tdx_module_pod_of(p.tdx_module, t),
        None => tdx_module_pod_is_empty(p.tdx_module),
    }
    &&& forall|i: int|
        0 <= i < TDX_MODULE_TCB_MAX_LEVEL_SIZE ==> if m.tdx_module_identities matches Some(v) && i
            < v.len() {
            tdx_module_identity_pod_of(
                #[trigger] p.tdx_module_identities@[i],
                m.tdx_module_identities->0[i],
            )
        } else {
            tdx_module_identity_pod_is_empty(p.tdx_module_identities@[i])
        }
    &&& forall|i: int|
        0 <= i < TCB_MAX_LEVEL_SIZE ==> if i < m.tcb_levels.len() {
            tcb_level_pod_of(#[trigger] p.tcb_levels@[i], m.tcb_levels[i])
        } else {
            tcb_level_pod_is_empty(p.tcb_levels@[i])
        }
}

/// The TDX module layout holds nothing: all of its fields are zero.
pub open spec fn tdx_module_pod_blank(p: TdxModulePod) -> bool {
    &&& all_zero(p.mrsigner_hex@)
    &&& all_zero(p.attributes_hex@)
    &&& all_zero(p.attributes_mask_hex@)
}

/// The TDX module identity layout holds nothing: its ID, MRSIGNER,
/// attributes and attributes mask are zero (its TCB levels are not looked at).
pub open spec fn tdx_module_identity_pod_blank(p: TdxModuleIdentityPod) -> bool {
    &&& all_zero(p.id@)
    &&& all_zero(p.mrsigner_hex@)
    &&& all_zero(p.attributes_hex@)
    &&& all_zero(p.attributes_mask_hex@)
}

/// Some TDX module identity entry holds something.
pub open spec fn tdx_module_identities_pod_have_data(
    ps: [TdxModuleIdentityPod; TDX_MODULE_TCB_MAX_LEVEL_SIZE],
) -> bool {
    exists|i: int|
        0 <= i < TDX_MODULE_TCB_MAX_LEVEL_SIZE && !tdx_module_identity_pod_blank(
            #[trigger] ps@[i],
        )
}

pub open spec fn tdx_module_identity_kept() -> spec_fn(TdxModuleIdentityPod) -> bool {
    |p: TdxModuleIdentityPod| !tdx_module_identity_pod_blank(p)
}

pub open spec fn tdx_module_identity_decode() -> spec_fn(TdxModuleIdentityPod) -> Result<
    TdxModuleIdentityView,
    &'static str,
> {
    |p: TdxModuleIdentityPod| tdx_module_identity_from_pod(p)
}

pub open spec fn tcb_level_kept() -> spec_fn(TcbLevelPod) -> bool {
    |p: TcbLevelPod| p.tcb_date > 0
}

pub open spec fn tcb_level_decode() -> spec_fn(TcbLevelPod) -> Result<TcbLevelView, &'static str> {
    |p: TcbLevelPod| tcb_level_from_pod(p)
}

/// The TCB info ID that a layout holds: none where its first byte is zero.
pub open spec fn tcb_info_id_from_pod(f: Seq<u8>) -> Result<Option<Seq<char>>, &'static str> {
    if nul_pos(f) > 0 {
        match cstr_text(f) {
            None => Err("Invalid UTF-8 in ID"),
            Some(s) => Ok(Some(s)),
        }
    } else {
        Ok(None)
    }
}

/// The TDX module identities that a layout holds.
pub open spec fn tdx_module_identities_from_pod(
    ps: [TdxModuleIdentityPod; TDX_MODULE_TCB_MAX_LEVEL_SIZE],
) -> Result<Option<Seq<TdxModuleIdentityView>>, &'static str> {
    if tdx_module_identities_pod_have_data(ps) {
        match decode_kept(ps@, tdx_module_identity_kept(), tdx_module_identity_decode()) {
            Err(e) => Err(e),
            Ok(v) => Ok(
                if v.len() == 0 {
                    None
                } else {
                    Some(v)
                },
            ),
        }
    } else {
        Ok(None)
    }
}

/// The TCB info that a fixed layout holds, or why it holds none.
pub open spec fn tcb_info_from_pod(p: TcbInfoPod) -> Result<TcbInfoView, &'static str> {
    let pce_id = cstr_text(p.pceid_hex@);
    let id = tcb_info_id_from_pod(p.id@);
    let fmspc = cstr_text(p.fmspc_hex@);
    let version = TcbInfoVersion::spec_try_from(p.version);
    let tdx_module = if !tdx_module_pod_blank(p.tdx_module) {
        match tdx_module_from_pod(p.tdx_module) {
            Err(e) => Err(e),
            Ok(t) => Ok(Some(t)),
        }
    } else {
        Ok(None)
    };
    let identities = tdx_module_identities_from_pod(p.tdx_module_identities);
    let levels = decode_kept(p.tcb_levels@, tcb_level_kept(), tcb_level_decode());
    if pce_id is None {
        Err("Invalid UTF-8 in PCE ID")
    } else if id is Err {
        Err(id->Err_0)
    } else if fmspc is None {
        Err("Invalid UTF-8 in FMSPC")
    } else if version is Err {
        Err(version->Err_0)
    } else if !utc_timestamp_in_range(p.issued_timestamp as i64) {
        Err("Invalid issue date timestamp")
    } else if !utc_timestamp_in_range(p.next_update_timestamp as i64) {
        Err("Invalid next update timestamp")
    } else if tdx_module is Err {
        Err(tdx_module->Err_0)
    } else if identities is Err {
        Err(identities->Err_0)
    } else if levels is Err {
        Err(levels->Err_0)
    } else {
        Ok(
            TcbInfoView {
                id: id->Ok_0,
                version: version->Ok_0,
                issue_date: p.issued_timestamp as i64,
                next_update: p.next_update_timestamp as i64,
                fmspc: fmspc->0,
                pce_id: pce_id->0,
                tcb_type: p.tcb_type,
                tcb_evaluation_data_number: p.tcb_evaluation_data_number,
                tdx_module: tdx_module->Ok_0,
                tdx_module_identities: identities->Ok_0,
                tcb_levels: levels->Ok_0,
            },
        )
    }
}

/// A TCB info that is read back unchanged from its fixed layout: its strings
/// fit their fields (an ID is non-empty), its dates are ones chrono accepts, a
/// TDX module has some non-empty string, there are one to four TDX module
/// identities, each fitting and with some non-empty string, and at most
/// fifteen TCB levels, each fitting and dated other than the epoch.
pub open spec fn tcb_info_fits(m: TcbInfoView) -> bool {
    &&& fits_field(m.pce_id, 4)
    &&& optional_fits(m.id, 6)
    &&& fits_field(m.fmspc, 12)
    &&& utc_timestamp_in_range(m.issue_date)
    &&& utc_timestamp_in_range(m.next_update)
    &&& m.tdx_module matches Some(t) ==> tdx_module_fits(t) && (t.mrsigner.len() > 0
        || t.attributes.len() > 0 || t.attributes_mask.len() > 0)
    &&& m.tdx_module_identities matches Some(v) ==> {
        &&& 0 < v.len() <= TDX_MODULE_TCB_MAX_LEVEL_SIZE
        &&& forall|i: int|
            0 <= i < v.len() ==> tdx_module_identity_fits(#[trigger] v[i]) && (v[i].id.len() > 0
                || v[i].mrsigner.len() > 0 || v[i].attributes.len() > 0
                || v[i].attributes_mask.len() > 0)
    }
    &&& m.tcb_levels.len() <= TCB_MAX_LEVEL_SIZE
    &&& forall|i: int|
        0 <= i < m.tcb_levels.len() ==> (#[trigger] m.tcb_levels[i]).tcb.wf() && tcb_level_fits(
            m.tcb_levels[i],
        ) && m.tcb_levels[i].tcb_date != 0
}

// Executable conversions.

fn empty_tdx_module_pod() -> (p: TdxModulePod)
    ensures
        tdx_module_pod_is_empty(p),
{
    let p = TdxModulePod {
        mrsigner_hex: [0u8; 96],
        attributes_hex: [0u8; 16],
        attributes_mask_hex: [0u8; 16],
    };
    assert(p.mrsigner_hex@ =~= padded(seq![], 96));
    assert(p.attributes_hex@ =~= padded(seq![], 16));
    assert(p.attributes_mask_hex@ =~= padded(seq![], 16));
    p
}

fn empty_tdx_module_identity_pod() -> (p: TdxModuleIdentityPod)
    ensures
        tdx_module_identity_pod_is_empty(p),
{
    let level = empty_tdx_tcb_level_pod();
    let p = TdxModuleIdentityPod {
        id: [0u8; 12],
        mrsigner_hex: [0u8; 96],
        _pad: [0u8; 4],
        attributes_hex: [0u8; 16],
        attributes_mask_hex: [0u8; 16],
        tcb_levels: [level; TDX_MODULE_TCB_MAX_LEVEL_SIZE],
    };
    assert(p.id@ =~= padded(seq![], 12));
    assert(p.mrsigner_hex@ =~= padded(seq![], 96));
    assert(p._pad@ =~= padded(seq![], 4));
    assert(p.attributes_hex@ =~= padded(seq![], 16));
    assert(p.attributes_mask_hex@ =~= padded(seq![], 16));
    p
}

fn empty_tcb_level_pod() -> (p: TcbLevelPod)
    ensures
        tcb_level_pod_is_empty(p),
{
    let component = bare_component(0);
    let p = TcbLevelPod {
        tcb_status: 0,
        _pad0: 0,
        pce_svn: 0,
        _pad1: [0u8; 4],
        tcb_date: 0,
        sgx_tcb_components: [component; 16],
        tdx_tcb_components: [component; 16],
        advisory_ids: [[0u8; 32]; MAX_ADVISORY_IDS_SIZE],
    };
    assert(p._pad1@ =~= padded(seq![], 4));
    assert forall|i: int| 0 <= i < MAX_ADVISORY_IDS_SIZE implies #[trigger] p.advisory_ids@[i]@
        == advisory_id_field(None, i) by {
        assert(p.advisory_ids@[i]@ =~= padded(seq![], 32));
    }
    p
}

#[verifier::loop_isolation(false)]
fn tcb_info_to_pod(tcb_info: &TcbInfo) -> (r: Result<TcbInfoPod, &'static str>)
    requires
        tcb_info_pod_requires(tcb_info.deep_view()),
    ensures
        r matches Ok(p) ==> tcb_info_pod_error(tcb_info.deep_view()) is None && tcb_info_pod_of(
            p,
            tcb_info.deep_view(),
        ),
        r matches Err(e) ==> tcb_info_pod_error(tcb_info.deep_view()) == Some(e),
{
    let ghost m = tcb_info.deep_view();
    let pceid = match string_to_field::<4>(&tcb_info.pce_id) {
        Some(a) => a,
        None => return Err("PCE ID too long for fixed-size array"),
    };
    let id = match optional_string_to_field::<6>(&tcb_info.id, "ID too long for fixed-size array") {
        Ok(a) => a,
        Err(_) => {
            assert(false);
            return Err("ID too long for fixed-size array");
        },
    };
    let fmspc = match string_to_field::<12>(&tcb_info.fmspc) {
        Some(a) => a,
        None => return Err("FMSPC too long for fixed-size array"),
    };
    let version = tcb_info.version.number();
    let issued_timestamp = tcb_info.issue_date as u64;
    let next_update_timestamp = tcb_info.next_update as u64;
    let tdx_module = match &tcb_info.tdx_module {
        Some(t) => match tdx_module_to_pod(t) {
            Ok(p) => p,
            Err(e) => return Err(e),
        },
        None => empty_tdx_module_pod(),
    };
    let empty_identity = empty_tdx_module_identity_pod();
    let mut tdx_module_identities = [empty_identity; TDX_MODULE_TCB_MAX_LEVEL_SIZE];
    match &tcb_info.tdx_module_identities {
        Some(identities) => {
            let ghost v = identities.deep_view();
            let ghost error = tdx_module_identity_error();
            let len = identities.len();
            if len > TDX_MODULE_TCB_MAX_LEVEL_SIZE {
                return Err("TDX Module Identities exceeded TDX_MODULE_TCB_MAX_LEVEL_SIZE");
            }
            let mut i: usize = 0;
            proof {
                lemma_first_error_start(v, error);
            }
            while i < len
                invariant
                    i <= len,
                    first_error(v.take(i as int), error) is None,
                    forall|j: int|
                        0 <= j < TDX_MODULE_TCB_MAX_LEVEL_SIZE ==> if j < i {
                            tdx_module_identity_pod_of(#[trigger] tdx_module_identities@[j], v[j])
                        } else {
                            tdx_module_identity_pod_is_empty(tdx_module_identities@[j])
                        },
                decreases len - i,
            {
                proof {
                    lemma_first_error_step(v, i as int, error);
                }
                assert(v[i as int] == identities@[i as int].deep_view());
                match tdx_module_identity_to_pod(&identities[i]) {
                    Ok(p) => {
                        tdx_module_identities[i] = p;
                    },
                    Err(e) => {
                        proof {
                            lemma_first_error_stays(v, i + 1, error, e);
                        }
                        return Err(e);
                    },
                }
                i = i + 1;
            }
            proof {
                lemma_first_error_whole(v, error);
            }
        },
        None => {},
    }
    let empty_level = empty_tcb_level_pod();
    let mut tcb_levels = [empty_level; TCB_MAX_LEVEL_SIZE];
    let levels = &tcb_info.tcb_levels;
    let len = levels.len();
    if len > TCB_MAX_LEVEL_SIZE {
        return Err("TCB Levels exceeded TCB_MAX_LEVEL_SIZE");
    }
    let ghost lv = levels.deep_view();
    let ghost level_error = tcb_level_error();
    let mut i: usize = 0;
    proof {
        lemma_first_error_start(lv, level_error);
    }
    while i < len
        invariant
            i <= len,
            first_error(lv.take(i as int), level_error) is None,
            forall|j: int|
                0 <= j < TCB_MAX_LEVEL_SIZE ==> if j < i {
                    tcb_level_pod_of(#[trigger] tcb_levels@[j], lv[j])
                } else {
                    tcb_level_pod_is_empty(tcb_levels@[j])
                },
        decreases len - i,
    {
        proof {
            lemma_first_error_step(lv, i as int, level_error);
        }
        assert(lv[i as int] == levels@[i as int].deep_view());
        match tcb_level_to_pod(&levels[i]) {
            Ok(p) => {
                tcb_levels[i] = p;
            },
            Err(e) => {
                proof {
                    lemma_first_error_stays(lv, i + 1, level_error, e);
                }
                return Err(e);
            },
        }
        i = i + 1;
    }
    proof {
        lemma_first_error_whole(lv, level_error);
    }
    let pad1 = [0u8; 4];
    let pad2 = [0u8; 4];
    assert(pad1@ =~= padded(seq![], 4));
    assert(pad2@ =~= padded(seq![], 4));
    Ok(
        TcbInfoPod {
            pceid_hex: pceid,
            id,
            fmspc_hex: fmspc,
            tcb_type: tcb_info.tcb_type,
            _pad0: 0,
            version,
            _pad1: pad1,
            issued_timestamp,
            next_update_timestamp,
            tcb_evaluation_data_number: tcb_info.tcb_evaluation_data_number,
            _pad2: pad2,
            tdx_module,
            tdx_module_identities,
            tcb_levels,
        },
    )
}

impl TcbInfoPod {
    pub fn try_from(tcb_info: TcbInfo) -> (r: Result<Self, &'static str>)
        requires
            tcb_info_pod_requires(tcb_info.deep_view()),
        ensures
            r matches Ok(p) ==> tcb_info_pod_error(tcb_info.deep_view()) is None && tcb_info_pod_of(
                p,
                tcb_info.deep_view(),
            ),
            r matches Err(e) ==> tcb_info_pod_error(tcb_info.deep_view()) == Some(e),
    {
        tcb_info_to_pod(&tcb_info)
    }
}

impl TcbPod {
    pub fn try_from(tcb_info_json_parsed: TcbInfoAndSignature) -> (r: Result<Self, &'static str>)
        requires
            tcb_info_pod_requires(tcb_info_json_parsed.tcb_info.deep_view()),
            tcb_info_json_parsed.signature@.len() == 64,
        ensures
            r matches Ok(p) ==> tcb_info_pod_error(tcb_info_json_parsed.tcb_info.deep_view()) is None
                && tcb_info_pod_of(p.tcb_info, tcb_info_json_parsed.tcb_info.deep_view())
                && p.signature@ == tcb_info_json_parsed.signature@,
            r matches Err(e) ==> tcb_info_pod_error(tcb_info_json_parsed.tcb_info.deep_view())
                == Some(e),
    {
        let tcb_info = tcb_info_to_pod(&tcb_info_json_parsed.tcb_info)?;
        let signature = copy_padded::<64>(tcb_info_json_parsed.signature.as_slice());
        assert(signature@ =~= tcb_info_json_parsed.signature@);
        Ok(TcbPod { tcb_info, signature })
    }
}


/// Whether every field of a TDX module layout is zero.
pub fn tdx_module_is_empty(module: &TdxModulePod) -> (r: bool)
    ensures
        r == tdx_module_pod_blank(*module),
{
    is_all_zero(module.mrsigner_hex.as_slice()) && is_all_zero(module.attributes_hex.as_slice())
        && is_all_zero(module.attributes_mask_hex.as_slice())
}

/// Whether some TDX module identity entry holds something.
pub fn tdx_module_identities_has_data(
    identities: &[TdxModuleIdentityPod; TDX_MODULE_TCB_MAX_LEVEL_SIZE],
) -> (r: bool)
    ensures
        r == tdx_module_identities_pod_have_data(*identities),
{
    let mut i: usize = 0;
    while i < TDX_MODULE_TCB_MAX_LEVEL_SIZE
        invariant
            i <= TDX_MODULE_TCB_MAX_LEVEL_SIZE,
            forall|j: int| 0 <= j < i ==> tdx_module_identity_pod_blank(#[trigger] identities@[j]),
        decreases TDX_MODULE_TCB_MAX_LEVEL_SIZE - i,
    {
        if !tdx_module_identity_is_empty(&identities[i]) {
            return true;
        }
        i = i + 1;
    }
    false
}

/// Whether the ID, MRSIGNER, attributes and attributes mask of a TDX module
/// identity layout are all zero.
pub fn tdx_module_identity_is_empty(identity: &TdxModuleIdentityPod) -> (r: bool)
    ensures
        r == tdx_module_identity_pod_blank(*identity),
{
    is_all_zero(identity.id.as_slice()) && is_all_zero(identity.mrsigner_hex.as_slice())
        && is_all_zero(identity.attributes_hex.as_slice()) && is_all_zero(
        identity.attributes_mask_hex.as_slice(),
    )
}

#[verifier::loop_isolation(false)]
fn tdx_module_identities_from_pod_exec(
    ps: &[TdxModuleIdentityPod; TDX_MODULE_TCB_MAX_LEVEL_SIZE],
) -> (r: Result<Option<Vec<TdxModuleIdentity>>, &'static str>)
    ensures
        r matches Ok(v) ==> tdx_module_identities_from_pod(*ps) == Ok::<
            Option<Seq<TdxModuleIdentityView>>,
            &'static str,
        >(v.deep_view()),
        r matches Err(e) ==> tdx_module_identities_from_pod(*ps) == Err::<
            Option<Seq<TdxModuleIdentityView>>,
            &'static str,
        >(e),
{
    if !tdx_module_identities_has_data(ps) {
        return Ok(None);
    }
    let ghost kept = tdx_module_identity_kept();
    let ghost decode = tdx_module_identity_decode();
    let mut identities: Vec<TdxModuleIdentity> = Vec::new();
    let mut i: usize = 0;
    proof {
        lemma_decode_kept_start(ps@, kept, decode);
        assert(identities.deep_view() =~= Seq::<TdxModuleIdentityView>::empty());
    }
    while i < TDX_MODULE_TCB_MAX_LEVEL_SIZE
        invariant
            i <= TDX_MODULE_TCB_MAX_LEVEL_SIZE,
            decode_kept(ps@.take(i as int), kept, decode) == Ok::<
                Seq<TdxModuleIdentityView>,
                &'static str,
            >(identities.deep_view()),
        decreases TDX_MODULE_TCB_MAX_LEVEL_SIZE - i,
    {
        let ghost prev = identities.deep_view();
        proof {
            lemma_decode_kept_step(ps@, i as int, kept, decode);
        }
        if !tdx_module_identity_is_empty(&ps[i]) {
            match TdxModuleIdentity::try_from(ps[i]) {
                Ok(identity) => {
                    identities.push(identity);
                    assert(identities.deep_view() =~= prev.push(identity.deep_view()));
                },
                Err(e) => {
                    proof {
                        lemma_decode_kept_error_stays(ps@, i + 1, kept, decode, e);
                    }
                    return Err(e);
                },
            }
        }
        i = i + 1;
    }
    proof {
        lemma_decode_kept_whole(ps@, kept, decode);
    }
    if identities.len() == 0 {
        Ok(None)
    } else {
        Ok(Some(identities))
    }
}

#[verifier::loop_isolation(false)]
fn tcb_levels_from_pod(ps: &[TcbLevelPod; TCB_MAX_LEVEL_SIZE]) -> (r: Result<
    Vec<TcbLevel>,
    &'static str,
>)
    ensures
        r matches Ok(v) ==> decode_kept(ps@, tcb_level_kept(), tcb_level_decode()) == Ok::<
            Seq<TcbLevelView>,
            &'static str,
        >(v.deep_view()),
        r matches Err(e) ==> decode_kept(ps@, tcb_level_kept(), tcb_level_decode()) == Err::<
            Seq<TcbLevelView>,
            &'static str,
        >(e),
{
    let ghost kept = tcb_level_kept();
    let ghost decode = tcb_level_decode();
    let mut levels: Vec<TcbLevel> = Vec::new();
    let mut i: usize = 0;
    proof {
        lemma_decode_kept_start(ps@, kept, decode);
        assert(levels.deep_view() =~= Seq::<TcbLevelView>::empty());
    }
    while i < TCB_MAX_LEVEL_SIZE
        invariant
            i <= TCB_MAX_LEVEL_SIZE,
            decode_kept(ps@.take(i as int), kept, decode) == Ok::<Seq<TcbLevelView>, &'static str>(
                levels.deep_view(),
            ),
        decreases TCB_MAX_LEVEL_SIZE - i,
    {
        let ghost prev = levels.deep_view();
        proof {
            lemma_decode_kept_step(ps@, i as int, kept, decode);
        }
        if ps[i].tcb_date > 0 {
            match TcbLevel::try_from(ps[i]) {
                Ok(level) => {
                    levels.push(level);
                    assert(levels.deep_view() =~= prev.push(level.deep_view()));
                },
                Err(e) => {
                    proof {
                        lemma_decode_kept_error_stays(ps@, i + 1, kept, decode, e);
                    }
                    return Err(e);
                },
            }
        }
        i = i + 1;
    }
    proof {
        lemma_decode_kept_whole(ps@, kept, decode);
    }
    Ok(levels)
}

impl TcbInfo {
    pub fn try_from(tcb_info_pod: TcbInfoPod) -> (r: Result<Self, &'static str>)
        ensures
            r matches Ok(m) ==> tcb_info_from_pod(tcb_info_pod) == Ok::<TcbInfoView, &'static str>(
                m.deep_view(),
            ),
            r matches Err(e) ==> tcb_info_from_pod(tcb_info_pod) == Err::<TcbInfoView, &'static str>(
                e,
            ),
    {
        let p = &tcb_info_pod;
        let pce_id = match cstr_to_string(p.pceid_hex.as_slice()) {
            Some(s) => s,
            None => return Err("Invalid UTF-8 in PCE ID"),
        };
        let null_pos = nul_position(p.id.as_slice());
        let id = if null_pos > 0 {
            match cstr_to_string(p.id.as_slice()) {
                Some(s) => Some(s),
                None => return Err("Invalid UTF-8 in ID"),
            }
        } else {
            None
        };
        let fmspc = match cstr_to_string(p.fmspc_hex.as_slice()) {
            Some(s) => s,
            None => return Err("Invalid UTF-8 in FMSPC"),
        };
        let version = TcbInfoVersion::try_from(p.version)?;
        let issue_date = p.issued_timestamp as i64;
        if !utc_timestamp_is_valid(issue_date) {
            return Err("Invalid issue date timestamp");
        }
        let next_update = p.next_update_timestamp as i64;
        if !utc_timestamp_is_valid(next_update) {
            return Err("Invalid next update timestamp");
        }
        let tdx_module = if !tdx_module_is_empty(&p.tdx_module) {
            Some(TdxModule::try_from(p.tdx_module)?)
        } else {
            None
        };
        let tdx_module_identities = tdx_module_identities_from_pod_exec(&p.tdx_module_identities)?;
        let tcb_levels = tcb_levels_from_pod(&p.tcb_levels)?;
        Ok(
            TcbInfo {
                id,
                version,
                issue_date,
                next_update,
                fmspc,
                pce_id,
                tcb_type: p.tcb_type,
                tcb_evaluation_data_number: p.tcb_evaluation_data_number,
                tdx_module,
                tdx_module_identities,
                tcb_levels,
            },
        )
    }
}


pub proof fn lemma_zero_field(n: nat)
    ensures
        all_zero(padded(seq![], n)),
        nul_pos(padded(seq![], n)) == 0,
{
    let f = padded(Seq::<u8>::empty(), n);
    assert forall|i: int| 0 <= i < f.len() implies f[i] == 0 by {
        assert(f[i] == zeros(n)[i]);
    }
    lemma_nul_pos_unique(f, 0);
}

/// A TCB info ID that fits is read back unchanged from its field.
proof fn lemma_tcb_info_id_roundtrip(id: Option<Seq<char>>)
    requires
        optional_fits(id, 6),
    ensures
        tcb_info_id_from_pod(optional_field(id, 6)) == Ok::<Option<Seq<char>>, &'static str>(id),
{
    match id {
        Some(t) => {
            lemma_cstr_text_roundtrip(t, 6);
            lemma_until_nul_padded(encode_utf8(t), 6);
            lemma_encode_utf8_empty(t);
        },
        None => {
            lemma_zero_field(6);
        },
    }
}

proof fn lemma_tdx_module_identity_pod_empty_blank(p: TdxModuleIdentityPod)
    requires
        tdx_module_identity_pod_is_empty(p),
    ensures
        tdx_module_identity_pod_blank(p),
{
    lemma_zero_field(12);
    lemma_zero_field(96);
    lemma_zero_field(16);
}

/// An identity with some non-empty string has an entry that is not blank.
proof fn lemma_tdx_module_identity_pod_not_blank(m: TdxModuleIdentityView, p: TdxModuleIdentityPod)
    requires
        tdx_module_identity_fits(m),
        m.id.len() > 0 || m.mrsigner.len() > 0 || m.attributes.len() > 0 || m.attributes_mask.len()
            > 0,
        tdx_module_identity_pod_of(p, m),
    ensures
        !tdx_module_identity_pod_blank(p),
{
    lemma_cstr_text_roundtrip(m.id, 12);
    lemma_cstr_text_roundtrip(m.mrsigner, 96);
    lemma_cstr_text_roundtrip(m.attributes, 16);
    lemma_cstr_text_roundtrip(m.attributes_mask, 16);
}

proof fn lemma_tdx_module_identities_roundtrip(m: TcbInfoView, p: TcbInfoPod)
    requires
        tcb_info_fits(m),
        tcb_info_pod_of(p, m),
    ensures
        m.tdx_module_identities matches Some(v) ==> first_error(v, tdx_module_identity_error()) is None,
        tdx_module_identities_from_pod(p.tdx_module_identities) == Ok::<
            Option<Seq<TdxModuleIdentityView>>,
            &'static str,
        >(m.tdx_module_identities),
{
    let ps = p.tdx_module_identities@;
    match m.tdx_module_identities {
        Some(v) => {
            assert forall|i: int| 0 <= i < v.len() implies (#[trigger] tdx_module_identity_error()(
                v[i],
            )) is None by {
                assert(tdx_module_identity_fits(v[i]));
                assert(tdx_module_identity_pod_of(ps[i], v[i]));
                lemma_tdx_module_identity_roundtrip(v[i], ps[i]);
            }
            lemma_first_error_none(v, tdx_module_identity_error());
            assert forall|i: int| 0 <= i < v.len() implies #[trigger] tdx_module_identity_kept()(
                ps[i],
            ) && tdx_module_identity_decode()(ps[i]) == Ok::<TdxModuleIdentityView, &'static str>(
                v[i],
            ) by {
                assert(tdx_module_identity_fits(v[i]));
                assert(tdx_module_identity_pod_of(ps[i], v[i]));
                lemma_tdx_module_identity_roundtrip(v[i], ps[i]);
                lemma_tdx_module_identity_pod_not_blank(v[i], ps[i]);
            }
            assert forall|i: int| v.len() <= i < ps.len() implies !#[trigger] tdx_module_identity_kept()(
                ps[i],
            ) by {
                assert(tdx_module_identity_pod_is_empty(ps[i]));
                lemma_tdx_module_identity_pod_empty_blank(ps[i]);
            }
            lemma_decode_kept_exact(ps, v, tdx_module_identity_kept(), tdx_module_identity_decode());
            assert(tdx_module_identity_kept()(ps[0]));
            assert(tdx_module_identities_pod_have_data(p.tdx_module_identities));
        },
        None => {
            assert forall|i: int| 0 <= i < TDX_MODULE_TCB_MAX_LEVEL_SIZE implies tdx_module_identity_pod_blank(
                #[trigger] ps[i],
            ) by {
                assert(tdx_module_identity_pod_is_empty(ps[i]));
                lemma_tdx_module_identity_pod_empty_blank(ps[i]);
            }
        },
    }
}

proof fn lemma_tcb_levels_roundtrip(m: TcbInfoView, p: TcbInfoPod)
    requires
        tcb_info_fits(m),
        tcb_info_pod_of(p, m),
    ensures
        first_error(m.tcb_levels, tcb_level_error()) is None,
        decode_kept(p.tcb_levels@, tcb_level_kept(), tcb_level_decode()) == Ok::<
            Seq<TcbLevelView>,
            &'static str,
        >(m.tcb_levels),
{
    let ls = m.tcb_levels;
    let ps = p.tcb_levels@;
    assert forall|i: int| 0 <= i < ls.len() implies (#[trigger] tcb_level_error()(ls[i])) is None by {
        assert(tcb_level_fits(ls[i]));
        assert(tcb_level_pod_of(ps[i], ls[i]));
        lemma_tcb_level_roundtrip(ls[i], ps[i]);
    }
    lemma_first_error_none(ls, tcb_level_error());
    assert forall|i: int| 0 <= i < ls.len() implies #[trigger] tcb_level_kept()(ps[i])
        && tcb_level_decode()(ps[i]) == Ok::<TcbLevelView, &'static str>(ls[i]) by {
        assert(tcb_level_fits(ls[i]) && ls[i].tcb_date != 0);
        assert(tcb_level_pod_of(ps[i], ls[i]));
        lemma_tcb_level_roundtrip(ls[i], ps[i]);
        lemma_timestamp_nonzero(ls[i].tcb_date);
    }
    assert forall|i: int| ls.len() <= i < ps.len() implies !#[trigger] tcb_level_kept()(ps[i]) by {
        assert(tcb_level_pod_is_empty(ps[i]));
    }
    lemma_decode_kept_exact(ps, ls, tcb_level_kept(), tcb_level_decode());
}

/// Writing a TCB info to the fixed layout and reading it back gives the same
/// TCB info, for every TCB info that fits the layout (`tcb_info_fits`): the
/// conversion to the layout succeeds, and every layout it can produce reads
/// back as the TCB info it was written from.
pub proof fn tcb_info_pod_roundtrip(m: TcbInfoView)
    requires
        tcb_info_fits(m),
    ensures
        tcb_info_pod_error(m) is None,
        forall|p: TcbInfoPod|
            #[trigger] tcb_info_pod_of(p, m) ==> tcb_info_from_pod(p) == Ok::<
                TcbInfoView,
                &'static str,
            >(m),
{
    lemma_cstr_text_roundtrip(m.pce_id, 4);
    lemma_cstr_text_roundtrip(m.fmspc, 12);
    if let Some(t) = m.tdx_module {
        lemma_cstr_text_roundtrip(t.mrsigner, 96);
        lemma_cstr_text_roundtrip(t.attributes, 16);
        lemma_cstr_text_roundtrip(t.attributes_mask, 16);
    }
    assert forall|p: TcbInfoPod| #[trigger] tcb_info_pod_of(p, m) implies tcb_info_from_pod(p)
        == Ok::<TcbInfoView, &'static str>(m) by {
        lemma_tcb_info_id_roundtrip(m.id);
        lemma_timestamp_roundtrip(m.issue_date);
        lemma_timestamp_roundtrip(m.next_update);
        match m.tdx_module {
            Some(t) => {
                lemma_tdx_module_roundtrip(t, p.tdx_module);
            },
            None => {
                lemma_zero_field(96);
                lemma_zero_field(16);
            },
        }
        lemma_tdx_module_identities_roundtrip(m, p);
        lemma_tcb_levels_roundtrip(m, p);
    }
    // The errors of the conversion, checked on any layout it would produce.
    if let Some(t) = m.tdx_module {
        assert(tdx_module_fits(t));
    }
    if let Some(v) = m.tdx_module_identities {
        assert forall|i: int| 0 <= i < v.len() implies (#[trigger] tdx_module_identity_error()(
            v[i],
        )) is None by {
            assert(tdx_module_identity_fits(v[i]));
            lemma_tdx_module_identity_fits_no_error(v[i]);
        }
        lemma_first_error_none(v, tdx_module_identity_error());
    }
    assert forall|i: int| 0 <= i < m.tcb_levels.len() implies (#[trigger] tcb_level_error()(
        m.tcb_levels[i],
    )) is None by {
        assert(tcb_level_fits(m.tcb_levels[i]));
        lemma_tcb_level_fits_no_error(m.tcb_levels[i]);
    }
    lemma_first_error_none(m.tcb_levels, tcb_level_error());
}

/// A TDX module identity that fits has no error.
proof fn lemma_tdx_module_identity_fits_no_error(m: TdxModuleIdentityView)
    requires
        tdx_module_identity_fits(m),
    ensures
        tdx_module_identity_pod_error(m) is None,
{
    assert forall|i: int| 0 <= i < m.tcb_levels.len() implies (#[trigger] tdx_tcb_level_pod_error()(
        m.tcb_levels[i],
    )) is None by {
        assert(tdx_tcb_level_fits(m.tcb_levels[i]));
        lemma_advisory_ids_fit_no_error(m.tcb_levels[i].advisory_ids);
    }
    lemma_first_error_none(m.tcb_levels, tdx_tcb_level_pod_error());
}

/// Advisory IDs that fit have no error.
proof fn lemma_advisory_ids_fit_no_error(ids: Option<Seq<Seq<char>>>)
    requires
        advisory_ids_fit(ids),
    ensures
        advisory_ids_pod_error(ids) is None,
{
    if let Some(v) = ids {
        assert forall|i: int| 0 <= i < v.len() implies !(#[trigger] encode_utf8(v[i]).len() > 32) by {
            assert(fits_field(v[i], 32));
        }
    }
}

/// A platform TCB level that fits has no error.
proof fn lemma_tcb_level_fits_no_error(l: TcbLevelView)
    requires
        tcb_level_fits(l),
    ensures
        tcb_level_pod_error(l) is None,
{
    lemma_advisory_ids_fit_no_error(l.advisory_ids);
    if let TcbView::V3 { sgx, tdx, .. } = l.tcb {
        assert forall|i: int| 0 <= i < sgx.len() implies (#[trigger] component_pod_error()(
            sgx[i],
        )) is None by {
            assert(component_fits(sgx[i]));
        }
        lemma_first_error_none(sgx, component_pod_error());
        if let Some(t) = tdx {
            assert forall|i: int| 0 <= i < t.len() implies (#[trigger] component_pod_error()(
                t[i],
            )) is None by {
                assert(component_fits(t[i]));
            }
            lemma_first_error_none(t, component_pod_error());
        }
    }
}

} // verus!
