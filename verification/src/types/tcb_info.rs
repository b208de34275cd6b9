//! TCB information as Intel publishes it (the JSON form), held as plain values.
//! Dates are UTC UNIX timestamps in whole seconds.
use vstd::prelude::*;

verus! {

/// The format versions of a TCB info structure.
#[derive(Debug, Clone, Copy, PartialEq, Eq, Structural)]
pub enum TcbInfoVersion {
    V2,
    V3,
}

impl TcbInfoVersion {
    pub open spec fn spec_number(self) -> u32 {
        match self {
            TcbInfoVersion::V2 => 2,
            TcbInfoVersion::V3 => 3,
        }
    }

    pub open spec fn spec_try_from(value: u32) -> Result<TcbInfoVersion, &'static str> {
        if value == 2 {
            Ok(TcbInfoVersion::V2)
        } else if value == 3 {
            Ok(TcbInfoVersion::V3)
        } else {
            Err("Invalid TCB Info version")
        }
    }

    /// The version number, as it is written in the JSON form.
    pub fn number(&self) -> (n: u32)
        ensures
            n == self.spec_number(),
    {
        match self {
            TcbInfoVersion::V2 => 2,
            TcbInfoVersion::V3 => 3,
        }
    }

    pub fn try_from(value: u32) -> (r: Result<TcbInfoVersion, &'static str>)
        ensures
            r == Self::spec_try_from(value),
    {
        if value == 2 {
            Ok(TcbInfoVersion::V2)
        } else if value == 3 {
            Ok(TcbInfoVersion::V3)
        } else {
            Err("Invalid TCB Info version")
        }
    }
}

/// The status that a TCB level gives to a platform.
#[derive(Debug, Clone, Copy, PartialEq, Eq, Structural)]
pub enum TcbStatus {
    UpToDate,
    SWHardeningNeeded,
    ConfigurationAndSWHardeningNeeded,
    ConfigurationNeeded,
    OutOfDate,
    OutOfDateConfigurationNeeded,
    Revoked,
}

impl TcbStatus {
    /// The one-byte code of each status in the fixed-layout form.
    pub open spec fn spec_code(self) -> u8 {
        match self {
            TcbStatus::UpToDate => 0,
            TcbStatus::SWHardeningNeeded => 1,
            TcbStatus::ConfigurationAndSWHardeningNeeded => 2,
            TcbStatus::ConfigurationNeeded => 3,
            TcbStatus::OutOfDate => 4,
            TcbStatus::OutOfDateConfigurationNeeded => 5,
            TcbStatus::Revoked => 6,
        }
    }

    pub open spec fn spec_try_from(code: u8) -> Result<TcbStatus, &'static str> {
        if code == 0 {
            Ok(TcbStatus::UpToDate)
        } else if code == 1 {
            Ok(TcbStatus::SWHardeningNeeded)
        } else if code == 2 {
            Ok(TcbStatus::ConfigurationAndSWHardeningNeeded)
        } else if code == 3 {
            Ok(TcbStatus::ConfigurationNeeded)
        } else if code == 4 {
            Ok(TcbStatus::OutOfDate)
        } else if code == 5 {
            Ok(TcbStatus::OutOfDateConfigurationNeeded)
        } else if code == 6 {
            Ok(TcbStatus::Revoked)
        } else {
            Err("Invalid TCB status")
        }
    }

    pub fn code(&self) -> (c: u8)
        ensures
            c == self.spec_code(),
    {
        match self {
            TcbStatus::UpToDate => 0,
            TcbStatus::SWHardeningNeeded => 1,
            TcbStatus::ConfigurationAndSWHardeningNeeded => 2,
            TcbStatus::ConfigurationNeeded => 3,
            TcbStatus::OutOfDate => 4,
            TcbStatus::OutOfDateConfigurationNeeded => 5,
            TcbStatus::Revoked => 6,
        }
    }

    pub fn try_from(code: u8) -> (r: Result<TcbStatus, &'static str>)
        ensures
            r == Self::spec_try_from(code),
    {
        match code {
            0 => Ok(TcbStatus::UpToDate),
            1 => Ok(TcbStatus::SWHardeningNeeded),
            2 => Ok(TcbStatus::ConfigurationAndSWHardeningNeeded),
            3 => Ok(TcbStatus::ConfigurationNeeded),
            4 => Ok(TcbStatus::OutOfDate),
            5 => Ok(TcbStatus::OutOfDateConfigurationNeeded),
            6 => Ok(TcbStatus::Revoked),
            _ => Err("Invalid TCB status"),
        }
    }
}

/// Decoding the code of a status gives the status back.
pub proof fn lemma_tcb_status_code_roundtrip(s: TcbStatus)
    ensures
        TcbStatus::spec_try_from(s.spec_code()) == Ok::<TcbStatus, &'static str>(s),
{
}

/// The sixteen SGX component SVNs and the PCE SVN of a version 2 TCB.
#[derive(Debug, Clone, Copy, PartialEq, Eq, Structural)]
pub struct TcbV2 {
    pub sgxtcbcomp01svn: u8,
    pub sgxtcbcomp02svn: u8,
    pub sgxtcbcomp03svn: u8,
    pub sgxtcbcomp04svn: u8,
    pub sgxtcbcomp05svn: u8,
    pub sgxtcbcomp06svn: u8,
    pub sgxtcbcomp07svn: u8,
    pub sgxtcbcomp08svn: u8,
    pub sgxtcbcomp09svn: u8,
    pub sgxtcbcomp10svn: u8,
    pub sgxtcbcomp11svn: u8,
    pub sgxtcbcomp12svn: u8,
    pub sgxtcbcomp13svn: u8,
    pub sgxtcbcomp14svn: u8,
    pub sgxtcbcomp15svn: u8,
    pub sgxtcbcomp16svn: u8,
    pub pcesvn: u16,
}

impl TcbV2 {
    /// The component SVNs in order.
    pub open spec fn svns(self) -> Seq<u8> {
        seq![
            self.sgxtcbcomp01svn,
            self.sgxtcbcomp02svn,
            self.sgxtcbcomp03svn,
            self.sgxtcbcomp04svn,
            self.sgxtcbcomp05svn,
            self.sgxtcbcomp06svn,
            self.sgxtcbcomp07svn,
            self.sgxtcbcomp08svn,
            self.sgxtcbcomp09svn,
            self.sgxtcbcomp10svn,
            self.sgxtcbcomp11svn,
            self.sgxtcbcomp12svn,
            self.sgxtcbcomp13svn,
            self.sgxtcbcomp14svn,
            self.sgxtcbcomp15svn,
            self.sgxtcbcomp16svn,
        ]
    }
}

/// One component of a version 3 TCB.
#[derive(Debug, Clone, PartialEq, Eq)]
pub struct TcbComponentV3 {
    pub svn: u8,
    pub category: Option<String>,
    pub component_type: Option<String>,
}

pub struct ComponentView {
    pub svn: u8,
    pub category: Option<Seq<char>>,
    pub component_type: Option<Seq<char>>,
}

impl DeepView for TcbComponentV3 {
    type V = ComponentView;

    open spec fn deep_view(&self) -> ComponentView {
        ComponentView {
            svn: self.svn,
            category: self.category.deep_view(),
            component_type: self.component_type.deep_view(),
        }
    }
}

/// A version 3 TCB: sixteen SGX components, the PCE SVN and, for TDX,
/// sixteen TDX components.
#[derive(Debug, Clone, PartialEq, Eq)]
pub struct TcbV3 {
    pub sgxtcbcomponents: Vec<TcbComponentV3>,
    pub pcesvn: u16,
    pub tdxtcbcomponents: Option<Vec<TcbComponentV3>>,
}

#[derive(Debug, Clone, PartialEq, Eq)]
pub enum Tcb {
    V2(TcbV2),
    V3(TcbV3),
}

pub enum TcbView {
    V2(TcbV2),
    V3 { sgx: Seq<ComponentView>, pcesvn: u16, tdx: Option<Seq<ComponentView>> },
}

impl DeepView for Tcb {
    type V = TcbView;

    open spec fn deep_view(&self) -> TcbView {
        match self {
            Tcb::V2(t) => TcbView::V2(*t),
            Tcb::V3(t) => TcbView::V3 {
                sgx: t.sgxtcbcomponents.deep_view(),
                pcesvn: t.pcesvn,
                tdx: t.tdxtcbcomponents.deep_view(),
            },
        }
    }
}

impl TcbView {
    /// A version 3 TCB has sixteen SGX components and, where it has TDX
    /// components, sixteen of those.
    pub open spec fn wf(self) -> bool {
        match self {
            TcbView::V2(_) => true,
            TcbView::V3 { sgx, tdx, .. } => sgx.len() == 16 && (tdx matches Some(t) ==> t.len()
                == 16),
        }
    }

    pub open spec fn pcesvn(self) -> u16 {
        match self {
            TcbView::V2(t) => t.pcesvn,
            TcbView::V3 { pcesvn, .. } => pcesvn,
        }
    }

    pub open spec fn sgx_svns(self) -> Seq<u8> {
        match self {
            TcbView::V2(t) => t.svns(),
            TcbView::V3 { sgx, .. } => sgx.map_values(|c: ComponentView| c.svn),
        }
    }

    pub open spec fn tdx_svns(self) -> Option<Seq<u8>> {
        match self {
            TcbView::V3 { tdx: Some(t), .. } => Some(t.map_values(|c: ComponentView| c.svn)),
            _ => None,
        }
    }
}

impl Tcb {
    pub fn pcesvn(&self) -> (r: u16)
        ensures
            r == self.deep_view().pcesvn(),
    {
        match self {
            Tcb::V2(t) => t.pcesvn,
            Tcb::V3(t) => t.pcesvn,
        }
    }

    /// The SVNs of the SGX components, in order.
    pub fn sgx_tcb_components(&self) -> (r: [u8; 16])
        requires
            self.deep_view().wf(),
        ensures
            r@ == self.deep_view().sgx_svns(),
    {
        match self {
            Tcb::V2(t) => {
                let r = [
                    t.sgxtcbcomp01svn,
                    t.sgxtcbcomp02svn,
                    t.sgxtcbcomp03svn,
                    t.sgxtcbcomp04svn,
                    t.sgxtcbcomp05svn,
                    t.sgxtcbcomp06svn,
                    t.sgxtcbcomp07svn,
                    t.sgxtcbcomp08svn,
                    t.sgxtcbcomp09svn,
                    t.sgxtcbcomp10svn,
                    t.sgxtcbcomp11svn,
                    t.sgxtcbcomp12svn,
                    t.sgxtcbcomp13svn,
                    t.sgxtcbcomp14svn,
                    t.sgxtcbcomp15svn,
                    t.sgxtcbcomp16svn,
                ];
                assert(r@ =~= t.svns());
                r
            },
            Tcb::V3(t) => svns_of(&t.sgxtcbcomponents),
        }
    }

    /// The SVNs of the TDX components, where the TCB has them.
    pub fn tdx_tcb_components(&self) -> (r: Option<[u8; 16]>)
        requires
            self.deep_view().wf(),
        ensures
            r is Some <==> self.deep_view().tdx_svns() is Some,
            r matches Some(a) ==> Some(a@) == self.deep_view().tdx_svns(),
    {
        match self {
            Tcb::V3(t) => match &t.tdxtcbcomponents {
                Some(c) => Some(svns_of(c)),
                None => None,
            },
            Tcb::V2(_) => None,
        }
    }
}

fn svns_of(components: &Vec<TcbComponentV3>) -> (r: [u8; 16])
    requires
        components@.len() == 16,
    ensures
        r@ == components.deep_view().map_values(|c: ComponentView| c.svn),
{
    let mut r = [0u8; 16];
    let mut i: usize = 0;
    while i < 16
        invariant
            i <= 16,
            components@.len() == 16,
            r@.len() == 16,
            forall|j: int| 0 <= j < i ==> r@[j] == components@[j].svn,
        decreases 16 - i,
    {
        r[i] = components[i].svn;
        i = i + 1;
    }
    assert(r@ =~= components.deep_view().map_values(|c: ComponentView| c.svn));
    r
}

#[derive(Debug, Clone, Copy, PartialEq, Eq, Structural)]
pub struct TcbTdx {
    pub isvsvn: u8,
}

/// One TCB level of the platform's TCB.
#[derive(Debug, Clone, PartialEq, Eq)]
pub struct TcbLevel {
    pub tcb: Tcb,
    pub tcb_date: i64,
    pub tcb_status: TcbStatus,
    pub advisory_ids: Option<Vec<String>>,
}

pub struct TcbLevelView {
    pub tcb: TcbView,
    pub tcb_date: i64,
    pub tcb_status: TcbStatus,
    pub advisory_ids: Option<Seq<Seq<char>>>,
}

impl DeepView for TcbLevel {
    type V = TcbLevelView;

    open spec fn deep_view(&self) -> TcbLevelView {
        TcbLevelView {
            tcb: self.tcb.deep_view(),
            tcb_date: self.tcb_date,
            tcb_status: self.tcb_status,
            advisory_ids: self.advisory_ids.deep_view(),
        }
    }
}

/// One TCB level of a TDX module identity.
#[derive(Debug, Clone, PartialEq, Eq)]
pub struct TdxTcbLevel {
    pub tcb: TcbTdx,
    pub tcb_date: i64,
    pub tcb_status: TcbStatus,
    pub advisory_ids: Option<Vec<String>>,
}

pub struct TdxTcbLevelView {
    pub isvsvn: u8,
    pub tcb_date: i64,
    pub tcb_status: TcbStatus,
    pub advisory_ids: Option<Seq<Seq<char>>>,
}

impl DeepView for TdxTcbLevel {
    type V = TdxTcbLevelView;

    open spec fn deep_view(&self) -> TdxTcbLevelView {
        TdxTcbLevelView {
            isvsvn: self.tcb.isvsvn,
            tcb_date: self.tcb_date,
            tcb_status: self.tcb_status,
            advisory_ids: self.advisory_ids.deep_view(),
        }
    }
}

/// The TDX module of a TDX TCB info (version 3).
#[derive(Debug, Clone, PartialEq, Eq)]
pub struct TdxModule {
    pub mrsigner: String,
    pub attributes: String,
    pub attributes_mask: String,
}

pub struct TdxModuleView {
    pub mrsigner: Seq<char>,
    pub attributes: Seq<char>,
    pub attributes_mask: Seq<char>,
}

impl DeepView for TdxModule {
    type V = TdxModuleView;

    open spec fn deep_view(&self) -> TdxModuleView {
        TdxModuleView {
            mrsigner: self.mrsigner@,
            attributes: self.attributes@,
            attributes_mask: self.attributes_mask@,
        }
    }
}

/// One TDX module identity with its TCB levels.
#[derive(Debug, Clone, PartialEq, Eq)]
pub struct TdxModuleIdentity {
    pub id: String,
    pub mrsigner: String,
    pub attributes: String,
    pub attributes_mask: String,
    pub tcb_levels: Vec<TdxTcbLevel>,
}

pub struct TdxModuleIdentityView {
    pub id: Seq<char>,
    pub mrsigner: Seq<char>,
    pub attributes: Seq<char>,
    pub attributes_mask: Seq<char>,
    pub tcb_levels: Seq<TdxTcbLevelView>,
}

impl DeepView for TdxModuleIdentity {
    type V = TdxModuleIdentityView;

    open spec fn deep_view(&self) -> TdxModuleIdentityView {
        TdxModuleIdentityView {
            id: self.id@,
            mrsigner: self.mrsigner@,
            attributes: self.attributes@,
            attributes_mask: self.attributes_mask@,
            tcb_levels: self.tcb_levels.deep_view(),
        }
    }
}

/// TCB information for one platform (FMSPC).
#[derive(Debug, Clone, PartialEq, Eq)]
pub struct TcbInfo {
    pub id: Option<String>,
    pub version: TcbInfoVersion,
    pub issue_date: i64,
    pub next_update: i64,
    pub fmspc: String,
    pub pce_id: String,
    pub tcb_type: u8,
    pub tcb_evaluation_data_number: u32,
    pub tdx_module: Option<TdxModule>,
    pub tdx_module_identities: Option<Vec<TdxModuleIdentity>>,
    pub tcb_levels: Vec<TcbLevel>,
}

pub struct TcbInfoView {
    pub id: Option<Seq<char>>,
    pub version: TcbInfoVersion,
    pub issue_date: i64,
    pub next_update: i64,
    pub fmspc: Seq<char>,
    pub pce_id: Seq<char>,
    pub tcb_type: u8,
    pub tcb_evaluation_data_number: u32,
    pub tdx_module: Option<TdxModuleView>,
    pub tdx_module_identities: Option<Seq<TdxModuleIdentityView>>,
    pub tcb_levels: Seq<TcbLevelView>,
}

impl DeepView for TcbInfo {
    type V = TcbInfoView;

    open spec fn deep_view(&self) -> TcbInfoView {
        TcbInfoView {
            id: self.id.deep_view(),
            version: self.version,
            issue_date: self.issue_date,
            next_update: self.next_update,
            fmspc: self.fmspc@,
            pce_id: self.pce_id@,
            tcb_type: self.tcb_type,
            tcb_evaluation_data_number: self.tcb_evaluation_data_number,
            tdx_module: self.tdx_module.deep_view(),
            tdx_module_identities: self.tdx_module_identities.deep_view(),
            tcb_levels: self.tcb_levels.deep_view(),
        }
    }
}

/// Signed TCB information: the TCB info and the 64-byte signature over it.
#[derive(Debug, Clone, PartialEq, Eq)]
pub struct TcbInfoAndSignature {
    pub tcb_info: TcbInfo,
    pub signature: Vec<u8>,
}

/// A TCB status code reads as a status exactly when it is at most 6, and a
/// status read from a code is written back as that code.
pub proof fn tcb_status_code_laws(code: u8, s: TcbStatus)
    ensures
        TcbStatus::spec_try_from(code) is Ok <==> code <= 6,
        TcbStatus::spec_try_from(code) matches Ok(t) ==> t.spec_code() == code,
        TcbStatus::spec_try_from(s.spec_code()) == Ok::<TcbStatus, &'static str>(s),
{
}

/// TCB information has versions 2 and 3 only, each written as its number.
pub proof fn tcb_info_version_laws(value: u32, v: TcbInfoVersion)
    ensures
        TcbInfoVersion::spec_try_from(value) is Ok <==> (value == 2 || value == 3),
        TcbInfoVersion::spec_try_from(value) matches Ok(w) ==> w.spec_number() == value,
        TcbInfoVersion::spec_try_from(v.spec_number()) == Ok::<TcbInfoVersion, &'static str>(v),
        v == TcbInfoVersion::V2 ==> v.spec_number() == 2,
        v == TcbInfoVersion::V3 ==> v.spec_number() == 3,
{
}

/// The SVNs of a TCB, in order: a version 2 TCB lists its sixteen SGX
/// component SVNs from the first to the sixteenth; a version 3 TCB lists the
/// SVN of each of its components, SGX and TDX, in order. The PCE SVN is the
/// TCB's own.
pub proof fn tcb_svns_in_order(tcb: TcbView)
    ensures
        match tcb {
            TcbView::V2(v) => {
                &&& tcb.sgx_svns().len() == 16
                &&& tcb.sgx_svns()[0] == v.sgxtcbcomp01svn
                &&& tcb.sgx_svns()[1] == v.sgxtcbcomp02svn
                &&& tcb.sgx_svns()[2] == v.sgxtcbcomp03svn
                &&& tcb.sgx_svns()[3] == v.sgxtcbcomp04svn
                &&& tcb.sgx_svns()[4] == v.sgxtcbcomp05svn
                &&& tcb.sgx_svns()[5] == v.sgxtcbcomp06svn
                &&& tcb.sgx_svns()[6] == v.sgxtcbcomp07svn
                &&& tcb.sgx_svns()[7] == v.sgxtcbcomp08svn
                &&& tcb.sgx_svns()[8] == v.sgxtcbcomp09svn
                &&& tcb.sgx_svns()[9] == v.sgxtcbcomp10svn
                &&& tcb.sgx_svns()[10] == v.sgxtcbcomp11svn
                &&& tcb.sgx_svns()[11] == v.sgxtcbcomp12svn
                &&& tcb.sgx_svns()[12] == v.sgxtcbcomp13svn
                &&& tcb.sgx_svns()[13] == v.sgxtcbcomp14svn
                &&& tcb.sgx_svns()[14] == v.sgxtcbcomp15svn
                &&& tcb.sgx_svns()[15] == v.sgxtcbcomp16svn
                &&& tcb.tdx_svns() is None
                &&& tcb.pcesvn() == v.pcesvn
            },
            TcbView::V3 { sgx, pcesvn, tdx } => {
                &&& tcb.sgx_svns().len() == sgx.len()
                &&& forall|i: int| 0 <= i < sgx.len() ==> tcb.sgx_svns()[i] == #[trigger] sgx[i].svn
                &&& tcb.pcesvn() == pcesvn
                &&& match tdx {
                    Some(t) => tcb.tdx_svns() matches Some(s) && s.len() == t.len() && forall|i: int|
                        0 <= i < t.len() ==> s[i] == #[trigger] t[i].svn,
                    None => tcb.tdx_svns() is None,
                }
            },
        },
{
}

} // verus!
