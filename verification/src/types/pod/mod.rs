//! TCB information in a fixed-size, zero-padded layout that can be stored
//! on-chain: every string is a NUL-padded byte field, every list an array
//! of fixed length whose unused entries are all zero.
use vstd::prelude::*;

pub mod fields;
pub mod laws;
pub mod lists;
pub mod tcb_info_impl;

verus! {

pub const TDX_MODULE_TCB_MAX_LEVEL_SIZE: usize = 4;

pub const TCB_MAX_LEVEL_SIZE: usize = 15;

pub const MAX_ADVISORY_IDS_SIZE: usize = 16;

/// Signed TCB information in the fixed layout.
#[derive(Copy, Clone, Debug, PartialEq, Eq)]
pub struct TcbPod {
    pub tcb_info: TcbInfoPod,
    pub signature: [u8; 64],
}

/// TCB information in the fixed layout.
#[derive(Copy, Clone, Debug, PartialEq, Eq)]
pub struct TcbInfoPod {
    pub pceid_hex: [u8; 4],
    pub id: [u8; 6],
    pub fmspc_hex: [u8; 12],
    pub tcb_type: u8,
    pub _pad0: u8,
    pub version: u32,
    pub _pad1: [u8; 4],
    pub issued_timestamp: u64,
    pub next_update_timestamp: u64,
    pub tcb_evaluation_data_number: u32,
    pub _pad2: [u8; 4],
    pub tdx_module: TdxModulePod,
    pub tdx_module_identities: [TdxModuleIdentityPod; TDX_MODULE_TCB_MAX_LEVEL_SIZE],
    pub tcb_levels: [TcbLevelPod; TCB_MAX_LEVEL_SIZE],
}

/// The TDX module in the fixed layout.
#[derive(Copy, Clone, Debug, PartialEq, Eq)]
pub struct TdxModulePod {
    pub mrsigner_hex: [u8; 96],
    pub attributes_hex: [u8; 16],
    pub attributes_mask_hex: [u8; 16],
}

/// A TDX module identity in the fixed layout.
#[derive(Copy, Clone, Debug, PartialEq, Eq)]
pub struct TdxModuleIdentityPod {
    pub id: [u8; 12],
    pub mrsigner_hex: [u8; 96],
    pub _pad: [u8; 4],
    pub attributes_hex: [u8; 16],
    pub attributes_mask_hex: [u8; 16],
    pub tcb_levels: [TdxTcbLevelPod; TDX_MODULE_TCB_MAX_LEVEL_SIZE],
}

/// A TDX module TCB level in the fixed layout.
#[derive(Copy, Clone, Debug, PartialEq, Eq)]
pub struct TdxTcbLevelPod {
    pub tcb_isvsvn: u8,
    pub tcb_status: u8,
    pub _pad: [u8; 6],
    pub tcb_date: u64,
    pub advisory_ids: [[u8; 32]; MAX_ADVISORY_IDS_SIZE],
}

/// A platform TCB level in the fixed layout.
#[derive(Copy, Clone, Debug, PartialEq, Eq)]
pub struct TcbLevelPod {
    pub tcb_status: u8,
    pub _pad0: u8,
    pub pce_svn: u16,
    pub _pad1: [u8; 4],
    pub tcb_date: u64,
    pub sgx_tcb_components: [TcbComponent; 16],
    pub tdx_tcb_components: [TcbComponent; 16],
    pub advisory_ids: [[u8; 32]; MAX_ADVISORY_IDS_SIZE],
}

/// A TCB component in the fixed layout.
#[derive(Copy, Clone, Debug, PartialEq, Eq)]
pub struct TcbComponent {
    pub cpusvn: u8,
    pub category: [u8; 16],
    pub component_type: [u8; 64],
}

} // verus!
