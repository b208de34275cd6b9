//! Intel DCAP attestation data structures: quotes, TCB information in its
//! JSON-shaped and fixed-layout forms, and the on-chain PCCS account model.
pub mod solana;

pub mod bytes;
pub mod trusted;
pub mod types;
