//! The data types of DCAP attestation, and the output of a verification.
use vstd::prelude::*;

use crate::bytes::append_bytes;
use crate::trusted::{abi_encode_string_array, sol_abi_encoded_string_array};
use quote::QuoteBody;

pub mod pod;
pub mod quote;
pub mod tcb_info;

verus! {

/// The outcome of verifying a quote, in the form that is handed on-chain.
#[derive(Debug, Clone, PartialEq, Eq)]
pub struct VerifiedOutput {
    pub quote_version: u16,
    pub tee_type: u32,
    pub tcb_status: u8,
    pub fmspc: [u8; 6],
    pub quote_body: QuoteBody,
    pub advisory_ids: Option<Vec<String>>,
}

/// `v` as two bytes, most significant first.
pub open spec fn be16_bytes(v: u16) -> Seq<u8> {
    seq![(v / 0x100) as u8, (v % 0x100) as u8]
}

/// `v` as four bytes, least significant first.
pub open spec fn le32_bytes(v: u32) -> Seq<u8> {
    seq![
        (v % 0x100) as u8,
        (v / 0x100 % 0x100) as u8,
        (v / 0x10000 % 0x100) as u8,
        (v / 0x1000000) as u8,
    ]
}

impl VerifiedOutput {
    /// The serialized output: the quote version (2 bytes, big-endian), the
    /// TEE type (4 bytes, little-endian), the TCB status (1 byte), the FMSPC
    /// (6 bytes), the quote body, and, where there are advisory IDs, their
    /// ABI encoding as a `string[]`.
    pub open spec fn spec_bytes(&self) -> Seq<u8> {
        be16_bytes(self.quote_version) + le32_bytes(self.tee_type) + seq![self.tcb_status]
            + self.fmspc@ + self.quote_body.spec_bytes() + match self.advisory_ids.deep_view() {
            Some(ids) => sol_abi_encoded_string_array(ids),
            None => Seq::<u8>::empty(),
        }
    }

    pub fn to_vec(&self) -> (r: Vec<u8>)
        ensures
            r@ == self.spec_bytes(),
    {
        let mut bytes: Vec<u8> = Vec::new();
        let v = self.quote_version;
        bytes.push((v / 0x100) as u8);
        bytes.push((v % 0x100) as u8);
        let t = self.tee_type;
        bytes.push((t % 0x100) as u8);
        bytes.push((t / 0x100 % 0x100) as u8);
        bytes.push((t / 0x10000 % 0x100) as u8);
        bytes.push((t / 0x1000000) as u8);
        bytes.push(self.tcb_status);
        append_bytes(&mut bytes, self.fmspc.as_slice());
        append_bytes(&mut bytes, self.quote_body.as_bytes());
        let ghost before = bytes@;
        match &self.advisory_ids {
            Some(ids) => {
                let encoded = abi_encode_string_array(ids);
                append_bytes(&mut bytes, encoded.as_slice());
            },
            None => {
                assert(bytes@ =~= before + Seq::<u8>::empty());
            },
        }
        assert(bytes@ =~= self.spec_bytes());
        bytes
    }
}


/// The serialized output is 13 bytes of header fields, then the quote body
/// (384 bytes for an SGX enclave report, 584 for a TDX 1.0 report, 648 for a
/// TDX 1.5 report), then the encoded advisory IDs where there are any.
pub proof fn verified_output_layout(o: VerifiedOutput)
    ensures
        o.spec_bytes().len() == 13 + o.quote_body.spec_bytes().len() + match o.advisory_ids.deep_view() {
            Some(ids) => sol_abi_encoded_string_array(ids).len(),
            None => 0,
        },
        o.quote_body.spec_bytes().len() == match o.quote_body {
            QuoteBody::SgxQuoteBody(_) => 384int,
            QuoteBody::Td10QuoteBody(_) => 584,
            QuoteBody::Td15QuoteBody(_) => 648,
        },
        o.spec_bytes().subrange(0, 13) == be16_bytes(o.quote_version) + le32_bytes(o.tee_type)
            + seq![o.tcb_status] + o.fmspc@,
{
    let head = be16_bytes(o.quote_version) + le32_bytes(o.tee_type) + seq![o.tcb_status] + o.fmspc@;
    assert(head.len() == 13);
    let rest = o.quote_body.spec_bytes() + match o.advisory_ids.deep_view() {
        Some(ids) => sol_abi_encoded_string_array(ids),
        None => Seq::<u8>::empty(),
    };
    assert(o.spec_bytes() =~= head + rest);
    assert((head + rest).subrange(0, 13) =~= head);
}

/// Where each field stands in the serialized output: the version in bytes 0
/// and 1, most significant first; the TEE type in bytes 2 to 5, least
/// significant first; the TCB status in byte 6; the FMSPC in bytes 7 to 12;
/// then the quote body, unchanged; then the encoded advisory IDs, if any,
/// up to the end.
pub proof fn verified_output_fields(o: VerifiedOutput)
    ensures
        ({
            let b = o.spec_bytes();
            let n = o.quote_body.spec_bytes().len() as int;
            &&& b.len() >= 13 + n
            &&& b[0] as int == o.quote_version as int / 256
            &&& b[1] as int == o.quote_version as int % 256
            &&& b[2] as int + b[3] as int * 0x100 + b[4] as int * 0x10000 + b[5] as int
                * 0x1000000 == o.tee_type as int
            &&& b[6] == o.tcb_status
            &&& b.subrange(7, 13) == o.fmspc@
            &&& b.subrange(13, 13 + n) == o.quote_body.spec_bytes()
            &&& b.subrange(13 + n, b.len() as int) == match o.advisory_ids.deep_view() {
                Some(ids) => sol_abi_encoded_string_array(ids),
                None => Seq::<u8>::empty(),
            }
        }),
{
    let v = o.tee_type;
    let head = be16_bytes(o.quote_version) + le32_bytes(v) + seq![o.tcb_status] + o.fmspc@;
    let body = o.quote_body.spec_bytes();
    let tail = match o.advisory_ids.deep_view() {
        Some(ids) => sol_abi_encoded_string_array(ids),
        None => Seq::<u8>::empty(),
    };
    let b = o.spec_bytes();
    assert(b =~= head + body + tail);
    assert(b.subrange(7, 13) =~= o.fmspc@);
    assert(b.subrange(13, 13 + body.len() as int) =~= body);
    assert(b.subrange(13 + body.len() as int, b.len() as int) =~= tail);
    assert(v == (v % 0x100) + (v / 0x100 % 0x100) * 0x100 + (v / 0x10000 % 0x100) * 0x10000 + (v
        / 0x1000000) * 0x1000000) by (bit_vector);
}

} // verus!
